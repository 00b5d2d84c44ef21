//! Text building blocks for the panes: decimal numerals, zero padding and
//! fitting a string into a fixed number of columns.

use vstd::prelude::*;
use vstd::std_specs::iter::IteratorSpec;
use vstd::string::*;

verus! {

/// The character that stands for a single decimal digit.
pub open spec fn digit_char(d: nat) -> char {
    if d == 0 {
        '0'
    } else if d == 1 {
        '1'
    } else if d == 2 {
        '2'
    } else if d == 3 {
        '3'
    } else if d == 4 {
        '4'
    } else if d == 5 {
        '5'
    } else if d == 6 {
        '6'
    } else if d == 7 {
        '7'
    } else if d == 8 {
        '8'
    } else {
        '9'
    }
}

/// The decimal numeral of `n`, most significant digit first, without
/// leading zeros (`0` is written "0").
pub open spec fn decimal(n: nat) -> Seq<char>
    decreases n,
{
    if n < 10 {
        seq![digit_char(n)]
    } else {
        decimal(n / 10).push(digit_char(n % 10))
    }
}

/// `n` copies of the character `c`.
pub open spec fn repeated(c: char, n: nat) -> Seq<char> {
    Seq::new(n, |i: int| c)
}

/// The decimal numeral of `n`, with zeros in front until it has at least
/// `width` characters.
pub open spec fn zero_padded(n: nat, width: nat) -> Seq<char> {
    let digits = decimal(n);
    if digits.len() >= width {
        digits
    } else {
        repeated('0', (width - digits.len()) as nat) + digits
    }
}

/// `s` cut or padded with spaces to exactly `width` characters.
pub open spec fn fitted(s: Seq<char>, width: nat) -> Seq<char> {
    if s.len() >= width {
        s.take(width as int)
    } else {
        s + repeated(' ', (width - s.len()) as nat)
    }
}

/// The characters of each string of a sequence.
pub open spec fn texts(strings: Seq<String>) -> Seq<Seq<char>> {
    Seq::new(strings.len(), |i: int| strings[i]@)
}

fn digit_str(d: u8) -> (s: &'static str)
    requires
        d < 10,
    ensures
        s@ == seq![digit_char(d as nat)],
{
    proof {
        reveal_strlit("0");
        reveal_strlit("1");
        reveal_strlit("2");
        reveal_strlit("3");
        reveal_strlit("4");
        reveal_strlit("5");
        reveal_strlit("6");
        reveal_strlit("7");
        reveal_strlit("8");
        reveal_strlit("9");
    }
    let s: &'static str = if d == 0 {
        "0"
    } else if d == 1 {
        "1"
    } else if d == 2 {
        "2"
    } else if d == 3 {
        "3"
    } else if d == 4 {
        "4"
    } else if d == 5 {
        "5"
    } else if d == 6 {
        "6"
    } else if d == 7 {
        "7"
    } else if d == 8 {
        "8"
    } else {
        "9"
    };
    assert(s@ =~= seq![digit_char(d as nat)]);
    s
}

/// Appends the decimal numeral of `n` to `out`.
pub fn push_decimal(out: &mut String, n: u128)
    ensures
        final(out)@ == old(out)@ + decimal(n as nat),
    decreases n,
{
    if n >= 10 {
        push_decimal(out, n / 10);
    }
    let d: u8 = (n % 10) as u8;
    out.append(digit_str(d));
    assert(final(out)@ =~= old(out)@ + decimal(n as nat));
}

/// Appends `n` copies of `unit`, which holds the single character `c`.
fn push_repeated(out: &mut String, unit: &str, n: usize, Ghost(c): Ghost<char>)
    requires
        unit@ == seq![c],
    ensures
        final(out)@ == old(out)@ + repeated(c, n as nat),
{
    let mut i: usize = 0;
    while i < n
        invariant
            i <= n,
            unit@ == seq![c],
            out@ == old(out)@ + repeated(c, i as nat),
        decreases n - i,
    {
        out.append(unit);
        i = i + 1;
        assert(out@ =~= old(out)@ + repeated(c, i as nat));
    }
}

/// Appends `n` spaces to `out`.
pub fn push_spaces(out: &mut String, n: usize)
    ensures
        final(out)@ == old(out)@ + repeated(' ', n as nat),
{
    proof {
        reveal_strlit(" ");
    }
    assert(" "@ =~= seq![' ']);
    push_repeated(out, " ", n, Ghost(' '));
}

/// The number of characters in the decimal numeral of `n`.
fn decimal_len(n: u16) -> (len: usize)
    ensures
        len == decimal(n as nat).len(),
{
    let mut len: usize = 1;
    let mut rest: u16 = n;
    while rest >= 10
        invariant
            1 <= len,
            len + decimal(rest as nat).len() == decimal(n as nat).len() + 1,
            len + rest <= n + 1,
        decreases rest,
    {
        rest = rest / 10;
        len = len + 1;
    }
    len
}

/// Appends the decimal numeral of `n`, zero-padded to `width` characters.
pub fn push_zero_padded(out: &mut String, n: u16, width: usize)
    ensures
        final(out)@ == old(out)@ + zero_padded(n as nat, width as nat),
{
    let len: usize = decimal_len(n);
    if len < width {
        proof {
            reveal_strlit("0");
        }
        assert("0"@ =~= seq!['0']);
        push_repeated(out, "0", width - len, Ghost('0'));
    }
    push_decimal(out, n as u128);
    assert(final(out)@ =~= old(out)@ + zero_padded(n as nat, width as nat));
}

/// The decimal numeral of `n` as a string.
pub fn decimal_string(n: u128) -> (s: String)
    ensures
        s@ == decimal(n as nat),
{
    let mut s = String::new();
    push_decimal(&mut s, n);
    assert(s@ =~= decimal(n as nat));
    s
}

/// Cuts `s` after `width` characters, or pads it with spaces up to `width`.
pub fn fit(s: &str, width: usize) -> (out: String)
    ensures
        out@ == fitted(s@, width as nat),
{
    let len: usize = s.unicode_len();
    if len >= width {
        let head = s.substring_char(0, width);
        assert(head@ =~= s@.take(width as int));
        String::from_str(head)
    } else {
        let mut out = String::from_str(s);
        push_spaces(&mut out, width - len);
        out
    }
}

/// The number of characters before the first line feed of `text`, or its
/// length if it has none.
pub open spec fn line_end(text: Seq<char>) -> nat
    decreases text.len(),
{
    if text.len() == 0 || text[0] == '\n' {
        0
    } else {
        1 + line_end(text.drop_first())
    }
}

/// The first line of `text`: what stands before its first line feed.
pub open spec fn first_line(text: Seq<char>) -> Seq<char> {
    text.take(line_end(text) as int)
}

/// The end of the first line is the one position that has no line feed
/// before it and either ends the text or holds a line feed.
pub proof fn lemma_line_end(text: Seq<char>, n: nat)
    requires
        n <= text.len(),
        forall|i: int| 0 <= i < n ==> text[i] != '\n',
        n < text.len() ==> text[n as int] == '\n',
    ensures
        line_end(text) == n,
    decreases text.len(),
{
    if n > 0 {
        let rest = text.drop_first();
        assert forall|i: int| 0 <= i < n - 1 implies rest[i] != '\n' by {
            assert(rest[i] == text[i + 1]);
        }
        lemma_line_end(rest, (n - 1) as nat);
    }
}

/// The first line of `text`.
pub fn first_line_of(text: &str) -> (line: &str)
    ensures
        line@ == first_line(text@),
{
    let len: usize = text.unicode_len();
    let mut n: usize = 0;
    let mut chars = text.chars();
    loop
        invariant_except_break
            chars.remaining() == text@.skip(n as int),
        invariant
            n <= len,
            len == text@.len(),
            forall|i: int| 0 <= i < n ==> text@[i] != '\n',
        ensures
            n < text@.len() ==> text@[n as int] == '\n',
        decreases len - n,
    {
        match chars.next() {
            None => {
                break ;
            },
            Some(c) => {
                if c == '\n' {
                    break ;
                }
                n = n + 1;
            },
        }
    }
    proof {
        lemma_line_end(text@, n as nat);
    }
    text.substring_char(0, n)
}

} // verus!
