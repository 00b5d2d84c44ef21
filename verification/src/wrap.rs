//! Word wrapping, which the `textwrap` crate does for this library.

use crate::text::texts;
use vstd::prelude::*;

verus! {

/// The lines that `textwrap::wrap` breaks `text` into for lines of at most
/// `width` columns, with the crate's default options and features.
pub uninterp spec fn wrapped_lines(text: Seq<char>, width: nat) -> Seq<Seq<char>>;

/// Calls `textwrap::wrap(text, width)` and copies each line it returns into
/// a `String`. Nothing is claimed of the lines but that they are what this
/// call returns for these two arguments: the result is a function of the
/// text and the width alone, since the options are the crate's defaults and
/// no terminal, locale or clock is consulted.
#[verifier::external_body]
pub(crate) fn wrap_text(text: &str, width: usize) -> (lines: Vec<String>)
    ensures
        texts(lines@) == wrapped_lines(text@, width as nat),
{
    textwrap::wrap(text, width).into_iter().map(|line| line.into_owned()).collect()
}

} // verus!
