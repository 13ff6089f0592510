//! Text shaping for the terminal rendering of split names.

use vstd::prelude::*;

verus! {

/// Fits `string` into `length` characters: a short string is returned as
/// it is, a longer one is cut to `length - 3` characters and marked with an
/// ellipsis. Widths under four leave no room for the mark.
pub fn truncate_string(string: &str, length: usize) -> (r: String)
    requires
        length >= 4,
    ensures
        string@.len() <= length ==> r@ == string@,
        string@.len() > length ==> r@ == string@.subrange(0, length - 3) + "..."@,
{
    let n = string.unicode_len();
    if n <= length {
        string.to_owned()
    } else {
        string.substring_char(0, length - 3).to_owned().concat("...")
    }
}

} // verus!
