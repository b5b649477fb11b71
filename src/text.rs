//! The three text operations: measuring through a shared borrow, extending
//! in place through an exclusive borrow, and extending a value that is moved in.
use vstd::prelude::*;
use vstd::string::{StrSliceExecFns, StringExecFns};

verus! {

/// The suffix that the in-place step appends.
pub open spec fn borrowed_suffix() -> Seq<char> {
    ", world!"@
}

/// The suffix that the move-and-transform step appends.
pub open spec fn moved_suffix() -> Seq<char> {
    ", world, but different!"@
}

/// Number of characters in `s`, read through a shared borrow; `s` is left as it was.
pub fn get_length(s: &String) -> (len: usize)
    ensures
        len == s@.len(),
{
    s.as_str().unicode_len()
}

/// Appends the suffix of `borrowed_suffix` to `s` through an exclusive
/// borrow: the value stays with its owner and grows in place.
pub fn change_string(s: &mut String)
    ensures
        final(s)@ == old(s)@ + borrowed_suffix(),
{
    s.append(", world!");
}

/// Takes ownership of `s`, appends the suffix of `moved_suffix`, and hands the
/// extended value back; the caller's binding is no longer usable.
pub fn new_string(s: String) -> (r: String)
    ensures
        r@ == s@ + moved_suffix(),
{
    let mut string = s;
    string.append(", world, but different!");
    string
}

} // verus!
