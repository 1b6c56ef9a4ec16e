//! Marking of translatable strings.
//!
//! Strings are not translated yet: a message is its own translation.
use vstd::prelude::*;

verus! {

/// The translation of `msgid`, which is `msgid` itself.
pub fn gettext(msgid: &str) -> (r: String)
    ensures
        r@ == msgid@,
{
    let mut r = String::new();
    crate::text::push_str(&mut r, msgid);
    assert(r@ =~= msgid@);
    r
}

} // verus!
