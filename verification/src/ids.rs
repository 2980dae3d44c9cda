//! Fresh event ids, drawn from the CUID generator.
use vstd::prelude::*;
use crate::events::is_cuid_text;

verus! {

/// Whether `s` is an id drawn by `new_event_id`. This is a sealed mark: its
/// definition (the CUID shape) is visible in this module only, so code
/// elsewhere can show that a text is a drawn id only by having it from
/// `new_event_id`, and learns of such an id only its shape
/// (`lemma_drawn_id_shape`). A constant or a text made up by other means is
/// never known to be a drawn id.
pub closed spec fn is_drawn_id(s: Seq<char>) -> bool {
    is_cuid_text(s)
}

/// A drawn id has the CUID shape.
pub proof fn lemma_drawn_id_shape(s: Seq<char>)
    requires
        is_drawn_id(s),
    ensures
        is_cuid_text(s),
{
}

/// `cuid2::cuid`: a fresh collision-resistant id. Its value depends on the
/// clock, a counter and chance; what its source guarantees of every outcome
/// is its shape (a starting letter from `a`-`z`, then base-36 digits, 2 to
/// 24 characters in all). The result is marked as drawn.
#[verifier::external_body]
pub(crate) fn new_event_id() -> (r: String)
    ensures
        is_cuid_text(r@),
        is_drawn_id(r@),
{
    cuid2::cuid()
}

} // verus!
