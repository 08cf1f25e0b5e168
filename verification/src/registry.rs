//! The schema registry's one cross-variant obligation: every matcher
//! type has its own magic, so no record can pass another variant's
//! verification.

use vstd::prelude::*;

use crate::common::magic_matches;
use crate::event::state::EVENT_MATCHER_MAGIC;
use crate::jpy::state::JPY_MATCHER_MAGIC;
use crate::macro_matcher::state::MACRO_MATCHER_MAGIC;
use crate::privacy::state::PRIVACY_MATCHER_MAGIC;
use crate::vol::state::VOL_MATCHER_MAGIC;

verus! {

/// The five variant magics are pairwise distinct, so a record typed for
/// one variant never passes the magic check of another.
pub proof fn lemma_magics_distinct(s: Seq<u8>)
    ensures
        PRIVACY_MATCHER_MAGIC != VOL_MATCHER_MAGIC,
        PRIVACY_MATCHER_MAGIC != JPY_MATCHER_MAGIC,
        PRIVACY_MATCHER_MAGIC != EVENT_MATCHER_MAGIC,
        PRIVACY_MATCHER_MAGIC != MACRO_MATCHER_MAGIC,
        VOL_MATCHER_MAGIC != JPY_MATCHER_MAGIC,
        VOL_MATCHER_MAGIC != EVENT_MATCHER_MAGIC,
        VOL_MATCHER_MAGIC != MACRO_MATCHER_MAGIC,
        JPY_MATCHER_MAGIC != EVENT_MATCHER_MAGIC,
        JPY_MATCHER_MAGIC != MACRO_MATCHER_MAGIC,
        EVENT_MATCHER_MAGIC != MACRO_MATCHER_MAGIC,
        magic_matches(s, PRIVACY_MATCHER_MAGIC) ==> !magic_matches(s, VOL_MATCHER_MAGIC)
            && !magic_matches(s, JPY_MATCHER_MAGIC) && !magic_matches(s, EVENT_MATCHER_MAGIC)
            && !magic_matches(s, MACRO_MATCHER_MAGIC),
{
}

} // verus!
