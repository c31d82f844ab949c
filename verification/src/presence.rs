//! The presence tracker: counts the human occupants of a voice channel.
//!
//! The count is always computed from a fresh membership snapshot taken at
//! the event, never maintained incrementally: presence events may be
//! missed, duplicated or reordered, and a running counter would drift.

use vstd::prelude::*;
use crate::ids::UserId;

verus! {

/// The number of members in `members` other than the bot itself.
pub open spec fn spec_human_occupants(members: Seq<UserId>, bot: UserId) -> nat
    decreases members.len(),
{
    if members.len() == 0 {
        0
    } else {
        spec_human_occupants(members.drop_last(), bot) + (if members.last() != bot {
            1nat
        } else {
            0nat
        })
    }
}

/// Counts the members of a channel snapshot, excluding the bot's own user.
/// Pure in the snapshot: two calls on equal snapshots agree.
pub fn human_occupants(members: &Vec<UserId>, bot: UserId) -> (n: usize)
    ensures
        n == spec_human_occupants(members@, bot),
{
    let mut n: usize = 0;
    let mut i: usize = 0;
    while i < members.len()
        invariant
            i <= members@.len(),
            n <= i,
            n == spec_human_occupants(members@.take(i as int), bot),
        decreases members@.len() - i,
    {
        proof {
            assert(members@.take(i as int + 1).drop_last() =~= members@.take(i as int));
            assert(members@.take(i as int + 1).last() == members@[i as int]);
        }
        if members[i] != bot {
            n = n + 1;
        }
        i = i + 1;
    }
    proof {
        assert(members@.take(members@.len() as int) =~= members@);
    }
    n
}

} // verus!
