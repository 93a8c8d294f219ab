//! Capability sets in a row, as a message carries them: one behind the other,
//! with nothing between them and no mark at the end. Their order is part of
//! the message.
use crate::capability_set::{CapabilitySet, CapabilitySetView};
use crate::codec::{Parsed, PduDecode, PduEncode};
use crate::cursor::ReadCursor;
use crate::error::{PduError, PduResult};
use vstd::prelude::*;

verus! {

/// What each of a list of capability sets says, in the order of the list.
pub open spec fn views(sets: Seq<CapabilitySet>) -> Seq<CapabilitySetView> {
    sets.map_values(|set: CapabilitySet| set@)
}

/// The sum of the sizes of the sets.
pub open spec fn sets_size(sets: Seq<CapabilitySetView>) -> nat
    decreases sets.len(),
{
    if sets.len() == 0 {
        0
    } else {
        sets_size(sets.drop_last()) + sets.last().size()
    }
}

/// The sets on the wire: one behind the other, in the order of the list.
pub open spec fn sets_wire(sets: Seq<CapabilitySetView>) -> Seq<u8>
    decreases sets.len(),
{
    if sets.len() == 0 {
        Seq::empty()
    } else {
        sets_wire(sets.drop_last()) + CapabilitySet::wire(sets.last())
    }
}

/// What a decoder makes of `s` that is to read `count` sets: it reads one
/// behind the other and stops at the first that fails. It goes by the count
/// alone and looks for no end mark.
pub open spec fn parse_sets(s: Seq<u8>, count: nat) -> Parsed<Seq<CapabilitySetView>>
    decreases count,
{
    if count == 0 {
        Parsed { outcome: Ok(Seq::empty()), consumed: 0 }
    } else {
        let before = parse_sets(s, (count - 1) as nat);
        match before.outcome {
            Err(_) => before,
            Ok(sets) => {
                let next = CapabilitySet::parse(s.skip(before.consumed as int));
                Parsed {
                    outcome: match next.outcome {
                        Ok(set) => Ok(sets.push(set)),
                        Err(e) => Err(e),
                    },
                    consumed: before.consumed + next.consumed,
                }
            },
        }
    }
}

/// The bytes of a list of sets are as many as the sizes of the sets add up to.
pub proof fn sets_wire_length(sets: Seq<CapabilitySetView>)
    ensures
        sets_wire(sets).len() == sets_size(sets),
    decreases sets.len(),
{
    if sets.len() > 0 {
        sets_wire_length(sets.drop_last());
    }
}

/// Every set of a list is no larger than the list, and a list holds no more
/// sets than a quarter of its size, for each set has a header of four bytes.
pub proof fn sets_size_bounds(sets: Seq<CapabilitySetView>)
    ensures
        4 * sets.len() <= sets_size(sets),
        forall|i: int| 0 <= i < sets.len() ==> (#[trigger] sets[i]).size() <= sets_size(sets),
        forall|i: int|
            0 <= i <= sets.len() ==> #[trigger] sets_size(sets.take(i)) <= sets_size(sets),
    decreases sets.len(),
{
    if sets.len() > 0 {
        let front = sets.drop_last();
        sets_size_bounds(front);
        assert forall|i: int| 0 <= i < sets.len() implies (#[trigger] sets[i]).size() <= sets_size(
            sets,
        ) by {
            if i < front.len() {
                assert(sets[i] == front[i]);
            }
        }
        assert forall|i: int| 0 <= i <= sets.len() implies #[trigger] sets_size(sets.take(i))
            <= sets_size(sets) by {
            if i < sets.len() {
                assert(sets.take(i) =~= front.take(i));
            } else {
                assert(sets.take(i) =~= sets);
            }
        }
    }
}

/// A decoder of a list never goes past the bytes that it was given.
pub proof fn parse_sets_stays_in_bounds(s: Seq<u8>, count: nat)
    ensures
        parse_sets(s, count).consumed <= s.len(),
    decreases count,
{
    if count > 0 {
        parse_sets_stays_in_bounds(s, (count - 1) as nat);
    }
}

/// Once a set of a list has failed, the decoder reads no further: a larger
/// count changes nothing.
pub proof fn parse_sets_failure_is_final(s: Seq<u8>, failed: nat, count: nat)
    requires
        failed <= count,
        parse_sets(s, failed).outcome is Err,
    ensures
        parse_sets(s, count) == parse_sets(s, failed),
    decreases count,
{
    if failed < count {
        parse_sets_failure_is_final(s, failed, (count - 1) as nat);
    }
}

/// Decoding the bytes of a list of sets gives the sets in the order in which
/// they stand on the wire, whatever follows the list.
pub proof fn sets_round_trip(sets: Seq<CapabilitySetView>, rest: Seq<u8>)
    requires
        forall|i: int| 0 <= i < sets.len() ==> CapabilitySet::fits(#[trigger] sets[i]),
    ensures
        parse_sets(sets_wire(sets) + rest, sets.len()) == (Parsed {
            outcome: Ok(sets),
            consumed: sets_wire(sets).len(),
        }),
    decreases sets.len(),
{
    if sets.len() == 0 {
        assert(sets =~= Seq::empty());
    } else {
        let front = sets.drop_last();
        let last = sets.last();
        let behind_front = CapabilitySet::wire(last) + rest;
        let stream = sets_wire(sets) + rest;
        assert(stream =~= sets_wire(front) + behind_front);
        sets_round_trip(front, behind_front);
        assert(stream.skip(sets_wire(front).len() as int) =~= behind_front);
        last.round_trip_in_stream(rest);
        assert(front.push(last) =~= sets);
    }
}

/// The sum of the sizes of the sets, as `encode` writes them.
pub fn capability_sets_size(sets: &Vec<CapabilitySet>) -> (n: usize)
    requires
        sets_size(views(sets@)) <= usize::MAX,
    ensures
        n == sets_size(views(sets@)),
{
    let ghost all = views(sets@);
    let mut total: usize = 0;
    let mut i: usize = 0;
    proof {
        sets_size_bounds(all);
    }
    while i < sets.len()
        invariant
            i <= sets.len(),
            all == views(sets@),
            sets_size(all) <= usize::MAX,
            total == sets_size(all.take(i as int)),
            forall|k: int| 0 <= k < all.len() ==> (#[trigger] all[k]).size() <= sets_size(all),
            forall|k: int|
                0 <= k <= all.len() ==> #[trigger] sets_size(all.take(k)) <= sets_size(all),
        decreases sets.len() - i,
    {
        proof {
            assert(all.take(i + 1).drop_last() =~= all.take(i as int));
            assert(sets_size(all.take(i + 1)) <= sets_size(all));
        }
        total = total + sets[i].size();
        i = i + 1;
    }
    assert(all.take(i as int) =~= all);
    total
}

/// Reads `count` capability sets from `src`, one behind the other, and hands
/// them out in the order in which they stood. It stops at the first set that
/// fails, and fails with it.
pub fn decode_capability_sets(src: &mut ReadCursor<'_>, count: usize) -> (res: PduResult<
    Vec<CapabilitySet>,
>)
    ensures
        final(src)@ == old(src)@.skip(parse_sets(old(src)@, count as nat).consumed as int),
        match res {
            Ok(sets) => parse_sets(old(src)@, count as nat).outcome == Ok::<
                Seq<CapabilitySetView>,
                PduError,
            >(views(sets@)),
            Err(e) => parse_sets(old(src)@, count as nat).outcome == Err::<
                Seq<CapabilitySetView>,
                PduError,
            >(e),
        },
{
    let ghost list = src@;
    let mut capability_sets: Vec<CapabilitySet> = Vec::with_capacity(count);
    let mut i: usize = 0;
    assert(views(capability_sets@) =~= Seq::<CapabilitySetView>::empty());
    while i < count
        invariant
            i <= count,
            list == old(src)@,
            capability_sets@.len() == i,
            parse_sets(list, i as nat).outcome == Ok::<Seq<CapabilitySetView>, PduError>(
                views(capability_sets@),
            ),
            src@ == list.skip(parse_sets(list, i as nat).consumed as int),
        decreases count - i,
    {
        let ghost sets_before = views(capability_sets@);
        proof {
            parse_sets_stays_in_bounds(list, i as nat);
        }
        match CapabilitySet::decode(src) {
            Ok(set) => {
                capability_sets.push(set);
                assert(views(capability_sets@) =~= sets_before.push(set@));
            },
            Err(e) => {
                proof {
                    parse_sets_failure_is_final(list, (i + 1) as nat, count as nat);
                }
                return Err(e);
            },
        }
        i = i + 1;
    }
    Ok(capability_sets)
}

} // verus!
