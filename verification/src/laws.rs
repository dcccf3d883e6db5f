//! What holds of the validator on every input: completion whatever the order of
//! the acknowledgements, failure on a rejection, harmless duplicates, and a
//! buffer that never reorders.
use vstd::prelude::*;
use crate::correlation::{
    all_confirmed, confirm, distinct_keys, has_confirmed, has_pending, EntryModel,
};
use crate::validator::{
    absorb, consumes, frames_read, rejection, run, settle, step, Frame, ProgressModel, StateModel,
};

verus! {

/// The frame is a subscription acknowledgement for `key`.
pub open spec fn acknowledges<F>(frame: Frame<F>, key: Seq<char>) -> bool {
    match frame.message {
        Some(message) => !message.is_internal() && message.key() == Some(key),
        None => false,
    }
}

/// Some frame of the sequence is a subscription acknowledgement for `key`.
pub open spec fn acknowledged<F>(frames: Seq<Frame<F>>, key: Seq<char>) -> bool {
    exists|i: int| 0 <= i < frames.len() && acknowledges(#[trigger] frames[i], key)
}

/// No frame of the sequence is rejected.
pub open spec fn none_rejected<F>(frames: Seq<Frame<F>>) -> bool {
    forall|i: int| 0 <= i < frames.len() ==> rejection(#[trigger] frames[i]).is_none()
}

/// `after` has the entries of `before`, key by key and instrument by
/// instrument, and every entry that was confirmed is still confirmed.
pub open spec fn extends<K>(before: Seq<EntryModel<K>>, after: Seq<EntryModel<K>>) -> bool {
    &&& after.len() == before.len()
    &&& forall|i: int|
        0 <= i < before.len() ==> {
            &&& (#[trigger] after[i]).key == before[i].key
            &&& after[i].instrument == before[i].instrument
            &&& (before[i].confirmed ==> after[i].confirmed)
        }
}

/// Confirmation is monotonic: a frame that is not rejected never removes an
/// entry, changes a key or an instrument, or takes a confirmation back; and it
/// never removes or reorders what is buffered.
pub proof fn lemma_absorb_monotonic<K, F>(state: StateModel<K, F>, frame: Frame<F>)
    ensures
        extends(state.map, absorb(state, frame).map),
        distinct_keys(state.map) ==> distinct_keys(absorb(state, frame).map),
        absorb(state, frame).buffered == state.buffered || absorb(state, frame).buffered
            == state.buffered.push(frame.raw),
{
}

/// Validation is all or nothing: it ends complete, with every entry of the
/// seeded map confirmed and none added, removed or changed otherwise, or it ends
/// failed, with an error and nothing else.
pub proof fn lemma_run_is_all_or_nothing<K, F>(state: StateModel<K, F>, frames: Seq<Frame<F>>)
    ensures
        run(state, frames) is Complete || run(state, frames) is Failed,
        run(state, frames) is Complete ==> {
            &&& all_confirmed(run(state, frames)->Complete_0.map)
            &&& extends(state.map, run(state, frames)->Complete_0.map)
            &&& (distinct_keys(state.map) ==> distinct_keys(run(state, frames)->Complete_0.map))
        },
    decreases frames.len(),
{
    if !all_confirmed(state.map) && frames.len() > 0 && rejection(frames[0]).is_none() {
        lemma_absorb_monotonic(state, frames[0]);
        lemma_run_is_all_or_nothing(absorb(state, frames[0]), frames.skip(1));
    }
}

/// When every seeded key is confirmed already or acknowledged by some frame, and
/// no frame is rejected, the validator completes, whatever the order of the
/// frames: the final map has the same entries, all of them confirmed.
pub proof fn lemma_acknowledgements_in_any_order_complete<K, F>(
    state: StateModel<K, F>,
    frames: Seq<Frame<F>>,
)
    requires
        none_rejected(frames),
        forall|j: int|
            0 <= j < state.map.len() ==> (#[trigger] state.map[j]).confirmed || acknowledged(
                frames,
                state.map[j].key,
            ),
    ensures
        run(state, frames) is Complete,
        extends(state.map, run(state, frames)->Complete_0.map),
        all_confirmed(run(state, frames)->Complete_0.map),
    decreases frames.len(),
{
    if !all_confirmed(state.map) {
        let j = choose|j: int| 0 <= j < state.map.len() && !(#[trigger] state.map[j]).confirmed;
        assert(acknowledged(frames, state.map[j].key));
        assert(frames.len() > 0);
        let next = absorb(state, frames[0]);
        let rest = frames.skip(1);
        lemma_absorb_monotonic(state, frames[0]);
        assert forall|j: int| 0 <= j < next.map.len() implies (#[trigger] next.map[j]).confirmed
            || acknowledged(rest, next.map[j].key) by {
            let key = state.map[j].key;
            if !state.map[j].confirmed {
                let i = choose|i: int| 0 <= i < frames.len() && acknowledges(#[trigger] frames[i], key);
                if i == 0 {
                    assert(has_pending(state.map, key));
                    assert(next.map[j].confirmed);
                } else {
                    assert(acknowledges(rest[i - 1], key));
                }
            }
        }
        assert(none_rejected(rest)) by {
            assert forall|i: int| 0 <= i < rest.len() implies rejection(#[trigger] rest[i]).is_none() by {
                assert(rest[i] == frames[i + 1]);
            }
        }
        lemma_acknowledgements_in_any_order_complete(next, rest);
    }
}

/// The first rejected frame fails the whole validation with its error, unless
/// the validator had completed before reading it. Nothing of the map or of the
/// buffer is part of a failed outcome.
pub proof fn lemma_rejection_fails<K, F>(state: StateModel<K, F>, frames: Seq<Frame<F>>, at: int)
    requires
        0 <= at < frames.len(),
        rejection(frames[at]).is_some(),
        none_rejected(frames.take(at)),
        !(run(state, frames.take(at)) is Complete),
    ensures
        run(state, frames) == ProgressModel::<K, F>::Failed(rejection(frames[at]).unwrap()),
    decreases at,
{
    let prefix = frames.take(at);
    if at > 0 {
        assert(prefix[0] == frames[0]);
        assert(rejection(prefix[0]).is_none());
        let next = absorb(state, frames[0]);
        assert(prefix.skip(1) =~= frames.skip(1).take(at - 1));
        assert(none_rejected(frames.skip(1).take(at - 1))) by {
            assert forall|i: int| 0 <= i < at - 1 implies rejection(
                #[trigger] frames.skip(1).take(at - 1)[i],
            ).is_none() by {
                assert(frames.skip(1).take(at - 1)[i] == prefix[i + 1]);
            }
        }
        lemma_rejection_fails(next, frames.skip(1), at - 1);
    }
}

/// Confirming a key twice is confirming it once.
pub proof fn lemma_confirm_idempotent<K>(entries: Seq<EntryModel<K>>, key: Seq<char>)
    ensures
        confirm(confirm(entries, key), key) == confirm(entries, key),
{
    assert(confirm(confirm(entries, key), key) =~= confirm(entries, key));
}

/// A valid acknowledgement for a key that is already confirmed raises no error
/// and leaves the map as it is; the frame is kept for the caller.
pub proof fn lemma_duplicate_acknowledgement_is_harmless<K, F>(
    state: StateModel<K, F>,
    frame: Frame<F>,
    key: Seq<char>,
)
    requires
        distinct_keys(state.map),
        has_confirmed(state.map, key),
        acknowledges(frame, key),
        rejection(frame).is_none(),
    ensures
        step(state, frame) == settle(
            StateModel { map: state.map, buffered: state.buffered.push(frame.raw) },
        ),
{
    let i = choose|i: int| 0 <= i < state.map.len() && #[trigger] state.map[i].key == key
        && state.map[i].confirmed;
    if has_pending(state.map, key) {
        let j = choose|j: int| 0 <= j < state.map.len() && #[trigger] state.map[j].key == key
            && !state.map[j].confirmed;
        assert(i != j);
        if i < j {
            assert(state.map[i].key != state.map[j].key);
        } else {
            assert(state.map[j].key != state.map[i].key);
        }
    }
}

/// The state after the validator has absorbed the first `count` frames.
pub open spec fn state_after<K, F>(
    state: StateModel<K, F>,
    frames: Seq<Frame<F>>,
    count: nat,
) -> StateModel<K, F>
    decreases count,
{
    if count == 0 {
        state
    } else {
        absorb(state_after(state, frames, (count - 1) as nat), frames[count - 1])
    }
}

/// The frame at `index` is not consumed when the validator reaches it.
pub open spec fn is_kept<K, F>(state: StateModel<K, F>, frames: Seq<Frame<F>>, index: int) -> bool {
    !consumes(state_after(state, frames, index as nat).map, frames[index])
}

/// The indices, among the first `count` frames, of the frames that are not
/// consumed, in arrival order.
pub open spec fn kept_indices<K, F>(
    state: StateModel<K, F>,
    frames: Seq<Frame<F>>,
    count: nat,
) -> Seq<int>
    decreases count,
{
    if count == 0 {
        Seq::empty()
    } else if is_kept(state, frames, count - 1) {
        kept_indices(state, frames, (count - 1) as nat).push(count - 1)
    } else {
        kept_indices(state, frames, (count - 1) as nat)
    }
}

/// The kept indices rise strictly, name exactly the frames that are not
/// consumed, and the buffer grows by the raw frames at those indices, in order.
pub proof fn lemma_kept_indices<K, F>(state: StateModel<K, F>, frames: Seq<Frame<F>>, count: nat)
    requires
        count <= frames.len(),
    ensures
        forall|k: int|
            0 <= k < kept_indices(state, frames, count).len() ==> {
                &&& 0 <= (#[trigger] kept_indices(state, frames, count)[k]) < count
                &&& is_kept(state, frames, kept_indices(state, frames, count)[k])
            },
        forall|k: int, l: int|
            0 <= k < l < kept_indices(state, frames, count).len() ==> kept_indices(
                state,
                frames,
                count,
            )[k] < kept_indices(state, frames, count)[l],
        forall|i: int|
            0 <= i < count && is_kept(state, frames, i) ==> kept_indices(
                state,
                frames,
                count,
            ).contains(i),
        state_after(state, frames, count).buffered == state.buffered + Seq::new(
            kept_indices(state, frames, count).len(),
            |k: int| frames[kept_indices(state, frames, count)[k]].raw,
        ),
    decreases count,
{
    let indices = kept_indices(state, frames, count);
    let raws = Seq::new(indices.len(), |k: int| frames[indices[k]].raw);
    if count == 0 {
        assert(state.buffered + raws =~= state.buffered);
    } else {
        let fewer = (count - 1) as nat;
        let before = kept_indices(state, frames, fewer);
        let raws_before = Seq::new(before.len(), |k: int| frames[before[k]].raw);
        lemma_kept_indices(state, frames, fewer);
        if is_kept(state, frames, count - 1) {
            assert(indices[before.len() as int] == count - 1);
            assert forall|i: int| 0 <= i < count && is_kept(state, frames, i) implies indices.contains(
                i,
            ) by {
                if i < count - 1 {
                    assert(before.contains(i));
                    let k = choose|k: int| 0 <= k < before.len() && before[k] == i;
                    assert(indices[k] == i);
                }
            }
            assert(raws =~= raws_before.push(frames[count - 1].raw));
            assert(state.buffered + raws =~= (state.buffered + raws_before).push(
                frames[count - 1].raw,
            ));
        } else {
            assert(raws =~= raws_before);
        }
    }
}

/// Absorbing `count` frames is absorbing the first and then the `count - 1`
/// that follow it.
proof fn lemma_state_after_front<K, F>(state: StateModel<K, F>, frames: Seq<Frame<F>>, count: nat)
    requires
        1 <= count <= frames.len(),
    ensures
        state_after(state, frames, count) == state_after(
            absorb(state, frames[0]),
            frames.skip(1),
            (count - 1) as nat,
        ),
    decreases count,
{
    let next = absorb(state, frames[0]);
    let rest = frames.skip(1);
    if count == 1 {
        assert(state_after(state, frames, 0) == state);
        assert(state_after(next, rest, 0) == next);
    } else {
        lemma_state_after_front(state, frames, (count - 1) as nat);
        assert(rest[count - 2] == frames[count - 1]);
    }
}

/// A complete outcome is the state after the frames that were read.
pub proof fn lemma_complete_is_state_after<K, F>(state: StateModel<K, F>, frames: Seq<Frame<F>>)
    requires
        run(state, frames) is Complete,
    ensures
        frames_read(state, frames) <= frames.len(),
        run(state, frames)->Complete_0 == state_after(state, frames, frames_read(state, frames)),
    decreases frames.len(),
{
    if !all_confirmed(state.map) {
        let next = absorb(state, frames[0]);
        let rest = frames.skip(1);
        lemma_complete_is_state_after(next, rest);
        lemma_state_after_front(state, frames, frames_read(state, frames));
    }
}

/// Buffering never reorders: when the validator completes, the buffer holds
/// what it held before, followed by the raw frames, taken in arrival order from
/// the frames that were read, of exactly those that were not consumed.
pub proof fn lemma_buffer_preserves_arrival_order<K, F>(
    state: StateModel<K, F>,
    frames: Seq<Frame<F>>,
)
    requires
        run(state, frames) is Complete,
    ensures
        ({
            let read = frames_read(state, frames);
            let kept = kept_indices(state, frames, read);
            let buffered = run(state, frames)->Complete_0.buffered;
            &&& read <= frames.len()
            &&& buffered == state.buffered + Seq::new(kept.len(), |k: int| frames[kept[k]].raw)
            &&& forall|k: int|
                0 <= k < kept.len() ==> 0 <= (#[trigger] kept[k]) < read && is_kept(
                    state,
                    frames,
                    kept[k],
                )
            &&& forall|k: int, l: int| 0 <= k < l < kept.len() ==> kept[k] < kept[l]
            &&& forall|i: int| 0 <= i < read && is_kept(state, frames, i) ==> kept.contains(i)
        }),
{
    lemma_complete_is_state_after(state, frames);
    lemma_kept_indices(state, frames, frames_read(state, frames));
}

} // verus!
