use crate::request::CompletionEnvelope;
use crate::response::{result_of, Outcome, OutcomeView, ProtosocketResult, ResultView};
use std::collections::HashMap;
use vstd::prelude::*;

verus! {

broadcast use vstd::std_specs::hash::group_hash_axioms;

/// The waiting results after a completion for `id` with outcome `o` arrives:
/// taken in when nothing waits under `id`, ignored otherwise.
pub open spec fn complete_post(s: Map<u64, OutcomeView>, id: u64, o: OutcomeView) -> Map<
    u64,
    OutcomeView,
> {
    if s.contains_key(id) {
        s
    } else {
        s.insert(id, o)
    }
}

/// What a poll for `id` hands out.
pub open spec fn poll_result(s: Map<u64, OutcomeView>, id: u64) -> Option<ResultView> {
    if s.contains_key(id) {
        Some(result_of(s[id]))
    } else {
        None
    }
}

/// The waiting results after a poll for `id`: its result, if any, is gone.
pub open spec fn poll_post(s: Map<u64, OutcomeView>, id: u64) -> Map<u64, OutcomeView> {
    s.remove(id)
}

/// Holds finished operations, keyed by operation identifier, until the caller
/// polls for them.
pub struct Accumulator {
    entries: HashMap<u64, Outcome>,
}

impl View for Accumulator {
    type V = Map<u64, OutcomeView>;

    /// The outcomes that wait to be polled.
    closed spec fn view(&self) -> Map<u64, OutcomeView> {
        self.entries@.map_values(|o: Outcome| o@)
    }
}

impl Accumulator {
    /// An accumulator that holds nothing.
    pub fn new() -> (r: Accumulator)
        ensures
            r@ == Map::<u64, OutcomeView>::empty(),
    {
        let r = Accumulator { entries: HashMap::new() };
        assert(r@ =~= Map::<u64, OutcomeView>::empty());
        r
    }

    /// Takes in a completion. One whose identifier already waits is refused
    /// and dropped, so a waiting result is never overwritten; `true` tells
    /// that it was taken in.
    pub fn complete(&mut self, env: CompletionEnvelope) -> (taken: bool)
        ensures
            final(self)@ == complete_post(old(self)@, env.operation_id, env.outcome@),
            taken == !old(self)@.contains_key(env.operation_id),
    {
        let id = env.operation_id;
        if self.entries.contains_key(&id) {
            return false;
        }
        let ghost o = env.outcome@;
        self.entries.insert(id, env.outcome);
        assert(self@ =~= old(self)@.insert(id, o));
        true
    }

    /// Removes and reports the result waiting under `operation_id`; `None`
    /// when nothing waits there, whether the operation is still running, was
    /// already polled, or was never submitted.
    pub fn poll(&mut self, operation_id: u64) -> (r: Option<ProtosocketResult>)
        ensures
            final(self)@ == poll_post(old(self)@, operation_id),
            match r {
                Some(x) => poll_result(old(self)@, operation_id) == Some(x@),
                None => poll_result(old(self)@, operation_id) is None,
            },
    {
        let removed = self.entries.remove(&operation_id);
        assert(self@ =~= old(self)@.remove(operation_id));
        match removed {
            Some(o) => Some(ProtosocketResult::from_outcome(o)),
            None => None,
        }
    }

    /// Number of results that wait to be polled.
    pub fn pending_count(&self) -> (r: usize)
        ensures
            r == self@.len(),
    {
        assert(self@.dom() =~= self.entries@.dom());
        self.entries.len()
    }
}

/// Exactly-once delivery: when a completion for `id` arrives while nothing
/// waits under `id`, the next poll for `id` hands out the record of that
/// outcome, and a second poll for `id` hands out nothing.
pub proof fn lemma_delivered_exactly_once(s: Map<u64, OutcomeView>, id: u64, o: OutcomeView)
    requires
        !s.contains_key(id),
    ensures
        poll_result(complete_post(s, id, o), id) == Some(result_of(o)),
        poll_result(poll_post(complete_post(s, id, o), id), id) is None,
{
}

/// A poll empties its slot: right after any poll for `id`, another poll for
/// `id` hands out nothing.
pub proof fn lemma_second_poll_absent(s: Map<u64, OutcomeView>, id: u64)
    ensures
        poll_result(poll_post(s, id), id) is None,
{
}

/// Completions and polls for other identifiers leave what a poll for `id`
/// hands out unchanged.
pub proof fn lemma_other_operations_independent(
    s: Map<u64, OutcomeView>,
    id: u64,
    other: u64,
    o: OutcomeView,
)
    requires
        other != id,
    ensures
        poll_result(complete_post(s, other, o), id) == poll_result(s, id),
        poll_result(poll_post(s, other), id) == poll_result(s, id),
{
}

/// One thing that happens to an accumulator.
pub enum AccumulatorEvent {
    Complete { id: u64, outcome: OutcomeView },
    Poll { id: u64 },
}

/// The waiting results after one event.
pub open spec fn step(s: Map<u64, OutcomeView>, e: AccumulatorEvent) -> Map<u64, OutcomeView> {
    match e {
        AccumulatorEvent::Complete { id, outcome } => complete_post(s, id, outcome),
        AccumulatorEvent::Poll { id } => poll_post(s, id),
    }
}

/// The waiting results after a run of events.
pub open spec fn replay(s: Map<u64, OutcomeView>, evs: Seq<AccumulatorEvent>) -> Map<
    u64,
    OutcomeView,
>
    decreases evs.len(),
{
    if evs.len() == 0 {
        s
    } else {
        replay(step(s, evs[0]), evs.drop_first())
    }
}

/// How many polls for `id` in a run of events hand out a result.
pub open spec fn deliveries(s: Map<u64, OutcomeView>, evs: Seq<AccumulatorEvent>, id: u64) -> nat
    decreases evs.len(),
{
    if evs.len() == 0 {
        0
    } else {
        (if evs[0] matches AccumulatorEvent::Poll { id: p } && p == id && s.contains_key(id) {
            1nat
        } else {
            0nat
        }) + deliveries(step(s, evs[0]), evs.drop_first(), id)
    }
}

/// How many completions for `id` a run of events holds.
pub open spec fn completions(evs: Seq<AccumulatorEvent>, id: u64) -> nat
    decreases evs.len(),
{
    if evs.len() == 0 {
        0
    } else {
        (if evs[0] matches AccumulatorEvent::Complete { id: c, .. } && c == id {
            1nat
        } else {
            0nat
        }) + completions(evs.drop_first(), id)
    }
}

/// Polls hand out no more results under `id` than were waiting at the start
/// plus the completions for `id` that arrive.
pub proof fn lemma_deliveries_bounded(s: Map<u64, OutcomeView>, evs: Seq<AccumulatorEvent>, id: u64)
    ensures
        deliveries(s, evs, id) <= (if s.contains_key(id) {
            1nat
        } else {
            0nat
        }) + completions(evs, id),
    decreases evs.len(),
{
    if evs.len() > 0 {
        lemma_deliveries_bounded(step(s, evs[0]), evs.drop_first(), id);
    }
}

proof fn lemma_split(s: Map<u64, OutcomeView>, a: Seq<AccumulatorEvent>, b: Seq<AccumulatorEvent>, id: u64)
    ensures
        deliveries(s, a + b, id) == deliveries(s, a, id) + deliveries(replay(s, a), b, id),
        completions(a + b, id) == completions(a, id) + completions(b, id),
        completions(a, id) == 0 && !s.contains_key(id) ==> !replay(s, a).contains_key(id),
    decreases a.len(),
{
    if a.len() == 0 {
        assert(a + b =~= b);
    } else {
        assert((a + b).drop_first() =~= a.drop_first() + b);
        assert((a + b)[0] == a[0]);
        lemma_split(step(s, a[0]), a.drop_first(), b, id);
    }
}

proof fn lemma_waiting_is_delivered(s: Map<u64, OutcomeView>, evs: Seq<AccumulatorEvent>, id: u64, j: int)
    requires
        s.contains_key(id),
        0 <= j < evs.len(),
        evs[j] == (AccumulatorEvent::Poll { id }),
    ensures
        deliveries(s, evs, id) >= 1,
    decreases evs.len(),
{
    if j > 0 && !(evs[0] matches AccumulatorEvent::Poll { id: p } && p == id) {
        assert(evs.drop_first()[j - 1] == evs[j]);
        lemma_waiting_is_delivered(step(s, evs[0]), evs.drop_first(), id, j - 1);
    }
}

/// Exactly-once delivery over any interleaving: when the only completion for
/// `id` arrives at some point, with nothing waiting under `id` before, and a
/// poll for `id` comes some time after it, then exactly one poll for `id`
/// hands out a result, whatever other completions and polls come between.
pub proof fn lemma_exactly_one_delivery(
    s: Map<u64, OutcomeView>,
    before: Seq<AccumulatorEvent>,
    id: u64,
    o: OutcomeView,
    after: Seq<AccumulatorEvent>,
    j: int,
)
    requires
        !s.contains_key(id),
        completions(before, id) == 0,
        completions(after, id) == 0,
        0 <= j < after.len(),
        after[j] == (AccumulatorEvent::Poll { id }),
    ensures
        deliveries(s, before + seq![AccumulatorEvent::Complete { id, outcome: o }] + after, id) == 1,
{
    let c = seq![AccumulatorEvent::Complete { id, outcome: o }];
    let evs = before + c + after;
    lemma_split(s, before, c + after, id);
    assert(evs =~= before + (c + after));
    let mid = replay(s, before);
    assert((c + after).drop_first() =~= after);
    assert((c + after)[0] == c[0]);
    assert(completions(c + after, id) == 1 + completions(after, id));
    lemma_deliveries_bounded(s, evs, id);
    lemma_waiting_is_delivered(step(mid, c[0]), after, id, j);
    assert(deliveries(mid, c + after, id) == deliveries(step(mid, c[0]), after, id));
}

proof fn lemma_no_completion_of_unissued(evs: Seq<AccumulatorEvent>, issued: Set<u64>, id: u64)
    requires
        !issued.contains(id),
        forall|k: int|
            0 <= k < evs.len() && #[trigger] evs[k] is Complete ==> issued.contains(
                evs[k]->Complete_id,
            ),
    ensures
        completions(evs, id) == 0,
    decreases evs.len(),
{
    if evs.len() > 0 {
        assert forall|k: int|
            0 <= k < evs.drop_first().len() && #[trigger] evs.drop_first()[k] is Complete implies issued.contains(
            evs.drop_first()[k]->Complete_id) by {
            assert(evs.drop_first()[k] == evs[k + 1]);
        }
        assert(evs[0] is Complete ==> issued.contains(evs[0]->Complete_id));
        lemma_no_completion_of_unissued(evs.drop_first(), issued, id);
    }
}

/// Exactly-once delivery of a freshly submitted operation: `issued` holds
/// the identifiers handed out before `id`, every result waiting at the start
/// and every completion before `id`'s own answers one of them, and no other
/// completion carries `id`. Then, once a poll for `id` follows its
/// completion, exactly one poll for `id` hands out a result.
pub proof fn lemma_fresh_id_delivered_once(
    s: Map<u64, OutcomeView>,
    issued: Set<u64>,
    before: Seq<AccumulatorEvent>,
    id: u64,
    o: OutcomeView,
    after: Seq<AccumulatorEvent>,
    j: int,
)
    requires
        !issued.contains(id),
        forall|k: u64| #[trigger] s.contains_key(k) ==> issued.contains(k),
        forall|k: int|
            0 <= k < before.len() && #[trigger] before[k] is Complete ==> issued.contains(
                before[k]->Complete_id,
            ),
        completions(after, id) == 0,
        0 <= j < after.len(),
        after[j] == (AccumulatorEvent::Poll { id }),
    ensures
        deliveries(s, before + seq![AccumulatorEvent::Complete { id, outcome: o }] + after, id) == 1,
{
    lemma_no_completion_of_unissued(before, issued, id);
    lemma_exactly_one_delivery(s, before, id, o, after, j);
}

} // verus!
