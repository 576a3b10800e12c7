use vstd::prelude::*;
use crate::registry::{Registry, lemma_without_all_contains, without_all};

verus! {

/// The targets `targets[i]`, for `i` below `outcomes.len()`, whose write
/// came out as `written`, in target order.
pub open spec fn picked(targets: Seq<u64>, outcomes: Seq<bool>, written: bool) -> Seq<u64>
    decreases outcomes.len(),
{
    if outcomes.len() == 0 {
        Seq::empty()
    } else {
        let rest = picked(targets, outcomes.drop_last(), written);
        if outcomes.last() == written {
            rest.push(targets[outcomes.len() - 1])
        } else {
            rest
        }
    }
}

/// One broadcast round: one message written to every connection of a
/// snapshot of the registry, in snapshot order. A failed write is recorded
/// and the round goes on with the next connection.
pub struct FanOut {
    message: String,
    targets: Vec<u64>,
    outcomes: Vec<bool>,
}

impl FanOut {
    /// The message of this round.
    pub closed spec fn text(&self) -> Seq<char> {
        self.message@
    }

    /// The connections to write to, in order.
    pub closed spec fn targets(&self) -> Seq<u64> {
        self.targets@
    }

    /// Whether each write made so far succeeded; the `i`-th is the write to
    /// `targets()[i]`.
    pub closed spec fn outcomes(&self) -> Seq<bool> {
        self.outcomes@
    }

    pub open spec fn wf(&self) -> bool {
        self.outcomes().len() <= self.targets().len()
    }

    /// The connections that got the message so far.
    pub open spec fn delivered_to(&self) -> Seq<u64> {
        picked(self.targets(), self.outcomes(), true)
    }

    /// The connections whose write failed so far.
    pub open spec fn failed_for(&self) -> Seq<u64> {
        picked(self.targets(), self.outcomes(), false)
    }

    /// Starts a round of `message` over the connections now in `registry`.
    pub fn start(message: String, registry: &Registry) -> (r: Self)
        ensures
            r.wf(),
            r.text() == message@,
            r.targets() == registry@,
            r.outcomes() == Seq::<bool>::empty(),
    {
        FanOut { message, targets: registry.snapshot(), outcomes: Vec::new() }
    }

    /// The message, to be written to each target.
    pub fn message(&self) -> (r: &str)
        ensures
            r@ == self.text(),
    {
        self.message.as_str()
    }

    /// The connection to write to next, or `None` once every target has
    /// been tried.
    pub fn next_target(&self) -> (r: Option<u64>)
        requires
            self.wf(),
        ensures
            self.outcomes().len() < self.targets().len() ==> r == Some(
                self.targets()[self.outcomes().len() as int],
            ),
            self.outcomes().len() == self.targets().len() ==> r is None,
    {
        let i = self.outcomes.len();
        if i < self.targets.len() {
            Some(self.targets[i])
        } else {
            None
        }
    }

    /// Whether every target has been tried.
    pub fn is_done(&self) -> (r: bool)
        requires
            self.wf(),
        ensures
            r == (self.outcomes().len() == self.targets().len()),
    {
        self.outcomes.len() == self.targets.len()
    }

    /// Records whether the write to the next target succeeded; the round
    /// then moves on to the target after it, whatever the outcome.
    pub fn record(&mut self, written: bool)
        requires
            old(self).wf(),
            old(self).outcomes().len() < old(self).targets().len(),
        ensures
            final(self).wf(),
            final(self).text() == old(self).text(),
            final(self).targets() == old(self).targets(),
            final(self).outcomes() == old(self).outcomes().push(written),
    {
        self.outcomes.push(written);
    }

    /// The connections whose write failed, in target order.
    pub fn failed(&self) -> (r: Vec<u64>)
        requires
            self.wf(),
        ensures
            r@ == self.failed_for(),
    {
        self.collect(false)
    }

    /// The connections that got the message, in target order.
    pub fn delivered(&self) -> (r: Vec<u64>)
        requires
            self.wf(),
        ensures
            r@ == self.delivered_to(),
    {
        self.collect(true)
    }

    fn collect(&self, written: bool) -> (r: Vec<u64>)
        requires
            self.wf(),
        ensures
            r@ == picked(self.targets(), self.outcomes(), written),
    {
        let mut r: Vec<u64> = Vec::new();
        let mut i: usize = 0;
        while i < self.outcomes.len()
            invariant
                self.wf(),
                i <= self.outcomes@.len(),
                r@ == picked(self.targets@, self.outcomes@.take(i as int), written),
            decreases self.outcomes@.len() - i,
        {
            let ghost before = self.outcomes@.take(i as int);
            assert(self.outcomes@.take(i + 1).drop_last() =~= before);
            if self.outcomes[i] == written {
                r.push(self.targets[i]);
            }
            i = i + 1;
        }
        assert(self.outcomes@.take(i as int) =~= self.outcomes@);
        r
    }

    /// Ends the round: every connection whose write failed is taken out of
    /// `registry`.
    pub fn finish(&self, registry: &mut Registry)
        requires
            self.wf(),
            old(registry).wf(),
        ensures
            final(registry).wf(),
            final(registry)@ == without_all(old(registry)@, self.failed_for()),
    {
        let failed = self.failed();
        let mut j: usize = 0;
        while j < failed.len()
            invariant
                registry.wf(),
                j <= failed@.len(),
                registry@ == without_all(old(registry)@, failed@.take(j as int)),
            decreases failed@.len() - j,
        {
            let ghost before = failed@.take(j as int);
            assert(failed@.take(j + 1).drop_last() =~= before);
            registry.deregister(failed[j]);
            j = j + 1;
        }
        assert(failed@.take(j as int) =~= failed@);
    }
}

/// A failed write holds back no other: once a round has tried every target,
/// each target whose own write succeeded has the message, whatever came of
/// the writes to the others.
pub proof fn lemma_failure_isolated(round: FanOut, i: int)
    requires
        round.wf(),
        round.outcomes().len() == round.targets().len(),
        0 <= i < round.targets().len(),
        round.outcomes()[i],
    ensures
        round.delivered_to().contains(round.targets()[i]),
{
    lemma_picked_contains(round.targets(), round.outcomes(), true, i);
}

proof fn lemma_picked_contains(targets: Seq<u64>, outcomes: Seq<bool>, written: bool, i: int)
    requires
        outcomes.len() <= targets.len(),
        0 <= i < outcomes.len(),
        outcomes[i] == written,
    ensures
        picked(targets, outcomes, written).contains(targets[i]),
    decreases outcomes.len(),
{
    let rest = picked(targets, outcomes.drop_last(), written);
    if i == outcomes.len() - 1 {
        assert(rest.push(targets[i])[rest.len() as int] == targets[i]);
    } else {
        lemma_picked_contains(targets, outcomes.drop_last(), written, i);
        let k = choose|k: int| 0 <= k < rest.len() && rest[k] == targets[i];
        if outcomes.last() == written {
            assert(rest.push(targets[outcomes.len() - 1])[k] == targets[i]);
        }
    }
}

/// After a round is finished, no connection whose write failed is in the
/// registry any more, and every other connection that was registered still
/// is: the next round's snapshot leaves out exactly the failed ones.
pub proof fn lemma_finish_evicts_failed(round: FanOut, before: Registry, after: Registry, x: u64)
    requires
        after@ == without_all(before@, round.failed_for()),
    ensures
        after@.contains(x) <==> (before@.contains(x) && !round.failed_for().contains(x)),
{
    lemma_without_all_contains(before@, round.failed_for(), x);
}

/// The messages that connection `c` gets from rounds run one after
/// another, in round order.
pub open spec fn received(rounds: Seq<FanOut>, c: u64) -> Seq<Seq<char>>
    decreases rounds.len(),
{
    if rounds.len() == 0 {
        Seq::empty()
    } else {
        let rest = received(rounds.drop_last(), c);
        if rounds.last().delivered_to().contains(c) {
            rest.push(rounds.last().text())
        } else {
            rest
        }
    }
}

/// Rounds run one after another, in the order their messages were queued.
/// A connection that was registered when round `k` started, and whose write
/// in it succeeded, has the message of round `k` as the latest it got, right
/// after everything it got from the rounds before: each message reaches
/// every connection registered at its broadcast, in queue order.
pub proof fn lemma_delivery_in_order(rounds: Seq<FanOut>, k: int, i: int)
    requires
        0 <= k < rounds.len(),
        rounds[k].wf(),
        rounds[k].outcomes().len() == rounds[k].targets().len(),
        0 <= i < rounds[k].targets().len(),
        rounds[k].outcomes()[i],
    ensures
        received(rounds.take(k + 1), rounds[k].targets()[i]) == received(
            rounds.take(k),
            rounds[k].targets()[i],
        ).push(rounds[k].text()),
{
    assert(rounds.take(k + 1).drop_last() =~= rounds.take(k));
    assert(rounds.take(k + 1).last() == rounds[k]);
    lemma_failure_isolated(rounds[k], i);
}

} // verus!
