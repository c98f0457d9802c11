//! Sequencing a batch of generators against one database.
//!
//! The decisions live here as a state machine; whoever drives it performs the
//! seeds and reports their outcomes. Each seed is its own unit of work: a
//! failure stops the batch, and nothing seeded before it is undone.
use vstd::prelude::*;

verus! {

/// What the driver of a batch is asked to do next.
#[derive(Debug, PartialEq, Eq)]
pub enum RunAction<E> {
    /// Seed the generator at this position of the batch.
    Seed(usize),
    /// Every generator was seeded: the batch succeeded.
    Done,
    /// A seed failed: the batch stops with this error.
    Fail(E),
}

/// What the driver reports of the seed it was last asked for.
#[derive(Debug, PartialEq, Eq)]
pub enum SeedOutcome<E> {
    /// The statement ran.
    Seeded,
    /// The backend returned this error.
    Failed(E),
}

/// The state of a batch run: how many generators it has, how many it has
/// started, and whether it has stopped.
pub struct RunnerModel {
    pub total: nat,
    pub next: nat,
    pub finished: bool,
}

impl RunnerModel {
    /// A seed has been asked for and its outcome is awaited.
    pub open spec fn awaiting(self) -> bool {
        !self.finished && 1 <= self.next <= self.total
    }
}

/// The state and first action of a batch of `total` generators.
pub open spec fn start_spec<E>(total: nat) -> (RunnerModel, RunAction<E>) {
    if total == 0 {
        (RunnerModel { total, next: 0, finished: true }, RunAction::Done)
    } else {
        (RunnerModel { total, next: 1, finished: false }, RunAction::Seed(0))
    }
}

/// The next state and action after an outcome: stop at the first failure,
/// else seed the next generator in order, else succeed.
pub open spec fn step_spec<E>(m: RunnerModel, o: SeedOutcome<E>) -> (RunnerModel, RunAction<E>) {
    if m.finished {
        (m, RunAction::Done)
    } else {
        match o {
            SeedOutcome::Failed(e) => (RunnerModel { finished: true, ..m }, RunAction::Fail(e)),
            SeedOutcome::Seeded => if m.next >= m.total {
                (RunnerModel { finished: true, ..m }, RunAction::Done)
            } else {
                (RunnerModel { next: m.next + 1, ..m }, RunAction::Seed(m.next as usize))
            },
        }
    }
}

/// The state reached and the actions asked for when a batch of `total`
/// generators is driven with the given outcomes, in order.
pub open spec fn replay<E>(total: nat, outcomes: Seq<SeedOutcome<E>>) -> (
    RunnerModel,
    Seq<RunAction<E>>,
)
    decreases outcomes.len(),
{
    if outcomes.len() == 0 {
        let (m, a) = start_spec::<E>(total);
        (m, seq![a])
    } else {
        let (m, acts) = replay(total, outcomes.drop_last());
        let (m2, a) = step_spec(m, outcomes.last());
        (m2, acts.push(a))
    }
}

/// Sequences the seeding of a batch of generators, one at a time, stopping at
/// the first failure.
pub struct Runner {
    total: usize,
    next: usize,
    finished: bool,
}

impl View for Runner {
    type V = RunnerModel;

    closed spec fn view(&self) -> RunnerModel {
        RunnerModel { total: self.total as nat, next: self.next as nat, finished: self.finished }
    }
}

impl Runner {
    #[verifier::type_invariant]
    spec fn inv(&self) -> bool {
        self.next <= self.total
    }

    /// A runner over a batch of `total` generators, with its first action.
    pub fn start<E>(total: usize) -> (r: (Runner, RunAction<E>))
        ensures
            (r.0@, r.1) == start_spec::<E>(total as nat),
    {
        if total == 0 {
            (Runner { total, next: 0, finished: true }, RunAction::Done)
        } else {
            (Runner { total, next: 1, finished: false }, RunAction::Seed(0))
        }
    }

    /// Whether the runner has stopped.
    pub fn is_finished(&self) -> (r: bool)
        ensures
            r == self@.finished,
    {
        self.finished
    }

    /// Takes the outcome of the seed last asked for and says what to do next.
    pub fn on_outcome<E>(&mut self, outcome: SeedOutcome<E>) -> (r: RunAction<E>)
        requires
            old(self)@.awaiting(),
        ensures
            (final(self)@, r) == step_spec(old(self)@, outcome),
    {
        proof {
            use_type_invariant(&*self);
        }
        match outcome {
            SeedOutcome::Failed(e) => {
                self.finished = true;
                RunAction::Fail(e)
            },
            SeedOutcome::Seeded => {
                if self.next >= self.total {
                    self.finished = true;
                    RunAction::Done
                } else {
                    let i = self.next;
                    self.next = self.next + 1;
                    RunAction::Seed(i)
                }
            },
        }
    }
}

proof fn lemma_seeded_prefix<E>(total: nat, outcomes: Seq<SeedOutcome<E>>)
    requires
        total <= usize::MAX,
        outcomes.len() < total,
        forall|i: int| 0 <= i < outcomes.len() ==> (#[trigger] outcomes[i]) is Seeded,
    ensures
        replay(total, outcomes).0 == (RunnerModel {
            total,
            next: outcomes.len() + 1,
            finished: false,
        }),
        replay(total, outcomes).1.len() == outcomes.len() + 1,
        forall|i: int|
            0 <= i <= outcomes.len() ==> #[trigger] replay(total, outcomes).1[i] == RunAction::<
                E,
            >::Seed(i as usize),
    decreases outcomes.len(),
{
    if outcomes.len() > 0 {
        let prev = outcomes.drop_last();
        lemma_seeded_prefix(total, prev);
        let acts = replay(total, prev).1;
        let (m2, a) = step_spec(replay(total, prev).0, outcomes.last());
        assert(replay(total, outcomes).1 == acts.push(a));
        assert forall|i: int| 0 <= i <= outcomes.len() implies #[trigger] replay(
            total,
            outcomes,
        ).1[i] == RunAction::<E>::Seed(i as usize) by {
            if i < outcomes.len() {
                assert(acts[i] == RunAction::<E>::Seed(i as usize));
            }
        }
    }
}

proof fn lemma_finished_stays<E>(total: nat, outcomes: Seq<SeedOutcome<E>>, k: int)
    requires
        0 <= k < outcomes.len(),
        replay(total, outcomes.take(k + 1)).0.finished,
    ensures
        replay(total, outcomes).0.finished,
        replay(total, outcomes).1.len() == outcomes.len() + 1,
        replay(total, outcomes).1.take(k + 2) == replay(total, outcomes.take(k + 1)).1,
        forall|i: int|
            k + 2 <= i <= outcomes.len() ==> #[trigger] replay(total, outcomes).1[i]
                == RunAction::<E>::Done,
    decreases outcomes.len(),
{
    lemma_replay_len(total, outcomes);
    if outcomes.len() == k + 1 {
        assert(outcomes.take(k + 1) =~= outcomes);
        assert(replay(total, outcomes).1.take(k + 2) =~= replay(total, outcomes).1);
    } else {
        let prev = outcomes.drop_last();
        assert(prev.take(k + 1) =~= outcomes.take(k + 1));
        lemma_finished_stays(total, prev, k);
        let acts = replay(total, prev).1;
        assert(replay(total, outcomes).1 == acts.push(RunAction::<E>::Done));
        assert(replay(total, outcomes).1.take(k + 2) =~= acts.take(k + 2));
    }
}

proof fn lemma_replay_len<E>(total: nat, outcomes: Seq<SeedOutcome<E>>)
    ensures
        replay(total, outcomes).1.len() == outcomes.len() + 1,
    decreases outcomes.len(),
{
    if outcomes.len() > 0 {
        lemma_replay_len(total, outcomes.drop_last());
    }
}

/// A batch stops at its first failure: when the generators before position
/// `k` seed and the one at `k` fails with `e`, the runner asks for the seeds
/// of positions `0..=k` in order, then fails with `e`, and asks for no other
/// seed whatever outcomes follow.
pub proof fn lemma_stops_at_first_failure<E>(
    total: nat,
    outcomes: Seq<SeedOutcome<E>>,
    k: int,
    e: E,
)
    requires
        total <= usize::MAX,
        0 <= k < total,
        k < outcomes.len(),
        forall|i: int| 0 <= i < k ==> (#[trigger] outcomes[i]) is Seeded,
        outcomes[k] == SeedOutcome::Failed(e),
    ensures
        replay(total, outcomes).0.finished,
        replay(total, outcomes).1.len() == outcomes.len() + 1,
        forall|i: int| 0 <= i <= k ==> #[trigger] replay(total, outcomes).1[i] == RunAction::<E>::Seed(i as usize),
        replay(total, outcomes).1[k + 1] == RunAction::Fail(e),
        forall|i: int| k + 1 < i <= outcomes.len() ==> !(#[trigger] replay(total, outcomes).1[i] is Seed),
{
    let pre = outcomes.take(k);
    assert forall|i: int| 0 <= i < pre.len() implies (#[trigger] pre[i]) is Seeded by {
        assert(pre[i] == outcomes[i]);
    }
    lemma_seeded_prefix(total, pre);
    let upto = outcomes.take(k + 1);
    assert(upto.drop_last() =~= pre);
    assert(upto.last() == SeedOutcome::Failed(e));
    lemma_finished_stays(total, outcomes, k);
    let acts = replay(total, outcomes).1;
    assert forall|i: int| 0 <= i <= k implies #[trigger] acts[i] == RunAction::<E>::Seed(i as usize) by {
        assert(acts.take(k + 2)[i] == acts[i]);
    }
    assert(acts.take(k + 2)[k + 1] == acts[k + 1]);
}

/// A batch whose every seed succeeds asks for the seeds of all its
/// generators, in order, and then succeeds.
pub proof fn lemma_all_seeded<E>(total: nat, outcomes: Seq<SeedOutcome<E>>)
    requires
        total <= usize::MAX,
        outcomes.len() == total,
        forall|i: int| 0 <= i < outcomes.len() ==> (#[trigger] outcomes[i]) is Seeded,
    ensures
        replay(total, outcomes).0.finished,
        replay(total, outcomes).1.len() == total + 1,
        forall|i: int| 0 <= i < total ==> #[trigger] replay(total, outcomes).1[i] == RunAction::<E>::Seed(i as usize),
        replay(total, outcomes).1[total as int] == RunAction::<E>::Done,
{
    if total > 0 {
        let pre = outcomes.drop_last();
        assert forall|i: int| 0 <= i < pre.len() implies (#[trigger] pre[i]) is Seeded by {
            assert(pre[i] == outcomes[i]);
        }
        lemma_seeded_prefix(total, pre);
        let acts = replay(total, pre).1;
        assert(replay(total, outcomes).1 == acts.push(RunAction::<E>::Done));
        assert forall|i: int| 0 <= i < total implies #[trigger] replay(total, outcomes).1[i] == RunAction::<E>::Seed(i as usize) by {
            assert(acts[i] == RunAction::<E>::Seed(i as usize));
        }
    }
}

} // verus!
