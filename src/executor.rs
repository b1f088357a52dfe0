//! The decisions of the spin executor.

use vstd::prelude::*;

verus! {

/// What one poll of an operation reported.
pub enum PollOutcome<T> {
    /// The operation has not resolved yet.
    Pending,
    /// The operation resolved to this value; it must not be polled again.
    Ready(T),
}

/// What the executor does after a poll.
pub enum SpinStep<T> {
    /// Poll the operation again, at once: no sleep, no yield, no back-off.
    PollAgain,
    /// Stop and hand this value to the caller.
    Complete(T),
}

/// The executor's answer to one poll: keep polling while the operation is
/// pending, and return its value, untouched, as soon as it is ready.
pub open spec fn spin_decision<T>(outcome: PollOutcome<T>) -> SpinStep<T> {
    match outcome {
        PollOutcome::Pending => SpinStep::PollAgain,
        PollOutcome::Ready(v) => SpinStep::Complete(v),
    }
}

/// A whole spin over the outcomes that successive polls of one operation
/// report: the number of polls made and the value returned. Polling stops at
/// the first poll that resolves; if none of the given outcomes resolves, every
/// one of them is polled and nothing is returned yet.
pub open spec fn spin_run<T>(outcomes: Seq<PollOutcome<T>>) -> (nat, Option<T>)
    decreases outcomes.len(),
{
    if outcomes.len() == 0 {
        (0, None)
    } else {
        match spin_decision(outcomes[0]) {
            SpinStep::Complete(v) => (1, Some(v)),
            SpinStep::PollAgain => {
                let rest = spin_run(outcomes.drop_first());
                (rest.0 + 1, rest.1)
            },
        }
    }
}

/// The operation whose polls report `outcomes` resolves on poll `k` (counted
/// from one) to `v`: every earlier poll is pending.
pub open spec fn resolves_after<T>(outcomes: Seq<PollOutcome<T>>, k: nat, v: T) -> bool {
    &&& 1 <= k <= outcomes.len()
    &&& outcomes[k - 1] == PollOutcome::Ready(v)
    &&& forall|i: int| 0 <= i < k - 1 ==> outcomes[i] is Pending
}

/// The state of the spin executor of one adapter: idle, or executing exactly
/// one operation.
///
/// A blocking call starts the spinner, then polls its operation and hands each
/// outcome to [`Spinner::on_poll`] until that says the call is complete. The
/// spinner keeps no value of the operation: its ghost counters only record how
/// many operations were started and completed, and how many polls the current
/// (or last) operation took.
pub struct Spinner {
    executing: bool,
    polls: Ghost<nat>,
    started: Ghost<nat>,
    completed: Ghost<nat>,
}

impl Spinner {
    /// An operation is in flight: started, and not resolved yet.
    pub closed spec fn busy(&self) -> bool {
        self.executing
    }

    /// Polls made of the current operation, or of the last one once it
    /// resolved.
    pub closed spec fn polls(&self) -> nat {
        self.polls@
    }

    /// Operations started so far.
    pub closed spec fn started(&self) -> nat {
        self.started@
    }

    /// Operations that resolved so far.
    pub closed spec fn completed(&self) -> nat {
        self.completed@
    }

    /// Every started operation has resolved, but for the one in flight, if
    /// any.
    pub closed spec fn wf(&self) -> bool {
        self.started@ == self.completed@ + if self.executing { 1nat } else { 0nat }
    }

    /// An idle spinner that has run nothing.
    pub fn new() -> (s: Spinner)
        ensures
            s.wf(),
            !s.busy(),
            s.polls() == 0,
            s.started() == 0,
            s.completed() == 0,
    {
        Spinner { executing: false, polls: Ghost(0), started: Ghost(0), completed: Ghost(0) }
    }

    /// Whether an operation is in flight.
    pub fn is_busy(&self) -> (r: bool)
        ensures
            r == self.busy(),
    {
        self.executing
    }

    /// Begins one operation. Only an idle spinner can begin one, so a second
    /// operation never starts before the first has resolved.
    pub fn start(&mut self)
        requires
            old(self).wf(),
            !old(self).busy(),
        ensures
            final(self).wf(),
            final(self).busy(),
            final(self).polls() == 0,
            final(self).started() == old(self).started() + 1,
            final(self).completed() == old(self).completed(),
    {
        self.executing = true;
        self.polls = Ghost(0);
        self.started = Ghost(self.started@ + 1);
    }

    /// Takes the outcome of one poll of the operation in flight and decides:
    /// poll again while it is pending, complete with its value, unchanged, once
    /// it is ready. A ready outcome leaves the spinner idle, so a resolved
    /// operation is never polled again.
    pub fn on_poll<T>(&mut self, outcome: PollOutcome<T>) -> (step: SpinStep<T>)
        requires
            old(self).wf(),
            old(self).busy(),
        ensures
            final(self).wf(),
            step == spin_decision(outcome),
            final(self).polls() == old(self).polls() + 1,
            final(self).busy() == outcome is Pending,
            final(self).started() == old(self).started(),
            final(self).completed() == old(self).completed() + if outcome is Ready {
                1nat
            } else {
                0nat
            },
    {
        self.polls = Ghost(self.polls@ + 1);
        match outcome {
            PollOutcome::Pending => SpinStep::PollAgain,
            PollOutcome::Ready(v) => {
                self.executing = false;
                self.completed = Ghost(self.completed@ + 1);
                SpinStep::Complete(v)
            },
        }
    }
}

/// An operation that resolves on poll `k` to `v` is polled exactly `k` times,
/// and the spin returns `v` as the operation produced it. Whatever a later poll
/// would report is never looked at.
pub proof fn lemma_spin_polls_exactly<T>(outcomes: Seq<PollOutcome<T>>, k: nat, v: T)
    requires
        resolves_after(outcomes, k, v),
    ensures
        spin_run(outcomes) == (k, Some(v)),
    decreases k,
{
    if k > 1 {
        assert(outcomes[0] is Pending);
        let rest = outcomes.drop_first();
        assert forall|i: int| 0 <= i < k - 2 implies rest[i] is Pending by {
            assert(rest[i] == outcomes[i + 1]);
        }
        assert(rest[k - 2] == outcomes[k - 1]);
        lemma_spin_polls_exactly(rest, (k - 1) as nat, v);
    }
}

/// An operation that is ready on its first poll with `v` is polled once, and
/// the spin returns `v` with nothing done in between.
pub proof fn lemma_ready_on_first_poll<T>(outcomes: Seq<PollOutcome<T>>, v: T)
    requires
        outcomes.len() >= 1,
        outcomes[0] == PollOutcome::Ready(v),
    ensures
        spin_run(outcomes) == (1nat, Some(v)),
{
}

/// A driver's operation that fails with `e` makes the blocking call fail with
/// `e` itself: the error is neither wrapped nor replaced, and it comes back
/// after exactly the polls the operation took.
pub proof fn lemma_error_passes_through<T, E>(
    outcomes: Seq<PollOutcome<Result<T, E>>>,
    k: nat,
    e: E,
)
    requires
        resolves_after(outcomes, k, Err(e)),
    ensures
        spin_run(outcomes) == (k, Some(Result::<T, E>::Err(e))),
{
    lemma_spin_polls_exactly(outcomes, k, Err(e));
}

/// Calls spun by one spinner never overlap: in every reachable state at most
/// one operation is in flight, and the spinner is busy exactly when one is.
pub proof fn lemma_one_operation_in_flight(s: Spinner)
    requires
        s.wf(),
    ensures
        s.completed() <= s.started() <= s.completed() + 1,
        s.busy() <==> s.started() == s.completed() + 1,
{
}

} // verus!
