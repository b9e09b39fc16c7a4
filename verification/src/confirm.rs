//! Submitting a signed bundle and waiting for it to land, as a state machine.
//!
//! The caller performs each [`Action`] (sends the bundle, sleeps, asks the
//! cluster for the signature's status) and hands the outcome back as an
//! [`Event`]. Each submission is followed by a wait for the transaction to
//! land and up to `CONFIRM_RETRIES` status queries; a failed transaction ends
//! the run with its error, a confirmed one with its signature, and after
//! `GATEWAY_RETRIES` retries the run gives up.

use vstd::prelude::*;

verus! {

/// Retries of a submission after the first one.
pub const GATEWAY_RETRIES: usize = 20;

/// Status queries after each submission.
pub const CONFIRM_RETRIES: usize = 1;

/// Milliseconds to wait before each status query.
pub const CONFIRM_DELAY: u64 = 200;

/// Milliseconds to wait before the next submission.
pub const GATEWAY_DELAY: u64 = 1000;

/// Milliseconds to wait after a submission was accepted, before confirming.
pub const LANDING_DELAY: u64 = 10_000;

/// What the cluster reported of one signature.
#[derive(Clone, Debug)]
pub struct StatusReport {
    /// The transaction's error, rendered as text, if it failed.
    pub error: Option<String>,
    /// Whether a confirmation level (processed, confirmed or finalized) was reported.
    pub confirmed: bool,
}

/// The reading of one answer of the cluster.
pub enum Verdict {
    Pending,
    Landed,
    Failed(Seq<char>),
}

/// The reading of a status answer: the first reported status decides, in
/// order; an error beats a confirmation of the same status; entries without
/// a report, or with neither, are passed over.
pub open spec fn verdict(reports: Seq<Option<StatusReport>>) -> Verdict
    decreases reports.len(),
{
    if reports.len() == 0 {
        Verdict::Pending
    } else {
        match reports[0] {
            Some(r) => match r.error {
                Some(e) => Verdict::Failed(e@),
                None => if r.confirmed {
                    Verdict::Landed
                } else {
                    verdict(reports.drop_first())
                },
            },
            None => verdict(reports.drop_first()),
        }
    }
}

/// Whether a report settles the answer: it is there and carries an error or
/// a confirmation.
pub open spec fn decisive(report: Option<StatusReport>) -> bool {
    report matches Some(r) && (r.error is Some || r.confirmed)
}

/// The reading of a status answer, entry by entry: it lands exactly when
/// the first settling report is a confirmation without an error; it fails
/// with the error of the first settling report that has one; and it stays
/// pending exactly when no report settles it (so an answer of only missing
/// reports is pending).
pub proof fn lemma_verdict_entries(reports: Seq<Option<StatusReport>>)
    ensures
        verdict(reports) == Verdict::Landed <==> exists|i: int|
            0 <= i < reports.len() && (#[trigger] reports[i] matches Some(r) && r.error is None
                && r.confirmed) && forall|j: int| 0 <= j < i ==> !decisive(#[trigger] reports[j]),
        verdict(reports) == Verdict::Pending <==> forall|i: int|
            0 <= i < reports.len() ==> !decisive(#[trigger] reports[i]),
        forall|m: Seq<char>|
            verdict(reports) == Verdict::Failed(m) <==> exists|i: int|
                0 <= i < reports.len() && (#[trigger] reports[i] matches Some(r) && r.error matches Some(
                    e,
                ) && e@ == m) && forall|j: int| 0 <= j < i ==> !decisive(#[trigger] reports[j]),
    decreases reports.len(),
{
    if reports.len() > 0 {
        let rest = reports.drop_first();
        lemma_verdict_entries(rest);
        assert forall|i: int| 0 < i < reports.len() implies reports[i] == rest[i - 1] by {}
        if decisive(reports[0]) {
        } else {
            assert forall|i: int| 0 <= i < rest.len() implies rest[i] == reports[i + 1] by {}
            if verdict(reports) == Verdict::Landed {
                let k = choose|k: int|
                    0 <= k < rest.len() && (#[trigger] rest[k] matches Some(r) && r.error is None
                        && r.confirmed) && forall|j: int| 0 <= j < k ==> !decisive(#[trigger] rest[j]);
                assert(reports[k + 1] == rest[k]);
                assert forall|j: int| 0 <= j < k + 1 implies !decisive(#[trigger] reports[j]) by {
                    if j > 0 {
                        assert(reports[j] == rest[j - 1]);
                    }
                }
            }
            if exists|i: int|
                0 <= i < reports.len() && (#[trigger] reports[i] matches Some(r) && r.error is None
                    && r.confirmed) && forall|j: int| 0 <= j < i ==> !decisive(#[trigger] reports[j]) {
                let i = choose|i: int|
                    0 <= i < reports.len() && (#[trigger] reports[i] matches Some(r) && r.error is None
                        && r.confirmed) && forall|j: int| 0 <= j < i ==> !decisive(#[trigger] reports[j]);
                assert(i > 0);
                assert(rest[i - 1] == reports[i]);
                assert forall|j: int| 0 <= j < i - 1 implies !decisive(#[trigger] rest[j]) by {
                    assert(rest[j] == reports[j + 1]);
                }
            }
            assert forall|m: Seq<char>|
                verdict(reports) == Verdict::Failed(m) <==> exists|i: int|
                    0 <= i < reports.len() && (#[trigger] reports[i] matches Some(r) && r.error matches Some(
                        e,
                    ) && e@ == m) && forall|j: int| 0 <= j < i ==> !decisive(#[trigger] reports[j]) by {
                if verdict(reports) == Verdict::Failed(m) {
                    let k = choose|k: int|
                        0 <= k < rest.len() && (#[trigger] rest[k] matches Some(r) && r.error matches Some(
                            e,
                        ) && e@ == m) && forall|j: int| 0 <= j < k ==> !decisive(#[trigger] rest[j]);
                    assert(reports[k + 1] == rest[k]);
                    assert forall|j: int| 0 <= j < k + 1 implies !decisive(#[trigger] reports[j]) by {
                        if j > 0 {
                            assert(reports[j] == rest[j - 1]);
                        }
                    }
                }
                if exists|i: int|
                    0 <= i < reports.len() && (#[trigger] reports[i] matches Some(r) && r.error matches Some(
                        e,
                    ) && e@ == m) && forall|j: int| 0 <= j < i ==> !decisive(#[trigger] reports[j]) {
                    let i = choose|i: int|
                        0 <= i < reports.len() && (#[trigger] reports[i] matches Some(r) && r.error matches Some(
                            e,
                        ) && e@ == m) && forall|j: int| 0 <= j < i ==> !decisive(#[trigger] reports[j]);
                    assert(i > 0);
                    assert(rest[i - 1] == reports[i]);
                    assert forall|j: int| 0 <= j < i - 1 implies !decisive(#[trigger] rest[j]) by {
                        assert(rest[j] == reports[j + 1]);
                    }
                }
            }
            assert forall|i: int| 0 <= i < reports.len() && i > 0 implies reports[i] == rest[i - 1] by {}
        }
    }
}

/// The executable reading of a status answer.
pub enum StatusVerdict {
    Pending,
    Landed,
    Failed(String),
}

impl View for StatusVerdict {
    type V = Verdict;

    open spec fn view(&self) -> Verdict {
        match self {
            StatusVerdict::Pending => Verdict::Pending,
            StatusVerdict::Landed => Verdict::Landed,
            StatusVerdict::Failed(e) => Verdict::Failed(e@),
        }
    }
}

/// Reads a status answer of the cluster; see [`verdict`].
pub fn read_statuses(reports: &Vec<Option<StatusReport>>) -> (r: StatusVerdict)
    ensures
        r@ == verdict(reports@),
        r is Landed <==> exists|i: int|
            0 <= i < reports@.len() && (#[trigger] reports@[i] matches Some(rep) && rep.error is None
                && rep.confirmed) && forall|j: int| 0 <= j < i ==> !decisive(#[trigger] reports@[j]),
        r is Pending <==> forall|i: int| 0 <= i < reports@.len() ==> !decisive(#[trigger] reports@[i]),
        r matches StatusVerdict::Failed(m) ==> exists|i: int|
            0 <= i < reports@.len() && (#[trigger] reports@[i] matches Some(rep) && rep.error matches Some(
                e,
            ) && e@ == m@) && forall|j: int| 0 <= j < i ==> !decisive(#[trigger] reports@[j]),
{
    let r = scan_statuses(reports);
    proof {
        lemma_verdict_entries(reports@);
    }
    r
}

fn scan_statuses(reports: &Vec<Option<StatusReport>>) -> (r: StatusVerdict)
    ensures
        r@ == verdict(reports@),
{
    let n = reports.len();
    let mut i: usize = 0;
    assert(reports@.subrange(0, n as int) == reports@);
    while i < n
        invariant
            n == reports@.len(),
            i <= n,
            verdict(reports@) == verdict(reports@.subrange(i as int, n as int)),
        decreases n - i,
    {
        let ghost rest = reports@.subrange(i as int, n as int);
        assert(rest.drop_first() == reports@.subrange(i + 1, n as int));
        assert(rest[0] == reports@[i as int]);
        match &reports[i] {
            Some(report) => {
                match &report.error {
                    Some(e) => {
                        return StatusVerdict::Failed(e.clone());
                    },
                    None => {
                        if report.confirmed {
                            return StatusVerdict::Landed;
                        }
                    },
                }
            },
            None => {},
        }
        i = i + 1;
    }
    StatusVerdict::Pending
}

/// Where a submission stands. `S` is the type of a transaction signature.
pub enum Phase<S> {
    /// The bundle was handed out for submission number `attempt` (from 0).
    AwaitSubmit { attempt: usize },
    /// The bundle was accepted; waiting for it to land.
    Landing { attempt: usize, sig: S },
    /// Waiting before a status query; `left` queries remain, this one included.
    ConfirmDelay { attempt: usize, sig: S, left: usize },
    /// A status query is out; `left` queries remained before it was sent.
    AwaitStatus { attempt: usize, sig: S, left: usize },
    /// Waiting before the next submission.
    Backoff { attempt: usize },
    /// The run has ended.
    Finished,
}

/// What the caller reports back.
pub enum Event<S> {
    /// The outcome of a submission: the signature, or `None` if it failed.
    Submitted(Option<S>),
    /// A requested wait is over.
    Slept,
    /// The outcome of a status query: the reports, or `None` if the query failed.
    Statuses(Option<Vec<Option<StatusReport>>>),
}

/// Why a run ended without a landed transaction.
pub enum SendError {
    /// The cluster reported the transaction as failed, with this error.
    TransactionFailed(String),
    /// Every submission was tried without a confirmation.
    MaxRetries,
}

/// What the caller is asked to do next.
pub enum Action<S> {
    /// Send the bundle; this is submission number `attempt` (from 0).
    Submit { attempt: usize },
    /// Wait this many milliseconds.
    Sleep { millis: u64 },
    /// Ask the cluster for the status of this signature.
    QueryStatus { sig: S },
    /// The run is over, with this outcome.
    Finish(Result<S, SendError>),
}

/// The mathematical value of an [`Action`].
pub enum ActionSpec<S> {
    Submit { attempt: nat },
    Sleep { millis: nat },
    QueryStatus { sig: S },
    Landed(S),
    Failed(Seq<char>),
    GaveUp,
}

impl<S> View for Action<S> {
    type V = ActionSpec<S>;

    open spec fn view(&self) -> ActionSpec<S> {
        match self {
            Action::Submit { attempt } => ActionSpec::Submit { attempt: *attempt as nat },
            Action::Sleep { millis } => ActionSpec::Sleep { millis: *millis as nat },
            Action::QueryStatus { sig } => ActionSpec::QueryStatus { sig: *sig },
            Action::Finish(Ok(sig)) => ActionSpec::Landed(*sig),
            Action::Finish(Err(SendError::TransactionFailed(e))) => ActionSpec::Failed(e@),
            Action::Finish(Err(SendError::MaxRetries)) => ActionSpec::GaveUp,
        }
    }
}

/// The event that a phase waits for.
pub open spec fn accepts<S>(p: Phase<S>, e: Event<S>) -> bool {
    match p {
        Phase::AwaitSubmit { .. } => e is Submitted,
        Phase::Landing { .. } => e is Slept,
        Phase::ConfirmDelay { .. } => e is Slept,
        Phase::AwaitStatus { .. } => e is Statuses,
        Phase::Backoff { .. } => e is Slept,
        Phase::Finished => false,
    }
}

/// The first phase and action of a run.
pub open spec fn start_spec<S>() -> (Phase<S>, ActionSpec<S>) {
    (Phase::AwaitSubmit { attempt: 0 }, ActionSpec::Submit { attempt: 0 })
}

/// After a status query, with `left` queries before it: query again or back off.
pub open spec fn after_query<S>(attempt: usize, sig: S, left: usize) -> (Phase<S>, ActionSpec<S>) {
    if left > 1 {
        (
            Phase::ConfirmDelay { attempt, sig, left: (left - 1) as usize },
            ActionSpec::Sleep { millis: CONFIRM_DELAY as nat },
        )
    } else {
        (Phase::Backoff { attempt }, ActionSpec::Sleep { millis: GATEWAY_DELAY as nat })
    }
}

/// One step of the run: the next phase and what to do, for an event that
/// the phase accepts.
pub open spec fn step_spec<S>(p: Phase<S>, e: Event<S>) -> (Phase<S>, ActionSpec<S>) {
    match p {
        Phase::AwaitSubmit { attempt } => match e {
            Event::Submitted(Some(sig)) => (
                Phase::Landing { attempt, sig },
                ActionSpec::Sleep { millis: LANDING_DELAY as nat },
            ),
            _ => (Phase::Backoff { attempt }, ActionSpec::Sleep { millis: GATEWAY_DELAY as nat }),
        },
        Phase::Landing { attempt, sig } => if CONFIRM_RETRIES > 0 {
            (
                Phase::ConfirmDelay { attempt, sig, left: CONFIRM_RETRIES },
                ActionSpec::Sleep { millis: CONFIRM_DELAY as nat },
            )
        } else {
            (Phase::Backoff { attempt }, ActionSpec::Sleep { millis: GATEWAY_DELAY as nat })
        },
        Phase::ConfirmDelay { attempt, sig, left } => (
            Phase::AwaitStatus { attempt, sig, left },
            ActionSpec::QueryStatus { sig },
        ),
        Phase::AwaitStatus { attempt, sig, left } => match e {
            Event::Statuses(Some(reports)) => match verdict(reports@) {
                Verdict::Failed(msg) => (Phase::Finished, ActionSpec::Failed(msg)),
                Verdict::Landed => (Phase::Finished, ActionSpec::Landed(sig)),
                Verdict::Pending => after_query(attempt, sig, left),
            },
            _ => after_query(attempt, sig, left),
        },
        Phase::Backoff { attempt } => if attempt + 1 > GATEWAY_RETRIES {
            (Phase::Finished, ActionSpec::GaveUp)
        } else {
            (
                Phase::AwaitSubmit { attempt: (attempt + 1) as usize },
                ActionSpec::Submit { attempt: (attempt + 1) as nat },
            )
        },
        Phase::Finished => (Phase::Finished, ActionSpec::GaveUp),
    }
}

/// The phases that a run can reach: attempts never exceed `GATEWAY_RETRIES`
/// and a pending query count lies between 1 and `CONFIRM_RETRIES`.
pub open spec fn reachable<S>(p: Phase<S>) -> bool {
    match p {
        Phase::AwaitSubmit { attempt } => attempt <= GATEWAY_RETRIES,
        Phase::Landing { attempt, .. } => attempt <= GATEWAY_RETRIES,
        Phase::ConfirmDelay { attempt, left, .. } => attempt <= GATEWAY_RETRIES && 1 <= left
            <= CONFIRM_RETRIES,
        Phase::AwaitStatus { attempt, left, .. } => attempt <= GATEWAY_RETRIES && 1 <= left
            <= CONFIRM_RETRIES,
        Phase::Backoff { attempt } => attempt <= GATEWAY_RETRIES,
        Phase::Finished => true,
    }
}

/// Steps within one attempt, counted down to the backoff.
pub open spec fn phase_rank<S>(p: Phase<S>) -> nat {
    match p {
        Phase::AwaitSubmit { .. } => (2 * CONFIRM_RETRIES + 3) as nat,
        Phase::Landing { .. } => (2 * CONFIRM_RETRIES + 2) as nat,
        Phase::ConfirmDelay { left, .. } => (2 * left + 1) as nat,
        Phase::AwaitStatus { left, .. } => (2 * left) as nat,
        Phase::Backoff { .. } => 0,
        Phase::Finished => 0,
    }
}

/// An upper bound on the steps left in a run.
pub open spec fn measure<S>(p: Phase<S>) -> nat {
    match p {
        Phase::Finished => 0,
        Phase::AwaitSubmit { attempt } | Phase::Landing { attempt, .. } | Phase::ConfirmDelay {
            attempt,
            ..
        } | Phase::AwaitStatus { attempt, .. } | Phase::Backoff { attempt } => (((GATEWAY_RETRIES
            - attempt) * (2 * CONFIRM_RETRIES + 5)) + phase_rank(p) + 1) as nat,
    }
}

/// The state of one run of `send_and_confirm`.
pub struct BundleSubmission<S> {
    pub phase: Phase<S>,
}

impl<S: Copy> BundleSubmission<S> {
    /// Starts a run: the first action is submission number 0.
    pub fn start() -> (r: (Self, Action<S>))
        ensures
            (r.0.phase, r.1@) == start_spec::<S>(),
    {
        (BundleSubmission { phase: Phase::AwaitSubmit { attempt: 0 } }, Action::Submit { attempt: 0 })
    }

    /// Whether the run is over.
    pub fn is_finished(&self) -> (r: bool)
        ensures
            r == (self.phase is Finished),
    {
        match self.phase {
            Phase::Finished => true,
            _ => false,
        }
    }

    /// Whether the current phase waits for this event.
    pub fn accepts(&self, event: &Event<S>) -> (r: bool)
        ensures
            r == accepts(self.phase, *event),
    {
        match self.phase {
            Phase::AwaitSubmit { .. } => match event {
                Event::Submitted(_) => true,
                _ => false,
            },
            Phase::Landing { .. } | Phase::ConfirmDelay { .. } | Phase::Backoff { .. } => match event {
                Event::Slept => true,
                _ => false,
            },
            Phase::AwaitStatus { .. } => match event {
                Event::Statuses(_) => true,
                _ => false,
            },
            Phase::Finished => false,
        }
    }

    fn after_query(attempt: usize, sig: S, left: usize) -> (r: (Phase<S>, Action<S>))
        ensures
            (r.0, r.1@) == after_query(attempt, sig, left),
    {
        if left > 1 {
            (Phase::ConfirmDelay { attempt, sig, left: left - 1 }, Action::Sleep { millis: CONFIRM_DELAY })
        } else {
            (Phase::Backoff { attempt }, Action::Sleep { millis: GATEWAY_DELAY })
        }
    }

    /// Takes the outcome of the last action and says what to do next.
    pub fn step(self, event: Event<S>) -> (r: (Self, Action<S>))
        requires
            accepts(self.phase, event),
        ensures
            (r.0.phase, r.1@) == step_spec(self.phase, event),
    {
        let (phase, action) = match self.phase {
            Phase::AwaitSubmit { attempt } => match event {
                Event::Submitted(Some(sig)) => (
                    Phase::Landing { attempt, sig },
                    Action::Sleep { millis: LANDING_DELAY },
                ),
                _ => (Phase::Backoff { attempt }, Action::Sleep { millis: GATEWAY_DELAY }),
            },
            Phase::Landing { attempt, sig } => if CONFIRM_RETRIES > 0 {
                (
                    Phase::ConfirmDelay { attempt, sig, left: CONFIRM_RETRIES },
                    Action::Sleep { millis: CONFIRM_DELAY },
                )
            } else {
                (Phase::Backoff { attempt }, Action::Sleep { millis: GATEWAY_DELAY })
            },
            Phase::ConfirmDelay { attempt, sig, left } => (
                Phase::AwaitStatus { attempt, sig, left },
                Action::QueryStatus { sig },
            ),
            Phase::AwaitStatus { attempt, sig, left } => match event {
                Event::Statuses(Some(reports)) => match read_statuses(&reports) {
                    StatusVerdict::Failed(msg) => (
                        Phase::Finished,
                        Action::Finish(Err(SendError::TransactionFailed(msg))),
                    ),
                    StatusVerdict::Landed => (Phase::Finished, Action::Finish(Ok(sig))),
                    StatusVerdict::Pending => Self::after_query(attempt, sig, left),
                },
                _ => Self::after_query(attempt, sig, left),
            },
            Phase::Backoff { attempt } => if attempt >= GATEWAY_RETRIES {
                (Phase::Finished, Action::Finish(Err(SendError::MaxRetries)))
            } else {
                (Phase::AwaitSubmit { attempt: attempt + 1 }, Action::Submit { attempt: attempt + 1 })
            },
            Phase::Finished => (Phase::Finished, Action::Finish(Err(SendError::MaxRetries))),
        };
        (BundleSubmission { phase }, action)
    }
}

/// Every step of a run from a reachable phase leads to a reachable phase and
/// lowers the [`measure`]: a run ends after at most `measure` steps.
pub proof fn lemma_step_makes_progress<S>(p: Phase<S>, e: Event<S>)
    requires
        reachable(p),
        accepts(p, e),
    ensures
        reachable(step_spec(p, e).0),
        measure(step_spec(p, e).0) < measure(p),
{
}

/// The actions of a run from `p` that is fed `events` in order, up to the
/// first event that its phase does not wait for, and the phase it ends in.
pub open spec fn trace<S>(p: Phase<S>, events: Seq<Event<S>>) -> (Phase<S>, Seq<ActionSpec<S>>)
    decreases events.len(),
{
    if events.len() == 0 || !accepts(p, events[0]) {
        (p, Seq::empty())
    } else {
        let (q, a) = step_spec(p, events[0]);
        let (r, rest) = trace(q, events.drop_first());
        (r, seq![a] + rest)
    }
}

/// The number of submissions among `actions`.
pub open spec fn count_submits<S>(actions: Seq<ActionSpec<S>>) -> nat
    decreases actions.len(),
{
    if actions.len() == 0 {
        0
    } else {
        (if actions[0] is Submit {
            1nat
        } else {
            0nat
        }) + count_submits(actions.drop_first())
    }
}

/// The submissions that a run in phase `p` may still make.
pub open spec fn submits_left<S>(p: Phase<S>) -> nat {
    match p {
        Phase::Finished => 0,
        Phase::AwaitSubmit { attempt } | Phase::Landing { attempt, .. } | Phase::ConfirmDelay {
            attempt,
            ..
        } | Phase::AwaitStatus { attempt, .. } | Phase::Backoff { attempt } => (GATEWAY_RETRIES
            - attempt) as nat,
    }
}

/// Whatever the cluster answers, a run from a reachable phase `p` makes at
/// most `submits_left(p)` more submissions and at most `measure(p)` steps.
pub proof fn lemma_run_bounded<S>(p: Phase<S>, events: Seq<Event<S>>)
    requires
        reachable(p),
    ensures
        count_submits(trace(p, events).1) <= submits_left(p),
        trace(p, events).1.len() <= measure(p),
    decreases events.len(),
{
    if events.len() > 0 && accepts(p, events[0]) {
        let (q, a) = step_spec(p, events[0]);
        lemma_step_makes_progress(p, events[0]);
        lemma_run_bounded(q, events.drop_first());
        let rest = trace(q, events.drop_first()).1;
        let all = seq![a] + rest;
        assert(all[0] == a);
        assert(all.drop_first() == rest);
        assert(a is Submit ==> submits_left(q) + 1 <= submits_left(p));
        assert(submits_left(q) <= submits_left(p));
    }
}

/// A whole run, fed any events, sends the bundle at most
/// `GATEWAY_RETRIES + 1` times: the first submission and the retries.
pub proof fn lemma_run_submits_at_most<S>(events: Seq<Event<S>>)
    ensures
        count_submits(seq![start_spec::<S>().1] + trace(start_spec::<S>().0, events).1)
            <= GATEWAY_RETRIES + 1,
{
    let p = start_spec::<S>().0;
    lemma_run_bounded(p, events);
    let rest = trace(p, events).1;
    let all = seq![start_spec::<S>().1] + rest;
    assert(all[0] == start_spec::<S>().1);
    assert(all.drop_first() == rest);
}

/// A run starts in a reachable phase, with `measure` bounding its length.
pub proof fn lemma_start_reachable<S>()
    ensures
        reachable(start_spec::<S>().0),
        measure(start_spec::<S>().0) == GATEWAY_RETRIES * (2 * CONFIRM_RETRIES + 5) + 2
            * CONFIRM_RETRIES + 4,
{
}

/// Submissions are numbered 0 to `GATEWAY_RETRIES`, each one more than the
/// one before it: a run sends the bundle at most `GATEWAY_RETRIES + 1` times.
pub proof fn lemma_submissions_counted<S>(p: Phase<S>, e: Event<S>)
    requires
        reachable(p),
        accepts(p, e),
    ensures
        step_spec(p, e).1 matches ActionSpec::Submit { attempt } ==> {
            &&& attempt <= GATEWAY_RETRIES
            &&& p matches Phase::Backoff { attempt: prev } && attempt == prev + 1
        },
{
}

/// A run reports a landed transaction only for the signature of the last
/// accepted submission, and only when the cluster's answer confirmed it
/// without an error before it.
pub proof fn lemma_landed_only_when_confirmed<S>(p: Phase<S>, e: Event<S>, sig: S)
    requires
        accepts(p, e),
        step_spec(p, e).1 == ActionSpec::Landed(sig),
    ensures
        p matches Phase::AwaitStatus { sig: queried, .. } && queried == sig,
        e matches Event::Statuses(Some(reports)) && verdict(reports@) == Verdict::Landed,
{
}

/// A status answer in which no report settles anything (for instance, one
/// whose entries are all missing) does not end the run: the next action is a
/// wait, before another query or the next submission.
pub proof fn lemma_unsettled_answer_retries<S>(
    p: Phase<S>,
    reports: Vec<Option<StatusReport>>,
)
    requires
        p is AwaitStatus,
        forall|i: int| 0 <= i < reports@.len() ==> !decisive(#[trigger] reports@[i]),
    ensures
        step_spec(p, Event::Statuses(Some(reports))).1 is Sleep,
        !(step_spec(p, Event::Statuses(Some(reports))).0 is Finished),
{
    lemma_verdict_entries(reports@);
}

/// A run reports a landed transaction only when some report of the
/// cluster's answer confirms it without an error and no earlier report
/// settled the answer otherwise.
pub proof fn lemma_landed_needs_confirming_report<S>(p: Phase<S>, e: Event<S>, sig: S)
    requires
        accepts(p, e),
        step_spec(p, e).1 == ActionSpec::Landed(sig),
    ensures
        e matches Event::Statuses(Some(reports)) && exists|i: int|
            0 <= i < reports@.len() && (#[trigger] reports@[i] matches Some(rep) && rep.error is None
                && rep.confirmed) && forall|j: int| 0 <= j < i ==> !decisive(#[trigger] reports@[j]),
{
    if let Event::Statuses(Some(reports)) = e {
        lemma_verdict_entries(reports@);
    }
}

/// A run gives up only after the backoff of the last allowed submission.
pub proof fn lemma_gives_up_after_last_attempt<S>(p: Phase<S>, e: Event<S>)
    requires
        reachable(p),
        accepts(p, e),
        step_spec(p, e).1 == (ActionSpec::<S>::GaveUp),
    ensures
        p == (Phase::<S>::Backoff { attempt: GATEWAY_RETRIES }),
{
}

/// A transaction that the cluster reports as failed ends the run with that
/// error; it is not submitted again.
pub proof fn lemma_failure_is_final<S>(p: Phase<S>, reports: Vec<Option<StatusReport>>, msg: Seq<char>)
    requires
        p is AwaitStatus,
        verdict(reports@) == Verdict::Failed(msg),
    ensures
        step_spec(p, Event::Statuses(Some(reports))) == (Phase::<S>::Finished, ActionSpec::<S>::Failed(msg)),
{
}

} // verus!
