use crate::config::{Config, PoolInfo, PoolInfoView};
use crate::error::{BackoffPolicy, ErrorKind};
use crate::feedback::{classify, feedback_of, Feedback, FeedbackView};
use crate::job::{job_of, parse_job_line, Job, JobView};
use crate::protocol::{
    address_text, job_request, job_request_text, pool_address, submission, submission_text,
};
use crate::rate::{format_hashrate, HashRate};
use crate::solver::Solution;
use crate::text::{trim, trimmed};
use vstd::prelude::*;

verus! {

/// Where a worker stands in its cycle. Each phase waits for the outcome of
/// one command.
#[derive(Debug, Clone, Copy, PartialEq, Eq, Structural)]
pub enum Phase {
    /// Without a connection; the pool's address has been asked for.
    Disconnected,
    /// Without a connection, waiting out the delay that follows a failure.
    Backoff,
    /// The address is known and a connection is being opened.
    Connecting,
    /// Connected; the pool's banner is being read.
    Handshaking,
    /// The request for a job is being written.
    RequestingJob,
    /// The job line is being read.
    AwaitingJob,
    /// The job is being solved.
    Solving,
    /// The solution is being written.
    Submitting(Solution),
    /// The pool's feedback on the solution is being read.
    AwaitingFeedback(Solution),
}

/// What happened to the command that the worker gave last.
#[derive(Debug, Clone, PartialEq, Eq)]
pub enum Event {
    /// The pool's address was found.
    Located(PoolInfo),
    /// The connection is open.
    Connected,
    /// A line was read, given as it came.
    Line(String),
    /// The line was written.
    Written,
    /// The solver is done.
    Solved(Option<Solution>),
    /// The delay has passed.
    Woke,
    /// The command failed; the text says how.
    Failed(String),
}

/// An event as plain values.
pub enum EventView {
    Located(PoolInfoView),
    Connected,
    Line(Seq<char>),
    Written,
    Solved(Option<Solution>),
    Woke,
    Failed(Seq<char>),
}

impl View for Event {
    type V = EventView;

    open spec fn view(&self) -> EventView {
        match self {
            Event::Located(pool) => EventView::Located(pool@),
            Event::Connected => EventView::Connected,
            Event::Line(line) => EventView::Line(line@),
            Event::Written => EventView::Written,
            Event::Solved(result) => EventView::Solved(*result),
            Event::Woke => EventView::Woke,
            Event::Failed(detail) => EventView::Failed(detail@),
        }
    }
}

/// What the worker wants done next.
#[derive(Debug, Clone, PartialEq, Eq)]
pub enum Command {
    /// Ask for the pool's address.
    Locate,
    /// Open a connection to the address.
    Connect(String),
    /// Read one line from the connection.
    ReadLine,
    /// Write the line to the connection.
    WriteLine(String),
    /// Solve the job.
    Solve(Job),
    /// Wait for so many seconds.
    Sleep(u64),
}

/// A command as plain values.
pub enum CommandView {
    Locate,
    Connect(Seq<char>),
    ReadLine,
    WriteLine(Seq<char>),
    Solve(JobView),
    Sleep(u64),
}

impl View for Command {
    type V = CommandView;

    open spec fn view(&self) -> CommandView {
        match self {
            Command::Locate => CommandView::Locate,
            Command::Connect(address) => CommandView::Connect(address@),
            Command::ReadLine => CommandView::ReadLine,
            Command::WriteLine(line) => CommandView::WriteLine(line@),
            Command::Solve(job) => CommandView::Solve(job@),
            Command::Sleep(secs) => CommandView::Sleep(*secs),
        }
    }
}

/// What the worker has to tell its operator.
#[derive(Debug, Clone, PartialEq, Eq)]
pub enum Notice {
    /// A connection to the address is about to be opened.
    Connecting(String),
    /// The pool's banner, trimmed.
    Banner(String),
    /// A failure of the given kind, with what is known of it.
    Failure { kind: ErrorKind, detail: String },
    /// A share was accepted: the rate it was found at, and how many were
    /// accepted so far.
    ShareAccepted { rate: String, accepted: u64 },
    /// A share was rejected: the reason, and how many were rejected so far.
    ShareRejected { reason: String, rejected: u64 },
    /// The pool reported a new block.
    NewBlock,
    /// A line of feedback of no known kind.
    Other(String),
    /// The counters, and the microseconds since the summary before.
    Summary { accepted: u64, rejected: u64, uptime_us: u64 },
}

/// A notice as plain values.
pub enum NoticeView {
    Connecting(Seq<char>),
    Banner(Seq<char>),
    Failure { kind: ErrorKind, detail: Seq<char> },
    ShareAccepted { rate: Seq<char>, accepted: u64 },
    ShareRejected { reason: Seq<char>, rejected: u64 },
    NewBlock,
    Other(Seq<char>),
    Summary { accepted: u64, rejected: u64, uptime_us: u64 },
}

impl View for Notice {
    type V = NoticeView;

    open spec fn view(&self) -> NoticeView {
        match self {
            Notice::Connecting(address) => NoticeView::Connecting(address@),
            Notice::Banner(banner) => NoticeView::Banner(banner@),
            Notice::Failure { kind, detail } => NoticeView::Failure {
                kind: *kind,
                detail: detail@,
            },
            Notice::ShareAccepted { rate, accepted } => NoticeView::ShareAccepted {
                rate: rate@,
                accepted: *accepted,
            },
            Notice::ShareRejected { reason, rejected } => NoticeView::ShareRejected {
                reason: reason@,
                rejected: *rejected,
            },
            Notice::NewBlock => NoticeView::NewBlock,
            Notice::Other(raw) => NoticeView::Other(raw@),
            Notice::Summary { accepted, rejected, uptime_us } => NoticeView::Summary {
                accepted: *accepted,
                rejected: *rejected,
                uptime_us: *uptime_us,
            },
        }
    }
}

/// The worker's answer to an event: what to tell, and what to do next.
#[derive(Debug, Clone, PartialEq, Eq)]
pub struct Reaction {
    pub notices: Vec<Notice>,
    pub command: Command,
}

/// A reaction as plain values.
pub struct ReactionView {
    pub notices: Seq<NoticeView>,
    pub command: CommandView,
}

impl View for Reaction {
    type V = ReactionView;

    open spec fn view(&self) -> ReactionView {
        ReactionView {
            notices: Seq::new(self.notices@.len(), |i: int| self.notices@[i]@),
            command: self.command@,
        }
    }
}

/// The shares of one worker that the pool has answered.
#[derive(Debug, Clone, Copy, PartialEq, Eq, Structural)]
pub struct ShareCounters {
    pub accepted: u64,
    pub rejected: u64,
}

impl ShareCounters {
    /// All shares counted, accepted or rejected.
    pub open spec fn total(self) -> nat {
        (self.accepted + self.rejected) as nat
    }

    /// The counters after one more piece of feedback.
    pub open spec fn after(self, feedback: FeedbackView) -> ShareCounters {
        match feedback {
            FeedbackView::Accepted => ShareCounters {
                accepted: (self.accepted + 1) as u64,
                rejected: self.rejected,
            },
            FeedbackView::Rejected(_) => ShareCounters {
                accepted: self.accepted,
                rejected: (self.rejected + 1) as u64,
            },
            _ => self,
        }
    }

    /// Whether a summary is due: the total is a positive multiple of ten.
    pub open spec fn summary_due(self) -> bool {
        self.total() > 0 && self.total() % 10 == 0
    }
}

/// One worker: its configuration, where it stands in its cycle, and what it
/// has counted.
#[derive(Debug, Clone, PartialEq, Eq)]
pub struct Worker {
    pub config: Config,
    /// The worker's number among those of its process.
    pub index: u32,
    /// The identifier that all workers of one process share.
    pub run_id: u32,
    pub policy: BackoffPolicy,
    pub phase: Phase,
    pub shares: ShareCounters,
    /// When the last summary was made, or the worker, in microseconds.
    pub epoch_start_us: u64,
}

/// Whether a worker in `phase` waits for an event such as `event`.
pub open spec fn expects(phase: Phase, event: EventView) -> bool {
    match phase {
        Phase::Disconnected => event is Located || event is Failed,
        Phase::Backoff => event is Woke,
        Phase::Connecting => event is Connected || event is Failed,
        Phase::Handshaking => event is Line || event is Failed,
        Phase::RequestingJob => event is Written || event is Failed,
        Phase::AwaitingJob => event is Line || event is Failed,
        Phase::Solving => event is Solved,
        Phase::Submitting(_) => event is Written || event is Failed,
        Phase::AwaitingFeedback(_) => event is Line || event is Failed,
    }
}

/// The kind of failure that a failed command means in `phase`.
pub open spec fn failure_kind(phase: Phase) -> ErrorKind {
    match phase {
        Phase::Disconnected => ErrorKind::Discovery,
        Phase::Connecting => ErrorKind::Connect,
        _ => ErrorKind::SessionIo,
    }
}

/// The microseconds from `since` to `now`, none where `now` is earlier.
pub open spec fn elapsed_between(since: u64, now: u64) -> u64 {
    if now >= since {
        (now - since) as u64
    } else {
        0
    }
}

/// What is told of one piece of feedback: the feedback itself with the
/// counter it moved and, where the total of shares then is a positive
/// multiple of ten, a summary.
pub open spec fn feedback_notices(
    before: ShareCounters,
    solution: Solution,
    feedback: FeedbackView,
    uptime_us: u64,
) -> Seq<NoticeView> {
    let shares = before.after(feedback);
    let first = match feedback {
        FeedbackView::Accepted => NoticeView::ShareAccepted {
            rate: (HashRate { hashes: solution.nonce, micros: solution.elapsed_us }).scaled_text(),
            accepted: shares.accepted,
        },
        FeedbackView::Rejected(reason) => NoticeView::ShareRejected {
            reason,
            rejected: shares.rejected,
        },
        FeedbackView::NewBlock => NoticeView::NewBlock,
        FeedbackView::Other(raw) => NoticeView::Other(raw),
    };
    if shares.summary_due() {
        seq![
            first,
            NoticeView::Summary {
                accepted: shares.accepted,
                rejected: shares.rejected,
                uptime_us,
            },
        ]
    } else {
        seq![first]
    }
}

impl Worker {
    /// The phase that follows when `event` arrives. A failure leads to the
    /// delay before the next attempt, but for a banner that cannot be read:
    /// the session goes on without it.
    pub open spec fn phase_after(self, event: EventView) -> Phase
        recommends
            expects(self.phase, event),
    {
        match (self.phase, event) {
            (Phase::Disconnected, EventView::Located(_)) => Phase::Connecting,
            (Phase::Backoff, EventView::Woke) => Phase::Disconnected,
            (Phase::Connecting, EventView::Connected) => Phase::Handshaking,
            (Phase::Handshaking, _) => Phase::RequestingJob,
            (Phase::RequestingJob, EventView::Written) => Phase::AwaitingJob,
            (Phase::AwaitingJob, EventView::Line(line)) => if job_of(trimmed(line)) is Some {
                Phase::Solving
            } else {
                Phase::RequestingJob
            },
            (Phase::Solving, EventView::Solved(Some(solution))) => Phase::Submitting(solution),
            (Phase::Solving, EventView::Solved(None)) => Phase::RequestingJob,
            (Phase::Submitting(solution), EventView::Written) => Phase::AwaitingFeedback(
                solution,
            ),
            (Phase::AwaitingFeedback(_), EventView::Line(_)) => Phase::RequestingJob,
            _ => Phase::Backoff,
        }
    }

    /// The counters after `event`: only feedback moves them.
    pub open spec fn shares_after(self, event: EventView) -> ShareCounters {
        match (self.phase, event) {
            (Phase::AwaitingFeedback(_), EventView::Line(line)) => self.shares.after(
                feedback_of(trimmed(line)),
            ),
            _ => self.shares,
        }
    }

    /// The start of the epoch after `event` at the time `now_us`: a summary
    /// starts a new one.
    pub open spec fn epoch_after(self, event: EventView, now_us: u64) -> u64 {
        if self.phase is AwaitingFeedback && event is Line && self.shares_after(
            event,
        ).summary_due() {
            now_us
        } else {
            self.epoch_start_us
        }
    }

    /// The worker after an event that it waits for, at the time `now_us`.
    pub open spec fn after(self, event: EventView, now_us: u64) -> Worker
        recommends
            expects(self.phase, event),
    {
        Worker {
            phase: self.phase_after(event),
            shares: self.shares_after(event),
            epoch_start_us: self.epoch_after(event, now_us),
            ..self
        }
    }

    /// What is told when `event` arrives at the time `now_us`.
    pub open spec fn notices_on(self, event: EventView, now_us: u64) -> Seq<NoticeView>
        recommends
            expects(self.phase, event),
    {
        match (self.phase, event) {
            (Phase::Disconnected, EventView::Located(pool)) => seq![
                NoticeView::Connecting(address_text(pool)),
            ],
            (Phase::Handshaking, EventView::Line(line)) => seq![NoticeView::Banner(trimmed(line))],
            (Phase::Handshaking, EventView::Failed(_)) => seq![],
            (Phase::AwaitingFeedback(solution), EventView::Line(line)) => feedback_notices(
                self.shares,
                solution,
                feedback_of(trimmed(line)),
                elapsed_between(self.epoch_start_us, now_us),
            ),
            (_, EventView::Failed(detail)) => seq![
                NoticeView::Failure { kind: failure_kind(self.phase), detail },
            ],
            _ => seq![],
        }
    }

    /// What is to be done next when `event` arrives.
    pub open spec fn command_on(self, event: EventView) -> CommandView
        recommends
            expects(self.phase, event),
    {
        match (self.phase, event) {
            (Phase::Disconnected, EventView::Located(pool)) => CommandView::Connect(
                address_text(pool),
            ),
            (Phase::Backoff, EventView::Woke) => CommandView::Locate,
            (Phase::Connecting, EventView::Connected) => CommandView::ReadLine,
            (Phase::RequestingJob, EventView::Written) => CommandView::ReadLine,
            (Phase::AwaitingJob, EventView::Line(line)) => match job_of(trimmed(line)) {
                Some(job) => CommandView::Solve(job),
                None => CommandView::WriteLine(job_request_text(self.config@)),
            },
            (Phase::Solving, EventView::Solved(Some(solution))) => CommandView::WriteLine(
                submission_text(solution, self.config@.rig_identifier, self.run_id),
            ),
            (Phase::Submitting(_), EventView::Written) => CommandView::ReadLine,
            (Phase::Handshaking, _) => CommandView::WriteLine(job_request_text(self.config@)),
            (Phase::Solving, _) => CommandView::WriteLine(job_request_text(self.config@)),
            (Phase::AwaitingFeedback(_), EventView::Line(_)) => CommandView::WriteLine(
                job_request_text(self.config@),
            ),
            _ => CommandView::Sleep(self.policy.delay(failure_kind(self.phase))),
        }
    }

    /// The worker's answer to an event that it waits for, at the time
    /// `now_us`.
    pub open spec fn reaction(self, event: EventView, now_us: u64) -> ReactionView
        recommends
            expects(self.phase, event),
    {
        ReactionView { notices: self.notices_on(event, now_us), command: self.command_on(event) }
    }

    /// Whether one more share can be counted.
    pub open spec fn can_count(self) -> bool {
        self.shares.total() < u64::MAX
    }
}

impl Worker {
    /// A worker that has not begun: without a connection, nothing counted,
    /// its epoch starting at `now_us`. Its first command is to locate the
    /// pool.
    pub fn new(config: Config, index: u32, run_id: u32, now_us: u64) -> (worker: Worker)
        ensures
            worker == (Worker {
                config,
                index,
                run_id,
                policy: BackoffPolicy { discovery_secs: 5, connect_secs: 3, session_secs: 2 },
                phase: Phase::Disconnected,
                shares: ShareCounters { accepted: 0, rejected: 0 },
                epoch_start_us: now_us,
            }),
    {
        Worker {
            config,
            index,
            run_id,
            policy: BackoffPolicy::fixed(),
            phase: Phase::Disconnected,
            shares: ShareCounters { accepted: 0, rejected: 0 },
            epoch_start_us: now_us,
        }
    }

    /// Whether one more share can be counted, as `step` needs it.
    pub fn has_room(&self) -> (b: bool)
        ensures
            b == self.can_count(),
    {
        self.shares.accepted < u64::MAX - self.shares.rejected
    }

    /// The command that a new worker begins with.
    pub fn first_command() -> (command: Command)
        ensures
            command@ == CommandView::Locate,
    {
        Command::Locate
    }

    fn request(&self) -> (command: Command)
        ensures
            command@ == CommandView::WriteLine(job_request_text(self.config@)),
    {
        Command::WriteLine(job_request(&self.config))
    }

    fn quiet(command: Command) -> (reaction: Reaction)
        ensures
            reaction@ == (ReactionView { notices: Seq::<NoticeView>::empty(), command: command@ }),
    {
        let reaction = Reaction { notices: Vec::new(), command };
        assert(reaction@.notices =~= Seq::<NoticeView>::empty());
        reaction
    }

    fn telling(notice: Notice, command: Command) -> (reaction: Reaction)
        ensures
            reaction@ == (ReactionView { notices: seq![notice@], command: command@ }),
    {
        let mut notices: Vec<Notice> = Vec::new();
        notices.push(notice);
        let reaction = Reaction { notices, command };
        assert(reaction@.notices =~= seq![notice@]);
        reaction
    }

    fn on_failure(&mut self, detail: String, now_us: u64) -> (reaction: Reaction)
        requires
            expects(old(self).phase, EventView::Failed(detail@)),
        ensures
            reaction@ == old(self).reaction(EventView::Failed(detail@), now_us),
            *final(self) == old(self).after(EventView::Failed(detail@), now_us),
    {
        match self.phase {
            Phase::Handshaking => {
                self.phase = Phase::RequestingJob;
                Self::quiet(self.request())
            },
            Phase::Disconnected => {
                self.phase = Phase::Backoff;
                let secs = self.policy.delay_for(ErrorKind::Discovery);
                Self::telling(
                    Notice::Failure { kind: ErrorKind::Discovery, detail },
                    Command::Sleep(secs),
                )
            },
            Phase::Connecting => {
                self.phase = Phase::Backoff;
                let secs = self.policy.delay_for(ErrorKind::Connect);
                Self::telling(
                    Notice::Failure { kind: ErrorKind::Connect, detail },
                    Command::Sleep(secs),
                )
            },
            _ => {
                self.phase = Phase::Backoff;
                let secs = self.policy.delay_for(ErrorKind::SessionIo);
                Self::telling(
                    Notice::Failure { kind: ErrorKind::SessionIo, detail },
                    Command::Sleep(secs),
                )
            },
        }
    }

    fn on_job_line(&mut self, line: &str, now_us: u64) -> (reaction: Reaction)
        requires
            old(self).phase == Phase::AwaitingJob,
        ensures
            reaction@ == old(self).reaction(EventView::Line(line@), now_us),
            *final(self) == old(self).after(EventView::Line(line@), now_us),
    {
        match parse_job_line(trim(line)) {
            Ok(job) => {
                self.phase = Phase::Solving;
                Self::quiet(Command::Solve(job))
            },
            Err(_) => {
                self.phase = Phase::RequestingJob;
                Self::quiet(self.request())
            },
        }
    }

    fn on_solved(&mut self, result: Option<Solution>, now_us: u64) -> (reaction: Reaction)
        requires
            old(self).phase == Phase::Solving,
        ensures
            reaction@ == old(self).reaction(EventView::Solved(result), now_us),
            *final(self) == old(self).after(EventView::Solved(result), now_us),
    {
        match result {
            Some(solution) => {
                self.phase = Phase::Submitting(solution);
                Self::quiet(
                    Command::WriteLine(
                        submission(&solution, self.config.rig_identifier.as_str(), self.run_id),
                    ),
                )
            },
            None => {
                self.phase = Phase::RequestingJob;
                Self::quiet(self.request())
            },
        }
    }

    fn on_feedback(&mut self, solution: Solution, line: &str, now_us: u64) -> (reaction: Reaction)
        requires
            old(self).can_count(),
            old(self).phase == Phase::AwaitingFeedback(solution),
        ensures
            reaction@ == old(self).reaction(EventView::Line(line@), now_us),
            *final(self) == old(self).after(EventView::Line(line@), now_us),
    {
        let feedback = classify(trim(line));
        let ghost seen = feedback@;
        let mut notices: Vec<Notice> = Vec::new();
        match feedback {
            Feedback::Accepted => {
                self.shares.accepted = self.shares.accepted + 1;
                notices.push(
                    Notice::ShareAccepted {
                        rate: format_hashrate(HashRate::of_solution(&solution)),
                        accepted: self.shares.accepted,
                    },
                );
            },
            Feedback::Rejected(reason) => {
                self.shares.rejected = self.shares.rejected + 1;
                notices.push(Notice::ShareRejected { reason, rejected: self.shares.rejected });
            },
            Feedback::NewBlock => {
                notices.push(Notice::NewBlock);
            },
            Feedback::Other(raw) => {
                notices.push(Notice::Other(raw));
            },
        }
        assert(self.shares == old(self).shares.after(seen));
        let total: u64 = self.shares.accepted + self.shares.rejected;
        if total > 0 && total % 10 == 0 {
            let uptime_us: u64 = if now_us >= self.epoch_start_us {
                now_us - self.epoch_start_us
            } else {
                0
            };
            notices.push(
                Notice::Summary {
                    accepted: self.shares.accepted,
                    rejected: self.shares.rejected,
                    uptime_us,
                },
            );
            self.epoch_start_us = now_us;
        }
        self.phase = Phase::RequestingJob;
        let reaction = Reaction { notices, command: self.request() };
        assert(reaction@.notices =~= old(self).notices_on(EventView::Line(line@), now_us));
        reaction
    }

    /// Takes the outcome of the last command and answers with what to tell
    /// and what to do next. An event that the worker's phase does not wait
    /// for is refused, and the worker stays as it was. The counters must
    /// have room for one more share.
    pub fn step(&mut self, event: Event, now_us: u64) -> (answer: Option<Reaction>)
        requires
            old(self).can_count(),
        ensures
            expects(old(self).phase, event@) ==> answer is Some && answer->0@ == old(
                self,
            ).reaction(event@, now_us) && *final(self) == old(self).after(event@, now_us),
            !expects(old(self).phase, event@) ==> answer is None && *final(self) == *old(self),
    {
        let phase = self.phase;
        match event {
            Event::Failed(detail) => match phase {
                Phase::Backoff => None,
                Phase::Solving => None,
                _ => Some(self.on_failure(detail, now_us)),
            },
            Event::Located(pool) => match phase {
                Phase::Disconnected => {
                    self.phase = Phase::Connecting;
                    let address = pool_address(&pool);
                    Some(
                        Self::telling(
                            Notice::Connecting(address.clone()),
                            Command::Connect(address),
                        ),
                    )
                },
                _ => None,
            },
            Event::Connected => match phase {
                Phase::Connecting => {
                    self.phase = Phase::Handshaking;
                    Some(Self::quiet(Command::ReadLine))
                },
                _ => None,
            },
            Event::Line(line) => match phase {
                Phase::Handshaking => {
                    self.phase = Phase::RequestingJob;
                    let banner = trim(line.as_str()).to_owned();
                    Some(Self::telling(Notice::Banner(banner), self.request()))
                },
                Phase::AwaitingJob => Some(self.on_job_line(line.as_str(), now_us)),
                Phase::AwaitingFeedback(solution) => Some(
                    self.on_feedback(solution, line.as_str(), now_us),
                ),
                _ => None,
            },
            Event::Written => match phase {
                Phase::RequestingJob => {
                    self.phase = Phase::AwaitingJob;
                    Some(Self::quiet(Command::ReadLine))
                },
                Phase::Submitting(solution) => {
                    self.phase = Phase::AwaitingFeedback(solution);
                    Some(Self::quiet(Command::ReadLine))
                },
                _ => None,
            },
            Event::Solved(result) => match phase {
                Phase::Solving => Some(self.on_solved(result, now_us)),
                _ => None,
            },
            Event::Woke => match phase {
                Phase::Backoff => {
                    self.phase = Phase::Disconnected;
                    Some(Self::quiet(Command::Locate))
                },
                _ => None,
            },
        }
    }
}

/// How many of `notices` are summaries.
pub open spec fn summaries_in(notices: Seq<NoticeView>) -> nat
    decreases notices.len(),
{
    if notices.len() == 0 {
        0
    } else {
        summaries_in(notices.drop_last()) + if notices.last() is Summary {
            1nat
        } else {
            0nat
        }
    }
}

/// No event takes a share away or counts more than one, and only feedback
/// counts at all; what a worker was made with never changes.
pub proof fn lemma_counters_only_grow(worker: Worker, event: EventView, now_us: u64)
    requires
        worker.can_count(),
    ensures
        worker.after(event, now_us).shares.accepted >= worker.shares.accepted,
        worker.after(event, now_us).shares.rejected >= worker.shares.rejected,
        worker.after(event, now_us).shares.total() <= worker.shares.total() + 1,
        !(worker.phase is AwaitingFeedback && event is Line) ==> worker.after(
            event,
            now_us,
        ).shares == worker.shares,
        worker.after(event, now_us).config == worker.config,
        worker.after(event, now_us).run_id == worker.run_id,
        worker.after(event, now_us).index == worker.index,
        worker.after(event, now_us).policy == worker.policy,
{
}

/// Feedback is answered by exactly one summary when the total of shares
/// after it is a positive multiple of ten, and by none otherwise. The
/// summary comes last and gives both counters and the time since the epoch
/// began; the epoch then begins anew, and the counters stay.
pub proof fn lemma_summary_every_tenth_share(
    worker: Worker,
    solution: Solution,
    line: Seq<char>,
    now_us: u64,
)
    requires
        worker.can_count(),
        worker.phase == Phase::AwaitingFeedback(solution),
    ensures
        ({
            let event = EventView::Line(line);
            let next = worker.after(event, now_us);
            let notices = worker.notices_on(event, now_us);
            &&& next.shares == worker.shares.after(feedback_of(trimmed(line)))
            &&& next.shares.summary_due() ==> summaries_in(notices) == 1 && notices.last() == (
            NoticeView::Summary {
                accepted: next.shares.accepted,
                rejected: next.shares.rejected,
                uptime_us: elapsed_between(worker.epoch_start_us, now_us),
            }) && next.epoch_start_us == now_us
            &&& !next.shares.summary_due() ==> summaries_in(notices) == 0 && next.epoch_start_us
                == worker.epoch_start_us
        }),
{
    let event = EventView::Line(line);
    let notices = worker.notices_on(event, now_us);
    reveal_with_fuel(summaries_in, 3);
    if worker.after(event, now_us).shares.summary_due() {
        assert(notices.drop_last() =~= seq![notices[0]]);
        assert(notices.drop_last().drop_last() =~= Seq::<NoticeView>::empty());
    } else {
        assert(notices.drop_last() =~= Seq::<NoticeView>::empty());
    }
}

/// A failed command, but for the reading of the banner, ends the session:
/// the worker tells of it, waits as long as its policy says for that kind of
/// failure, and then begins again by locating the pool.
pub proof fn lemma_failure_starts_over(worker: Worker, detail: Seq<char>, now_us: u64)
    requires
        expects(worker.phase, EventView::Failed(detail)),
        worker.phase != Phase::Handshaking,
    ensures
        ({
            let failed = EventView::Failed(detail);
            let waiting = worker.after(failed, now_us);
            &&& waiting.phase == Phase::Backoff
            &&& worker.reaction(failed, now_us) == (ReactionView {
                notices: seq![NoticeView::Failure { kind: failure_kind(worker.phase), detail }],
                command: CommandView::Sleep(worker.policy.delay(failure_kind(worker.phase))),
            })
            &&& expects(waiting.phase, EventView::Woke)
            &&& waiting.after(EventView::Woke, now_us).phase == Phase::Disconnected
            &&& waiting.command_on(EventView::Woke) == CommandView::Locate
        }),
{
}

/// A job line that has not exactly three fields is passed over: nothing is
/// told, and the next job is asked for at once, on the same connection.
pub proof fn lemma_malformed_job_is_skipped(worker: Worker, line: Seq<char>, now_us: u64)
    requires
        worker.phase == Phase::AwaitingJob,
        job_of(trimmed(line)) is None,
    ensures
        worker.after(EventView::Line(line), now_us).phase == Phase::RequestingJob,
        worker.reaction(EventView::Line(line), now_us) == (ReactionView {
            notices: Seq::<NoticeView>::empty(),
            command: CommandView::WriteLine(job_request_text(worker.config@)),
        }),
{
}

} // verus!
