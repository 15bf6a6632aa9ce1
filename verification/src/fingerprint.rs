//! The fingerprint method: from one answer of the fingerprint service to the
//! next thing to ask of it.
//!
//! The caller performs the action that a [`Reply`] names, waits for what comes
//! of it, and hands this back as the next [`Event`], together with the session
//! that it shares with the password method.

use vstd::prelude::*;
use vstd::string::*;

use crate::session::{Colour, Report, Session};
#[allow(unused_imports)]
use crate::session::{
    fingerprint_left, is_over, lines_to_clear, notice_text, notified, prompt_of, recorded, warning_of,
};
use crate::text::{contains_text, same_text};
#[allow(unused_imports)]
use crate::{
    fingerprint_laws::{
        listed_fingers_lead_to_a_claim, listening_goes_on_while_a_scan_counts,
        match_lets_the_user_in, service_is_asked_for_the_step,
    },
    reader_laws::only_a_match_succeeds,
    session_laws::scan_counts,
    text::occurs,
};

verus! {

/// How long to wait before a busy reader is claimed again, in milliseconds.
pub const RETRY_MILLIS: u64 = 100;

/// How long to wait for a signal before looking at the session again, in
/// milliseconds.
pub const SIGNAL_MILLIS: u64 = 100;

/// How long to wait for each step of tidying up, in milliseconds.
pub const TIDY_MILLIS: u64 = 10;

/// Every how many retries a busy reader is logged.
pub const RETRIES_PER_LOG: u64 = 10;

/// The name that stands for whichever finger is enrolled.
pub const ANY_FINGER: &'static str = "any";

/// What the method is waiting for.
#[derive(Debug, Clone, Copy, PartialEq, Eq, Structural)]
pub enum Step {
    /// The signal to begin.
    Idle,
    /// A connection to the system bus.
    Connecting,
    /// A proxy for the manager of readers.
    FindingManager,
    /// The path of the default reader.
    FindingDevice,
    /// A proxy for the reader.
    OpeningDevice,
    /// The fingers that are enrolled for the user.
    ListingFingers,
    /// The first claim of the reader.
    Claiming,
    /// The end of a pause before the next claim.
    Pausing,
    /// A further claim of the reader.
    Reclaiming,
    /// The start of the first scan.
    Starting,
    /// The subscription to the reader's signals.
    Subscribing,
    /// A signal of the reader.
    Waiting,
    /// The end of a scan, before another one.
    Rearming,
    /// The start of a further scan.
    Restarting,
    /// The end of the last scan.
    Stopping,
    /// The release of the reader.
    Releasing,
    /// Nothing more.
    Done,
}

/// What came of an action.
#[derive(Debug)]
pub enum Event {
    /// The method is to begin.
    Begin,
    /// The service did what it was asked to do.
    Completed,
    /// The fingers that are enrolled for the user.
    Fingers { enrolled: Vec<String> },
    /// An error, in words.
    Failed { text: String },
    /// The time is up.
    Elapsed,
    /// The reader reports on a scan; `done` tells that the scan has ended.
    Signal { result: String, done: bool },
    /// There will be no further signal.
    Closed,
}

/// What to do next.
#[derive(Debug, PartialEq, Eq)]
pub enum Action {
    /// Hand in [`Event::Begin`].
    Begin,
    Connect,
    FindManager,
    FindDevice,
    OpenDevice,
    /// List the fingers that are enrolled for this user.
    ListFingers { username: String },
    /// Claim the reader for this user.
    Claim { username: String },
    Pause { millis: u64 },
    /// Start a scan for this finger.
    StartVerify { finger: &'static str },
    Subscribe,
    AwaitSignal { millis: u64 },
    /// Ends a scan and waits for the answer.
    FinishScan,
    /// Ends a scan, waiting for the answer no longer than this.
    StopVerify { millis: u64 },
    /// Gives the reader back, waiting for the answer no longer than this.
    Release { millis: u64 },
    Finish,
}

/// How the method ended.
#[derive(Debug)]
pub enum Outcome {
    Unmatched,
    Matched,
    Failed { text: String },
}

/// What is worth an entry in the log.
#[derive(Debug)]
pub enum Log {
    Nothing,
    /// The method begins.
    Starting,
    NoFingers,
    Busy,
    Claimed { attempt: u64 },
    StillBusy { attempt: u64 },
    Failed { text: String },
}

/// What the method wants done.
#[derive(Debug)]
pub struct Reply {
    pub action: Action,
    /// To be written to the terminal first.
    pub notice: Option<String>,
    /// The password prompt is to be interrupted.
    pub interrupt: bool,
    pub log: Log,
}

/// The state of the method.
#[derive(Debug)]
pub struct FingerprintAuth {
    /// The user whose finger is to match.
    pub username: String,
    pub step: Step,
    /// How often a busy reader was claimed again.
    pub attempt: u64,
    /// How the method ends, once it does.
    pub outcome: Outcome,
}

/// An [`Event`] with its texts as sequences of characters.
pub ghost enum EventView {
    Begin,
    Completed,
    Fingers { count: nat },
    Failed { text: Seq<char> },
    Elapsed,
    Signal { result: Seq<char>, done: bool },
    Closed,
}

/// An [`Action`] with its texts as sequences of characters.
pub ghost enum ActionView {
    Begin,
    Connect,
    FindManager,
    FindDevice,
    OpenDevice,
    ListFingers { username: Seq<char> },
    Claim { username: Seq<char> },
    Pause { millis: u64 },
    StartVerify { finger: Seq<char> },
    Subscribe,
    AwaitSignal { millis: u64 },
    FinishScan,
    StopVerify { millis: u64 },
    Release { millis: u64 },
    Finish,
}

/// An [`Outcome`] with its text as a sequence of characters.
pub ghost enum OutcomeView {
    Unmatched,
    Matched,
    Failed { text: Seq<char> },
}

/// A [`Log`] with its text as a sequence of characters.
pub ghost enum LogView {
    Nothing,
    Starting,
    NoFingers,
    Busy,
    Claimed { attempt: u64 },
    StillBusy { attempt: u64 },
    Failed { text: Seq<char> },
}

/// A [`Reply`] with its texts as sequences of characters.
pub ghost struct ReplyView {
    pub action: ActionView,
    pub notice: Option<Seq<char>>,
    pub interrupt: bool,
    pub log: LogView,
}

/// The state of the method, with its texts as sequences of characters.
pub ghost struct FingerprintState {
    pub username: Seq<char>,
    pub step: Step,
    pub attempt: u64,
    pub outcome: OutcomeView,
}

impl View for Event {
    type V = EventView;

    open spec fn view(&self) -> EventView {
        match *self {
            Event::Begin => EventView::Begin,
            Event::Completed => EventView::Completed,
            Event::Fingers { enrolled } => EventView::Fingers { count: enrolled@.len() },
            Event::Failed { text } => EventView::Failed { text: text@ },
            Event::Elapsed => EventView::Elapsed,
            Event::Signal { result, done } => EventView::Signal { result: result@, done },
            Event::Closed => EventView::Closed,
        }
    }
}

impl View for Action {
    type V = ActionView;

    open spec fn view(&self) -> ActionView {
        match *self {
            Action::Begin => ActionView::Begin,
            Action::Connect => ActionView::Connect,
            Action::FindManager => ActionView::FindManager,
            Action::FindDevice => ActionView::FindDevice,
            Action::OpenDevice => ActionView::OpenDevice,
            Action::ListFingers { username } => ActionView::ListFingers { username: username@ },
            Action::Claim { username } => ActionView::Claim { username: username@ },
            Action::Pause { millis } => ActionView::Pause { millis },
            Action::StartVerify { finger } => ActionView::StartVerify { finger: finger@ },
            Action::Subscribe => ActionView::Subscribe,
            Action::AwaitSignal { millis } => ActionView::AwaitSignal { millis },
            Action::FinishScan => ActionView::FinishScan,
            Action::StopVerify { millis } => ActionView::StopVerify { millis },
            Action::Release { millis } => ActionView::Release { millis },
            Action::Finish => ActionView::Finish,
        }
    }
}

impl View for Outcome {
    type V = OutcomeView;

    open spec fn view(&self) -> OutcomeView {
        match *self {
            Outcome::Unmatched => OutcomeView::Unmatched,
            Outcome::Matched => OutcomeView::Matched,
            Outcome::Failed { text } => OutcomeView::Failed { text: text@ },
        }
    }
}

impl View for Log {
    type V = LogView;

    open spec fn view(&self) -> LogView {
        match *self {
            Log::Nothing => LogView::Nothing,
            Log::Starting => LogView::Starting,
            Log::NoFingers => LogView::NoFingers,
            Log::Busy => LogView::Busy,
            Log::Claimed { attempt } => LogView::Claimed { attempt },
            Log::StillBusy { attempt } => LogView::StillBusy { attempt },
            Log::Failed { text } => LogView::Failed { text: text@ },
        }
    }
}

impl View for Reply {
    type V = ReplyView;

    open spec fn view(&self) -> ReplyView {
        ReplyView {
            action: self.action@,
            notice: match self.notice {
                Some(text) => Some(text@),
                None => None,
            },
            interrupt: self.interrupt,
            log: self.log@,
        }
    }
}

impl View for FingerprintAuth {
    type V = FingerprintState;

    open spec fn view(&self) -> FingerprintState {
        FingerprintState {
            username: self.username@,
            step: self.step,
            attempt: self.attempt,
            outcome: self.outcome@,
        }
    }
}

/// The method before it begins, for a user.
pub open spec fn idle(username: Seq<char>) -> FingerprintState {
    FingerprintState { username, step: Step::Idle, attempt: 0, outcome: OutcomeView::Unmatched }
}

/// What to do to get what the method waits for: the fingers that are listed,
/// and the claim of the reader, are those of the user.
pub open spec fn action_of(f: FingerprintState) -> ActionView {
    match f.step {
        Step::Idle => ActionView::Begin,
        Step::Connecting => ActionView::Connect,
        Step::FindingManager => ActionView::FindManager,
        Step::FindingDevice => ActionView::FindDevice,
        Step::OpeningDevice => ActionView::OpenDevice,
        Step::ListingFingers => ActionView::ListFingers { username: f.username },
        Step::Claiming => ActionView::Claim { username: f.username },
        Step::Pausing => ActionView::Pause { millis: RETRY_MILLIS },
        Step::Reclaiming => ActionView::Claim { username: f.username },
        Step::Starting => ActionView::StartVerify { finger: ANY_FINGER@ },
        Step::Subscribing => ActionView::Subscribe,
        Step::Waiting => ActionView::AwaitSignal { millis: SIGNAL_MILLIS },
        Step::Rearming => ActionView::FinishScan,
        Step::Restarting => ActionView::StartVerify { finger: ANY_FINGER@ },
        Step::Stopping => ActionView::StopVerify { millis: TIDY_MILLIS },
        Step::Releasing => ActionView::Release { millis: TIDY_MILLIS },
        Step::Done => ActionView::Finish,
    }
}

/// The method may go on: the run is not over and scans are left.
pub open spec fn may_scan(s: Session) -> bool {
    !is_over(s) && fingerprint_left(s)
}

/// What the user is told of an error. That the reader is in use is not told.
pub open spec fn error_words(text: Seq<char>) -> Option<Seq<char>> {
    if occurs(text, "AlreadyInUse"@) {
        None
    } else if occurs(text, "PermissionDenied"@) {
        Some("[PAM] Permission denied accessing fingerprint reader."@)
    } else {
        Some("[PAM] Fingerprint reader initialization failed."@)
    }
}

/// What the user is told of the reader.
pub ghost enum Notice {
    Busy,
    Reconnected,
    /// The warning that both methods share.
    Warning,
    Error { words: Seq<char> },
}

/// The colour of a notice: green for good news.
pub open spec fn notice_colour(notice: Notice) -> Colour {
    if notice is Reconnected {
        Colour::Green
    } else {
        Colour::Red
    }
}

/// The words of a notice.
pub open spec fn notice_words(s: Session, notice: Notice) -> Seq<char> {
    match notice {
        Notice::Busy => "Fingerprint reader is busy."@,
        Notice::Reconnected => "Fingerprint scanner was reconnected."@,
        Notice::Warning => warning_of(s),
        Notice::Error { words } => words,
    }
}

/// A notice in the line above the prompt, as it is written to the terminal, if
/// there is one.
#[verifier::opaque]
pub open spec fn shown(s: Session, notice: Notice) -> Option<Seq<char>> {
    if s.tty {
        Some(
            notice_text(
                lines_to_clear(s),
                notice_colour(notice),
                notice_words(s, notice),
                prompt_of(s),
            ),
        )
    } else {
        None
    }
}

/// A reply that asks for what the method waits for, and nothing besides.
pub open spec fn plain(f: FingerprintState) -> ReplyView {
    ReplyView {
        action: action_of(f),
        notice: None,
        interrupt: false,
        log: LogView::Nothing,
    }
}

/// The method goes on to `step`.
pub open spec fn onward(f: FingerprintState, s: Session, step: Step) -> (
    FingerprintState,
    Session,
    ReplyView,
) {
    let g = FingerprintState { step, ..f };
    (g, s, plain(g))
}

/// The method goes on to `step`, a part of tidying up, to end in `outcome`.
pub open spec fn tidying(
    f: FingerprintState,
    s: Session,
    step: Step,
    outcome: OutcomeView,
) -> (FingerprintState, Session, ReplyView) {
    let g = FingerprintState { step, outcome, ..f };
    (g, s, plain(g))
}

/// The method ends: the session learns that no scan will follow, and of an
/// error the user and the log are told.
pub open spec fn concluded(f: FingerprintState, s: Session, outcome: OutcomeView) -> (
    FingerprintState,
    Session,
    ReplyView,
) {
    let closed = recorded(s, Report::FingerprintClosed);
    let end = FingerprintState { step: Step::Done, outcome, ..f };
    match outcome {
        OutcomeView::Failed { text } => {
            let log = if s.succeeded {
                LogView::Nothing
            } else {
                LogView::Failed { text }
            };
            match error_words(text) {
                Some(words) => (
                    end,
                    notified(closed),
                    ReplyView {
                        notice: shown(closed, Notice::Error { words }),
                        log,
                        ..plain(end)
                    },
                ),
                None => (end, closed, ReplyView { log, ..plain(end) }),
            }
        },
        _ => (end, closed, plain(end)),
    }
}

/// Before the reader is claimed: on to `step` while scans may follow, and to
/// the end otherwise.
pub open spec fn onward_or_end(f: FingerprintState, s: Session, step: Step) -> (
    FingerprintState,
    Session,
    ReplyView,
) {
    if may_scan(s) {
        onward(f, s, step)
    } else {
        concluded(f, s, OutcomeView::Unmatched)
    }
}

/// Once the reader is claimed: on to `step` while scans may follow, and
/// otherwise to `tidy`.
pub open spec fn onward_or_tidy(f: FingerprintState, s: Session, step: Step, tidy: Step) -> (
    FingerprintState,
    Session,
    ReplyView,
) {
    if may_scan(s) {
        onward(f, s, step)
    } else {
        tidying(f, s, tidy, OutcomeView::Unmatched)
    }
}

/// A step before the reader is claimed was answered: on to `next`, or to the
/// end, with the error if there was one.
pub open spec fn prepared(f: FingerprintState, s: Session, e: EventView, next: Step) -> (
    FingerprintState,
    Session,
    ReplyView,
) {
    match e {
        EventView::Completed => onward_or_end(f, s, next),
        EventView::Failed { text } => concluded(f, s, OutcomeView::Failed { text }),
        _ => onward(f, s, f.step),
    }
}

/// The next number of a retry. After the largest number it starts over.
pub open spec fn next_attempt(attempt: u64) -> u64 {
    if attempt == u64::MAX {
        0
    } else {
        (attempt + 1) as u64
    }
}

/// The first claim was answered. A reader that is in use is announced, and
/// claimed again after a pause.
pub open spec fn first_claim(f: FingerprintState, s: Session, e: EventView) -> (
    FingerprintState,
    Session,
    ReplyView,
) {
    match e {
        EventView::Completed => onward_or_tidy(f, s, Step::Starting, Step::Releasing),
        EventView::Failed { text } => if occurs(text, "AlreadyInUse"@) {
            let notice = shown(s, Notice::Busy);
            let (g, t, reply) = onward_or_end(
                FingerprintState { attempt: 0, ..f },
                notified(s),
                Step::Pausing,
            );
            (g, t, ReplyView { notice, log: LogView::Busy, ..reply })
        } else {
            concluded(f, s, OutcomeView::Failed { text })
        },
        _ => onward(f, s, f.step),
    }
}

/// A further claim was answered. Whatever the error, the claim is repeated
/// after a pause; success is announced in place of the earlier notice.
pub open spec fn further_claim(f: FingerprintState, s: Session, e: EventView) -> (
    FingerprintState,
    Session,
    ReplyView,
) {
    match e {
        EventView::Completed => {
            let notice = shown(s, Notice::Reconnected);
            let (g, t, reply) = onward_or_tidy(
                f,
                notified(s),
                Step::Starting,
                Step::Releasing,
            );
            (g, t, ReplyView { notice, log: LogView::Claimed { attempt: f.attempt }, ..reply })
        },
        EventView::Failed { .. } => {
            let (g, t, reply) = onward_or_end(f, s, Step::Pausing);
            let log = if f.attempt % RETRIES_PER_LOG == 0 {
                LogView::StillBusy { attempt: f.attempt }
            } else {
                LogView::Nothing
            };
            (g, t, ReplyView { log, ..reply })
        },
        _ => onward(f, s, f.step),
    }
}

/// The reader sent a signal. A match ends the run at once; a scan that ended
/// without a match uses up an attempt, and is followed by another one while
/// attempts are left; any other end of a scan ends the method.
pub open spec fn signalled(f: FingerprintState, s: Session, result: Seq<char>, done: bool) -> (
    FingerprintState,
    Session,
    ReplyView,
) {
    if result == "verify-match"@ {
        let (g, t, reply) = tidying(
            f,
            recorded(s, Report::FingerprintMatched),
            Step::Stopping,
            OutcomeView::Matched,
        );
        (g, t, ReplyView { interrupt: true, ..reply })
    } else if !done {
        onward_or_tidy(f, s, Step::Waiting, Step::Stopping)
    } else if result == "verify-no-match"@ && may_scan(s) {
        let counted = recorded(s, Report::FingerprintRejected);
        let notice = shown(counted, Notice::Warning);
        let (g, t, reply) = onward_or_tidy(f, notified(counted), Step::Rearming, Step::Stopping);
        (g, t, ReplyView { notice, ..reply })
    } else {
        tidying(f, s, Step::Stopping, OutcomeView::Unmatched)
    }
}

/// Something came while the method waited for a signal.
pub open spec fn awaited(f: FingerprintState, s: Session, e: EventView) -> (
    FingerprintState,
    Session,
    ReplyView,
) {
    match e {
        EventView::Signal { result, done } => signalled(f, s, result, done),
        EventView::Elapsed => onward_or_tidy(f, s, Step::Waiting, Step::Stopping),
        EventView::Closed => tidying(f, s, Step::Stopping, OutcomeView::Unmatched),
        EventView::Failed { text } => tidying(f, s, Step::Stopping, OutcomeView::Failed { text }),
        _ => onward(f, s, f.step),
    }
}

/// An action of tidying up is done with, whatever came of it.
pub open spec fn tidied(e: EventView) -> bool {
    e is Completed || e is Failed || e is Elapsed
}

/// The state, the session and the reply after an event. An event that the step
/// does not wait for changes nothing.
pub open spec fn fingerprint_step(f: FingerprintState, s: Session, e: EventView) -> (
    FingerprintState,
    Session,
    ReplyView,
) {
    match f.step {
        Step::Idle => if e is Begin {
            let (g, t, reply) = onward_or_end(f, s, Step::Connecting);
            (g, t, ReplyView { log: LogView::Starting, ..reply })
        } else {
            onward(f, s, f.step)
        },
        Step::Connecting => prepared(f, s, e, Step::FindingManager),
        Step::FindingManager => prepared(f, s, e, Step::FindingDevice),
        Step::FindingDevice => prepared(f, s, e, Step::OpeningDevice),
        Step::OpeningDevice => if e is Completed {
            onward(f, s, Step::ListingFingers)
        } else {
            prepared(f, s, e, Step::ListingFingers)
        },
        Step::ListingFingers => match e {
            EventView::Fingers { count } => if count == 0 {
                let (g, t, reply) = concluded(f, s, OutcomeView::Unmatched);
                (g, t, ReplyView { log: LogView::NoFingers, ..reply })
            } else {
                onward_or_end(f, s, Step::Claiming)
            },
            EventView::Failed { text } => concluded(f, s, OutcomeView::Failed { text }),
            _ => onward(f, s, f.step),
        },
        Step::Claiming => first_claim(f, s, e),
        Step::Pausing => if e is Elapsed {
            if may_scan(s) {
                onward(
                    FingerprintState { attempt: next_attempt(f.attempt), ..f },
                    s,
                    Step::Reclaiming,
                )
            } else {
                concluded(f, s, OutcomeView::Unmatched)
            }
        } else {
            onward(f, s, f.step)
        },
        Step::Reclaiming => further_claim(f, s, e),
        Step::Starting => match e {
            EventView::Completed => onward(f, s, Step::Subscribing),
            EventView::Failed { text } => tidying(
                f,
                s,
                Step::Releasing,
                OutcomeView::Failed { text },
            ),
            _ => onward(f, s, f.step),
        },
        Step::Subscribing => match e {
            EventView::Completed => onward_or_tidy(f, s, Step::Waiting, Step::Stopping),
            EventView::Failed { text } => tidying(
                f,
                s,
                Step::Stopping,
                OutcomeView::Failed { text },
            ),
            _ => onward(f, s, f.step),
        },
        Step::Waiting => awaited(f, s, e),
        Step::Rearming => match e {
            EventView::Completed => onward_or_tidy(f, s, Step::Restarting, Step::Releasing),
            EventView::Failed { text } => tidying(
                f,
                s,
                Step::Stopping,
                OutcomeView::Failed { text },
            ),
            _ => onward(f, s, f.step),
        },
        Step::Restarting => match e {
            EventView::Completed => onward_or_tidy(f, s, Step::Waiting, Step::Stopping),
            EventView::Failed { text } => tidying(
                f,
                s,
                Step::Releasing,
                OutcomeView::Failed { text },
            ),
            _ => onward(f, s, f.step),
        },
        Step::Stopping => if tidied(e) {
            onward(f, s, Step::Releasing)
        } else {
            onward(f, s, f.step)
        },
        Step::Releasing => if tidied(e) {
            concluded(f, s, f.outcome)
        } else {
            onward(f, s, f.step)
        },
        Step::Done => onward(f, s, f.step),
    }
}

fn next_action(auth: &FingerprintAuth) -> (action: Action)
    ensures
        action@ == action_of(auth@),
{
    match auth.step {
        Step::Idle => Action::Begin,
        Step::Connecting => Action::Connect,
        Step::FindingManager => Action::FindManager,
        Step::FindingDevice => Action::FindDevice,
        Step::OpeningDevice => Action::OpenDevice,
        Step::ListingFingers => Action::ListFingers { username: auth.username.clone() },
        Step::Claiming => Action::Claim { username: auth.username.clone() },
        Step::Pausing => Action::Pause { millis: RETRY_MILLIS },
        Step::Reclaiming => Action::Claim { username: auth.username.clone() },
        Step::Starting => Action::StartVerify { finger: ANY_FINGER },
        Step::Subscribing => Action::Subscribe,
        Step::Waiting => Action::AwaitSignal { millis: SIGNAL_MILLIS },
        Step::Rearming => Action::FinishScan,
        Step::Restarting => Action::StartVerify { finger: ANY_FINGER },
        Step::Stopping => Action::StopVerify { millis: TIDY_MILLIS },
        Step::Releasing => Action::Release { millis: TIDY_MILLIS },
        Step::Done => Action::Finish,
    }
}

/// What the user is told of an error of the fingerprint service, if anything.
pub fn error_notice(text: &str) -> (words: Option<&'static str>)
    ensures
        words is Some <==> error_words(text@) is Some,
        words matches Some(words) ==> Some(words@) == error_words(text@),
{
    if contains_text(text, "AlreadyInUse") {
        None
    } else if contains_text(text, "PermissionDenied") {
        Some("[PAM] Permission denied accessing fingerprint reader.")
    } else {
        Some("[PAM] Fingerprint reader initialization failed.")
    }
}

fn scans_left(session: &Session) -> (left: bool)
    ensures
        left == may_scan(*session),
{
    !session.is_over() && session.fingerprint_left()
}

fn show(session: &mut Session, colour: Colour, words: &str, Ghost(notice): Ghost<Notice>) -> (written:
    Option<String>)
    requires
        colour == notice_colour(notice),
        words@ == notice_words(*old(session), notice),
    ensures
        *final(session) == notified(*old(session)),
        shown(*old(session), notice) == (match written {
            Some(text) => Some(text@),
            None => None,
        }),
{
    proof {
        reveal(shown);
    }
    let prompt: &'static str = session.prompt();
    session.notice(colour, words, prompt)
}

fn go_on(auth: &mut FingerprintAuth, step: Step) -> (reply: Reply)
    ensures
        final(auth)@ == (FingerprintState { step, ..old(auth)@ }),
        reply@ == plain(final(auth)@),
{
    auth.step = step;
    Reply { action: next_action(auth), notice: None, interrupt: false, log: Log::Nothing }
}

fn tidy_up(auth: &mut FingerprintAuth, step: Step, outcome: Outcome) -> (reply: Reply)
    ensures
        final(auth)@ == (FingerprintState { step, outcome: outcome@, ..old(auth)@ }),
        reply@ == plain(final(auth)@),
{
    auth.outcome = outcome;
    go_on(auth, step)
}

fn conclude(auth: &mut FingerprintAuth, session: &mut Session, outcome: Outcome) -> (reply: Reply)
    ensures
        (final(auth)@, *final(session), reply@) == concluded(old(auth)@, *old(session), outcome@),
{
    let quiet: bool = session.succeeded;
    session.record(Report::FingerprintClosed);
    let mut reply: Reply = go_on(auth, Step::Done);
    match &outcome {
        Outcome::Failed { text } => {
            if !quiet {
                reply.log = Log::Failed { text: text.clone() };
            }
            match error_notice(text.as_str()) {
                Some(words) => {
                    reply.notice = show(
                        session,
                        Colour::Red,
                        words,
                        Ghost(Notice::Error { words: words@ }),
                    );
                },
                None => {},
            }
        },
        _ => {},
    }
    auth.outcome = outcome;
    reply
}

fn go_on_or_end(auth: &mut FingerprintAuth, session: &mut Session, step: Step) -> (reply: Reply)
    ensures
        (final(auth)@, *final(session), reply@) == onward_or_end(old(auth)@, *old(session), step),
{
    if scans_left(session) {
        go_on(auth, step)
    } else {
        conclude(auth, session, Outcome::Unmatched)
    }
}

fn go_on_or_tidy(auth: &mut FingerprintAuth, session: &Session, step: Step, tidy: Step) -> (reply:
    Reply)
    ensures
        (final(auth)@, *session, reply@) == onward_or_tidy(old(auth)@, *session, step, tidy),
{
    if scans_left(session) {
        go_on(auth, step)
    } else {
        tidy_up(auth, tidy, Outcome::Unmatched)
    }
}

fn stay(auth: &mut FingerprintAuth) -> (reply: Reply)
    ensures
        final(auth)@ == old(auth)@,
        reply@ == plain(old(auth)@),
{
    let step: Step = auth.step;
    go_on(auth, step)
}

fn prepare(auth: &mut FingerprintAuth, session: &mut Session, event: Event, next: Step) -> (reply:
    Reply)
    ensures
        (final(auth)@, *final(session), reply@) == prepared(
            old(auth)@,
            *old(session),
            event@,
            next,
        ),
{
    match event {
        Event::Completed => go_on_or_end(auth, session, next),
        Event::Failed { text } => conclude(auth, session, Outcome::Failed { text }),
        _ => stay(auth),
    }
}

fn take_first_claim(auth: &mut FingerprintAuth, session: &mut Session, event: Event) -> (reply:
    Reply)
    ensures
        (final(auth)@, *final(session), reply@) == first_claim(old(auth)@, *old(session), event@),
{
    match event {
        Event::Completed => go_on_or_tidy(auth, session, Step::Starting, Step::Releasing),
        Event::Failed { text } => {
            if contains_text(text.as_str(), "AlreadyInUse") {
                let notice: Option<String> = show(
                    session,
                    Colour::Red,
                    "Fingerprint reader is busy.",
                    Ghost(Notice::Busy),
                );
                auth.attempt = 0;
                let mut reply: Reply = go_on_or_end(auth, session, Step::Pausing);
                reply.notice = notice;
                reply.log = Log::Busy;
                reply
            } else {
                conclude(auth, session, Outcome::Failed { text })
            }
        },
        _ => stay(auth),
    }
}

fn take_further_claim(auth: &mut FingerprintAuth, session: &mut Session, event: Event) -> (reply:
    Reply)
    ensures
        (final(auth)@, *final(session), reply@) == further_claim(
            old(auth)@,
            *old(session),
            event@,
        ),
{
    let attempt: u64 = auth.attempt;
    match event {
        Event::Completed => {
            let notice: Option<String> = show(
                session,
                Colour::Green,
                "Fingerprint scanner was reconnected.",
                Ghost(Notice::Reconnected),
            );
            let mut reply: Reply = go_on_or_tidy(auth, session, Step::Starting, Step::Releasing);
            reply.notice = notice;
            reply.log = Log::Claimed { attempt };
            reply
        },
        Event::Failed { .. } => {
            let mut reply: Reply = go_on_or_end(auth, session, Step::Pausing);
            if attempt % RETRIES_PER_LOG == 0 {
                reply.log = Log::StillBusy { attempt };
            } else {
                reply.log = Log::Nothing;
            }
            reply
        },
        _ => stay(auth),
    }
}

fn take_signal(auth: &mut FingerprintAuth, session: &mut Session, result: &str, done: bool) -> (reply:
    Reply)
    ensures
        (final(auth)@, *final(session), reply@) == signalled(
            old(auth)@,
            *old(session),
            result@,
            done,
        ),
{
    if same_text(result, "verify-match") {
        session.record(Report::FingerprintMatched);
        let mut reply: Reply = tidy_up(auth, Step::Stopping, Outcome::Matched);
        reply.interrupt = true;
        reply
    } else if !done {
        go_on_or_tidy(auth, session, Step::Waiting, Step::Stopping)
    } else if same_text(result, "verify-no-match") && scans_left(session) {
        session.record(Report::FingerprintRejected);
        let warning: String = session.warning();
        let notice: Option<String> = show(
            session,
            Colour::Red,
            warning.as_str(),
            Ghost(Notice::Warning),
        );
        let mut reply: Reply = go_on_or_tidy(auth, session, Step::Rearming, Step::Stopping);
        reply.notice = notice;
        reply
    } else {
        tidy_up(auth, Step::Stopping, Outcome::Unmatched)
    }
}

fn take_awaited(auth: &mut FingerprintAuth, session: &mut Session, event: Event) -> (reply: Reply)
    ensures
        (final(auth)@, *final(session), reply@) == awaited(old(auth)@, *old(session), event@),
{
    match event {
        Event::Signal { result, done } => take_signal(auth, session, result.as_str(), done),
        Event::Elapsed => go_on_or_tidy(auth, session, Step::Waiting, Step::Stopping),
        Event::Closed => tidy_up(auth, Step::Stopping, Outcome::Unmatched),
        Event::Failed { text } => tidy_up(auth, Step::Stopping, Outcome::Failed { text }),
        _ => stay(auth),
    }
}

impl FingerprintAuth {
    /// The method before it begins, for a user.
    pub fn new(username: String) -> (auth: FingerprintAuth)
        ensures
            auth@ == idle(username@),
    {
        FingerprintAuth {
            username,
            step: Step::Idle,
            attempt: 0,
            outcome: Outcome::Unmatched,
        }
    }
}

fn advance(auth: &mut FingerprintAuth, session: &mut Session, event: Event) -> (reply: Reply)
    ensures
        (final(auth)@, *final(session), reply@) == fingerprint_step(
            old(auth)@,
            *old(session),
            event@,
        ),
{
    match auth.step {
        Step::Idle => match event {
            Event::Begin => {
                let mut reply: Reply = go_on_or_end(auth, session, Step::Connecting);
                reply.log = Log::Starting;
                reply
            },
            _ => stay(auth),
        },
        Step::Connecting => prepare(auth, session, event, Step::FindingManager),
        Step::FindingManager => prepare(auth, session, event, Step::FindingDevice),
        Step::FindingDevice => prepare(auth, session, event, Step::OpeningDevice),
        Step::OpeningDevice => match event {
            Event::Completed => go_on(auth, Step::ListingFingers),
            _ => prepare(auth, session, event, Step::ListingFingers),
        },
        Step::ListingFingers => match event {
            Event::Fingers { enrolled } => {
                if enrolled.len() == 0 {
                    let mut reply: Reply = conclude(auth, session, Outcome::Unmatched);
                    reply.log = Log::NoFingers;
                    reply
                } else {
                    go_on_or_end(auth, session, Step::Claiming)
                }
            },
            Event::Failed { text } => conclude(auth, session, Outcome::Failed { text }),
            _ => stay(auth),
        },
        Step::Claiming => take_first_claim(auth, session, event),
        Step::Pausing => match event {
            Event::Elapsed => {
                if scans_left(session) {
                    auth.attempt = if auth.attempt == u64::MAX {
                        0
                    } else {
                        auth.attempt + 1
                    };
                    go_on(auth, Step::Reclaiming)
                } else {
                    conclude(auth, session, Outcome::Unmatched)
                }
            },
            _ => stay(auth),
        },
        Step::Reclaiming => take_further_claim(auth, session, event),
        Step::Starting => match event {
            Event::Completed => go_on(auth, Step::Subscribing),
            Event::Failed { text } => tidy_up(auth, Step::Releasing, Outcome::Failed { text }),
            _ => stay(auth),
        },
        Step::Subscribing => match event {
            Event::Completed => go_on_or_tidy(auth, session, Step::Waiting, Step::Stopping),
            Event::Failed { text } => tidy_up(auth, Step::Stopping, Outcome::Failed { text }),
            _ => stay(auth),
        },
        Step::Waiting => take_awaited(auth, session, event),
        Step::Rearming => match event {
            Event::Completed => go_on_or_tidy(auth, session, Step::Restarting, Step::Releasing),
            Event::Failed { text } => tidy_up(auth, Step::Stopping, Outcome::Failed { text }),
            _ => stay(auth),
        },
        Step::Restarting => match event {
            Event::Completed => go_on_or_tidy(auth, session, Step::Waiting, Step::Stopping),
            Event::Failed { text } => tidy_up(auth, Step::Releasing, Outcome::Failed { text }),
            _ => stay(auth),
        },
        Step::Stopping => match event {
            Event::Completed | Event::Failed { .. } | Event::Elapsed => go_on(
                auth,
                Step::Releasing,
            ),
            _ => stay(auth),
        },
        Step::Releasing => match event {
            Event::Completed | Event::Failed { .. } | Event::Elapsed => {
                let mut outcome: Outcome = Outcome::Unmatched;
                std::mem::swap(&mut outcome, &mut auth.outcome);
                conclude(auth, session, outcome)
            },
            _ => stay(auth),
        },
        Step::Done => stay(auth),
    }
}

/// Takes in what came of the last action and says what to do next. The method
/// has ended when the action is [`Action::Finish`].
pub fn run_fingerprint_auth(auth: &mut FingerprintAuth, session: &mut Session, event: Event) -> (reply:
    Reply)
    ensures
        (final(auth)@, *final(session), reply@) == fingerprint_step(
            old(auth)@,
            *old(session),
            event@,
        ),
        final(auth).username@ == old(auth).username@,
        reply.action matches Action::ListFingers { username } ==> username@ == old(auth).username@,
        reply.action matches Action::Claim { username } ==> username@ == old(auth).username@,
        reply.action matches Action::StartVerify { finger } ==> finger@ == "any"@,
        reply.action matches Action::Pause { millis } ==> millis == 100,
        reply.action matches Action::AwaitSignal { millis } ==> millis == 100,
        reply.action matches Action::StopVerify { millis } ==> millis == 10,
        reply.action matches Action::Release { millis } ==> millis == 10,
        reply.action is Finish <==> final(auth).step == Step::Done,
        old(auth).step == Step::ListingFingers && scan_counts(*old(session)) ==> (
        event matches Event::Fingers { enrolled } ==> enrolled@.len() >= 1 ==> reply.action is Claim),
        old(auth).step == Step::Waiting && scan_counts(*old(session)) && event is Elapsed
            ==> reply.action is AwaitSignal && *final(session) == *old(session),
        old(auth).step == Step::Waiting && scan_counts(*old(session)) ==> (
        event matches Event::Signal { result, done } ==> (result@ == "verify-match"@
            <==> final(session).succeeded)),
{
    proof {
        let f = old(auth)@;
        let s = *old(session);
        service_is_asked_for_the_step(f, s, event@);
        if f.step == Step::ListingFingers && event is Fingers {
            listed_fingers_lead_to_a_claim(f, s, event->enrolled@.len());
        }
        if f.step == Step::Waiting && scan_counts(s) {
            if event is Elapsed {
                listening_goes_on_while_a_scan_counts(f, s);
            }
            if event is Signal && event->result@ == "verify-match"@ {
                match_lets_the_user_in(f, s, event->done);
            } else if fingerprint_step(f, s, event@).1.succeeded {
                only_a_match_succeeds(f, s, event@);
            }
        }
    }
    advance(auth, session, event)
}

} // verus!
