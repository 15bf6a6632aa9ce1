//! What the fingerprint method does with each thing that the service reports.

use vstd::prelude::*;
#[allow(unused_imports)]
use vstd::string::*;

#[allow(unused_imports)]
use crate::fingerprint::{
    fingerprint_step, idle, shown, Action, ActionView, Event, EventView, FingerprintAuth,
    FingerprintState, Log, LogView, Outcome, OutcomeView, Reply, ReplyView, Step,
};
#[allow(unused_imports)]
use crate::session::{
    answer_of, lines_to_clear, notice_text, prompt_of, recorded, warning_of, Colour, Report, Session,
};
#[allow(unused_imports)]
use crate::session_laws::{
    endings_are_recorded, failure_is_recorded, password_counts, run_goes_on_while_either_counts,
    scan_counts, screen_is_kept_apart, success_is_recorded,
};
#[allow(unused_imports)]
use crate::text::occurs;

verus! {

/// Nothing is shown, nobody is interrupted, and nothing is logged.
pub open spec fn silent(reply: ReplyView) -> bool {
    reply.notice is None && !reply.interrupt && reply.log == LogView::Nothing
}

/// The session once the reader is out of play, in a run that still goes on.
pub open spec fn without_the_reader(s: Session) -> Session {
    if password_counts(s) || scan_counts(s) {
        Session { fingerprint_open: false, ..s }
    } else {
        s
    }
}

/// The session once a notice is on the terminal, if there is one.
pub open spec fn with_a_notice(s: Session) -> Session {
    if s.tty {
        Session { line_above: true, below_prompt: false, ..s }
    } else {
        s
    }
}

/// A notice in the session `s`, above the prompt of `then`.
pub open spec fn announces(
    s: Session,
    then: Session,
    colour: Colour,
    words: Seq<char>,
    reply: ReplyView,
) -> bool {
    reply.notice == (if s.tty {
        Some(notice_text(lines_to_clear(s), colour, words, prompt_of(then)))
    } else {
        None
    })
}

/// The method has ended, without a word.
pub open spec fn ends_silently(
    f: FingerprintState,
    s: Session,
    outcome: OutcomeView,
    after: (FingerprintState, Session, ReplyView),
) -> bool {
    let (g, t, reply) = after;
    &&& g == (FingerprintState { step: Step::Done, outcome, ..f })
    &&& t == without_the_reader(s)
    &&& reply.action == ActionView::Finish
    &&& reply.notice is None && !reply.interrupt
}

/// The method has ended with an error: the log has it in full, unless the user
/// is in already, and the user is told of it in general terms, unless the
/// reader was merely in use.
pub open spec fn ends_with_an_error(
    f: FingerprintState,
    s: Session,
    text: Seq<char>,
    after: (FingerprintState, Session, ReplyView),
) -> bool {
    let (g, t, reply) = after;
    let closed = without_the_reader(s);
    &&& g == (FingerprintState { step: Step::Done, outcome: OutcomeView::Failed { text }, ..f })
    &&& reply.action == ActionView::Finish
    &&& !reply.interrupt
    &&& reply.log == (if s.succeeded {
        LogView::Nothing
    } else {
        LogView::Failed { text }
    })
    &&& if occurs(text, "AlreadyInUse"@) {
        t == closed && reply.notice is None
    } else if occurs(text, "PermissionDenied"@) {
        t == with_a_notice(closed) && announces(
            s,
            closed,
            Colour::Red,
            "[PAM] Permission denied accessing fingerprint reader."@,
            reply,
        )
    } else {
        t == with_a_notice(closed) && announces(
            s,
            closed,
            Colour::Red,
            "[PAM] Fingerprint reader initialization failed."@,
            reply,
        )
    }
}

/// The method goes on to the step, with nothing else changed and nothing said.
pub open spec fn goes_on_to(
    f: FingerprintState,
    s: Session,
    step: Step,
    after: (FingerprintState, Session, ReplyView),
) -> bool {
    after.0 == (FingerprintState { step, ..f }) && after.1 == s && silent(after.2)
}

/// The method goes on to the step, to end in the outcome.
pub open spec fn tidies_up(
    f: FingerprintState,
    s: Session,
    step: Step,
    outcome: OutcomeView,
    after: (FingerprintState, Session, ReplyView),
) -> bool {
    after.0 == (FingerprintState { step, outcome, ..f }) && after.1 == s && silent(after.2)
}

/// The service is asked for what the step waits for, always in the name of the
/// user: for any enrolled finger, with a tenth of a second between two claims
/// and two looks at the session, and with a hundredth for tidying up.
#[verifier::spinoff_prover]
#[verifier::rlimit(40)]
pub proof fn service_is_asked_for_the_step(f: FingerprintState, s: Session, e: EventView)
    ensures
        ({
            let (g, t, reply) = fingerprint_step(f, s, e);
            &&& g.username == f.username
            &&& reply.action == (match g.step {
                Step::Idle => ActionView::Begin,
                Step::Connecting => ActionView::Connect,
                Step::FindingManager => ActionView::FindManager,
                Step::FindingDevice => ActionView::FindDevice,
                Step::OpeningDevice => ActionView::OpenDevice,
                Step::ListingFingers => ActionView::ListFingers { username: f.username },
                Step::Claiming | Step::Reclaiming => ActionView::Claim { username: f.username },
                Step::Pausing => ActionView::Pause { millis: 100 },
                Step::Starting | Step::Restarting => ActionView::StartVerify { finger: "any"@ },
                Step::Subscribing => ActionView::Subscribe,
                Step::Waiting => ActionView::AwaitSignal { millis: 100 },
                Step::Rearming => ActionView::FinishScan,
                Step::Stopping => ActionView::StopVerify { millis: 10 },
                Step::Releasing => ActionView::Release { millis: 10 },
                Step::Done => ActionView::Finish,
            })
        }),
{
}

/// While a scan counts, each thing that succeeds on the way to the reader is
/// followed by the next: the bus, the manager, the reader's path, the reader,
/// the user's fingers.
pub proof fn reader_is_found_step_by_step(f: FingerprintState, s: Session)
    requires
        scan_counts(s),
    ensures
        f.step == Step::Idle ==> {
            let (g, t, reply) = fingerprint_step(f, s, EventView::Begin);
            &&& g == (FingerprintState { step: Step::Connecting, ..f }) && t == s
            &&& reply.action == ActionView::Connect
            &&& reply.notice is None && !reply.interrupt && reply.log == LogView::Starting
        },
        f.step == Step::Connecting ==> goes_on_to(
            f,
            s,
            Step::FindingManager,
            fingerprint_step(f, s, EventView::Completed),
        ),
        f.step == Step::FindingManager ==> goes_on_to(
            f,
            s,
            Step::FindingDevice,
            fingerprint_step(f, s, EventView::Completed),
        ),
        f.step == Step::FindingDevice ==> goes_on_to(
            f,
            s,
            Step::OpeningDevice,
            fingerprint_step(f, s, EventView::Completed),
        ),
        f.step == Step::OpeningDevice ==> goes_on_to(
            f,
            s,
            Step::ListingFingers,
            fingerprint_step(f, s, EventView::Completed),
        ),
{
    run_goes_on_while_either_counts(s);
}

/// Once the service lists one finger or more, the reader is claimed for the
/// user, while a scan counts. Only an empty list ends the method there: the
/// password method goes on alone.
pub proof fn listed_fingers_lead_to_a_claim(f: FingerprintState, s: Session, count: nat)
    requires
        f.step == Step::ListingFingers,
    ensures
        ({
            let after = fingerprint_step(f, s, EventView::Fingers { count });
            &&& count >= 1 && scan_counts(s) ==> goes_on_to(f, s, Step::Claiming, after)
                && after.2.action == (ActionView::Claim { username: f.username })
            &&& count >= 1 && !scan_counts(s) ==> ends_silently(
                f,
                s,
                OutcomeView::Unmatched,
                after,
            ) && after.2.log == LogView::Nothing
            &&& count == 0 ==> ends_silently(f, s, OutcomeView::Unmatched, after) && after.2.log
                == LogView::NoFingers
        }),
{
    run_goes_on_while_either_counts(s);
    endings_are_recorded(s);
}

/// The first claim: where it is granted the first scan is started, while a scan
/// counts. A reader in use is announced in red and claimed again after a pause.
/// Any other error ends the method.
#[verifier::spinoff_prover]
#[verifier::rlimit(40)]
pub proof fn first_claim_is_answered(f: FingerprintState, s: Session, text: Seq<char>)
    requires
        f.step == Step::Claiming,
    ensures
        ({
            let after = fingerprint_step(f, s, EventView::Completed);
            &&& scan_counts(s) ==> goes_on_to(f, s, Step::Starting, after)
            &&& !scan_counts(s) ==> tidies_up(
                f,
                s,
                Step::Releasing,
                OutcomeView::Unmatched,
                after,
            )
        }),
        ({
            let after = fingerprint_step(f, s, EventView::Failed { text });
            let (g, t, reply) = after;
            &&& occurs(text, "AlreadyInUse"@) ==> {
                &&& announces(s, s, Colour::Red, "Fingerprint reader is busy."@, reply)
                &&& reply.log == LogView::Busy && !reply.interrupt && g.attempt == 0
                &&& scan_counts(s) ==> g == (FingerprintState {
                    step: Step::Pausing,
                    attempt: 0,
                    ..f
                }) && t == with_a_notice(s)
                &&& !scan_counts(s) ==> g.step == Step::Done && t == without_the_reader(
                    with_a_notice(s),
                )
            }
            &&& !occurs(text, "AlreadyInUse"@) ==> ends_with_an_error(f, s, text, after)
        }),
{
    run_goes_on_while_either_counts(s);
    run_goes_on_while_either_counts(with_a_notice(s));
    endings_are_recorded(s);
    endings_are_recorded(with_a_notice(s));
    screen_is_kept_apart(s);
    screen_is_kept_apart(without_the_reader(s));
    reveal(shown);
}

/// A reader in use is claimed again after each pause, however often, while a
/// scan counts; every tenth refusal is logged. The claim that is granted at
/// last is announced in green, and the first scan is started.
#[verifier::spinoff_prover]
#[verifier::rlimit(40)]
pub proof fn busy_reader_is_claimed_again(f: FingerprintState, s: Session, text: Seq<char>)
    ensures
        f.step == Step::Pausing ==> {
            let after = fingerprint_step(f, s, EventView::Elapsed);
            &&& scan_counts(s) ==> after.0.step == Step::Reclaiming && after.0 == (
            FingerprintState { step: Step::Reclaiming, attempt: after.0.attempt, ..f }) && (
            f.attempt < 0xffff_ffff_ffff_ffff ==> after.0.attempt == f.attempt + 1) && after.1 == s
                && silent(after.2)
            &&& !scan_counts(s) ==> ends_silently(f, s, OutcomeView::Unmatched, after)
                && after.2.log == LogView::Nothing
        },
        f.step == Step::Reclaiming ==> {
            let (g, t, reply) = fingerprint_step(f, s, EventView::Failed { text });
            &&& scan_counts(s) ==> g == (FingerprintState { step: Step::Pausing, ..f }) && t == s
            &&& !scan_counts(s) ==> g.step == Step::Done && t == without_the_reader(s)
            &&& reply.notice is None && !reply.interrupt
            &&& reply.log == (if f.attempt % 10 == 0 {
                LogView::StillBusy { attempt: f.attempt }
            } else {
                LogView::Nothing
            })
        },
        f.step == Step::Reclaiming ==> {
            let (g, t, reply) = fingerprint_step(f, s, EventView::Completed);
            &&& announces(s, s, Colour::Green, "Fingerprint scanner was reconnected."@, reply)
            &&& reply.log == (LogView::Claimed { attempt: f.attempt }) && !reply.interrupt
            &&& t == with_a_notice(s)
            &&& scan_counts(s) ==> g == (FingerprintState { step: Step::Starting, ..f })
            &&& !scan_counts(s) ==> g == (FingerprintState {
                step: Step::Releasing,
                outcome: OutcomeView::Unmatched,
                ..f
            })
        },
{
    run_goes_on_while_either_counts(s);
    run_goes_on_while_either_counts(with_a_notice(s));
    endings_are_recorded(s);
    screen_is_kept_apart(s);
    reveal(shown);
}

/// A scan that is started is listened to while a scan counts, and a scan that
/// has ended is followed by another one; otherwise the method tidies up.
pub proof fn scan_is_listened_to(f: FingerprintState, s: Session)
    ensures
        ({
            let after = fingerprint_step(f, s, EventView::Completed);
            &&& f.step == Step::Starting ==> goes_on_to(f, s, Step::Subscribing, after)
            &&& f.step == Step::Subscribing || f.step == Step::Restarting ==> if scan_counts(s) {
                goes_on_to(f, s, Step::Waiting, after)
            } else {
                tidies_up(f, s, Step::Stopping, OutcomeView::Unmatched, after)
            }
            &&& f.step == Step::Rearming ==> if scan_counts(s) {
                goes_on_to(f, s, Step::Restarting, after)
            } else {
                tidies_up(f, s, Step::Releasing, OutcomeView::Unmatched, after)
            }
        }),
{
    run_goes_on_while_either_counts(s);
}

/// While a scan counts, the method goes on listening for as long as it takes: a
/// wait without a signal is followed by another wait and changes nothing,
/// however many passwords were wrong. Once no scan counts the scan is stopped.
pub proof fn listening_goes_on_while_a_scan_counts(f: FingerprintState, s: Session)
    requires
        f.step == Step::Waiting,
    ensures
        ({
            let after = fingerprint_step(f, s, EventView::Elapsed);
            &&& scan_counts(s) ==> after.0 == f && after.1 == s && silent(after.2)
                && after.2.action == (ActionView::AwaitSignal { millis: 100 })
            &&& !scan_counts(s) ==> tidies_up(
                f,
                s,
                Step::Stopping,
                OutcomeView::Unmatched,
                after,
            )
        }),
{
    run_goes_on_while_either_counts(s);
}

/// A signal that is no match and ends no scan is treated like a wait without a
/// signal, whatever its result.
pub proof fn passing_signals_are_passed_over(f: FingerprintState, s: Session, result: Seq<char>)
    requires
        f.step == Step::Waiting,
        result != "verify-match"@,
    ensures
        fingerprint_step(f, s, EventView::Signal { result, done: false }) == fingerprint_step(
            f,
            s,
            EventView::Elapsed,
        ),
        scan_counts(s) ==> goes_on_to(
            f,
            s,
            Step::Waiting,
            fingerprint_step(f, s, EventView::Signal { result, done: false }),
        ),
{
    run_goes_on_while_either_counts(s);
}

/// A match lets the user in while a scan counts, whether or not the reader
/// says that the scan has ended. The prompt is interrupted and the scan
/// stopped.
pub proof fn match_lets_the_user_in(f: FingerprintState, s: Session, done: bool)
    requires
        f.step == Step::Waiting,
    ensures
        ({
            let (g, t, reply) = fingerprint_step(
                f,
                s,
                EventView::Signal { result: "verify-match"@, done },
            );
            &&& t == (if scan_counts(s) {
                Session { succeeded: true, ..s }
            } else {
                s
            })
            &&& scan_counts(s) ==> answer_of(t) == 0
            &&& g == (FingerprintState {
                step: Step::Stopping,
                outcome: OutcomeView::Matched,
                ..f
            })
            &&& reply.interrupt && reply.notice is None && reply.log == LogView::Nothing
        }),
{
    success_is_recorded(s);
}

/// A scan that has ended without a match uses up one attempt, while a scan
/// counts, and the warning is shown with the new count. It is followed by
/// another scan while one still counts, and by tidying up after the last.
#[verifier::spinoff_prover]
#[verifier::rlimit(40)]
pub proof fn scan_without_a_match_is_charged(f: FingerprintState, s: Session)
    requires
        f.step == Step::Waiting,
    ensures
        ({
            let after = fingerprint_step(
                f,
                s,
                EventView::Signal { result: "verify-no-match"@, done: true },
            );
            let (g, t, reply) = after;
            if scan_counts(s) {
                &&& t.fingerprint_failures == s.fingerprint_failures + 1
                &&& t == with_a_notice(
                    Session { fingerprint_failures: t.fingerprint_failures, ..s },
                )
                &&& announces(s, t, Colour::Red, warning_of(t), reply)
                &&& !reply.interrupt && reply.log == LogView::Nothing
                &&& scan_counts(t) ==> g == (FingerprintState { step: Step::Rearming, ..f })
                &&& !scan_counts(t) ==> g == (FingerprintState {
                    step: Step::Stopping,
                    outcome: OutcomeView::Unmatched,
                    ..f
                })
            } else {
                tidies_up(f, s, Step::Stopping, OutcomeView::Unmatched, after)
            }
        }),
{
    reveal_strlit("verify-match");
    reveal_strlit("verify-no-match");
    assert("verify-match"@.len() != "verify-no-match"@.len());
    run_goes_on_while_either_counts(s);
    failure_is_recorded(s);
    let counted = recorded(s, Report::FingerprintRejected);
    run_goes_on_while_either_counts(with_a_notice(counted));
    screen_is_kept_apart(counted);
    reveal(shown);
    assert(warning_of(with_a_notice(counted)) == warning_of(counted));
    assert(prompt_of(with_a_notice(counted)) == prompt_of(counted));
}

/// Any other end of a scan, and the end of the signals, stop the scan and cost
/// no attempt; an error does too, and is kept for the end.
pub proof fn other_ends_of_a_scan_cost_nothing(
    f: FingerprintState,
    s: Session,
    result: Seq<char>,
    text: Seq<char>,
)
    requires
        f.step == Step::Waiting,
        result != "verify-match"@,
        result != "verify-no-match"@,
    ensures
        tidies_up(
            f,
            s,
            Step::Stopping,
            OutcomeView::Unmatched,
            fingerprint_step(f, s, EventView::Signal { result, done: true }),
        ),
        tidies_up(
            f,
            s,
            Step::Stopping,
            OutcomeView::Unmatched,
            fingerprint_step(f, s, EventView::Closed),
        ),
        tidies_up(
            f,
            s,
            Step::Stopping,
            OutcomeView::Failed { text },
            fingerprint_step(f, s, EventView::Failed { text }),
        ),
{
}

/// An error on the way to the reader ends the method; the password method
/// keeps what it has.
#[verifier::spinoff_prover]
#[verifier::rlimit(40)]
pub proof fn error_before_the_claim_ends_the_method(
    f: FingerprintState,
    s: Session,
    text: Seq<char>,
)
    requires
        ({
            ||| f.step == Step::Connecting
            ||| f.step == Step::FindingManager
            ||| f.step == Step::FindingDevice
            ||| f.step == Step::OpeningDevice
            ||| f.step == Step::ListingFingers
        }),
    ensures
        ends_with_an_error(f, s, text, fingerprint_step(f, s, EventView::Failed { text })),
{
    endings_are_recorded(s);
    screen_is_kept_apart(without_the_reader(s));
    reveal(shown);
}

/// An error once the reader is claimed is kept for the end. The scan is stopped
/// first where there is one, and the reader is given back.
pub proof fn error_after_the_claim_gives_the_reader_back(
    f: FingerprintState,
    s: Session,
    text: Seq<char>,
)
    ensures
        ({
            let after = fingerprint_step(f, s, EventView::Failed { text });
            &&& f.step == Step::Starting || f.step == Step::Restarting ==> tidies_up(
                f,
                s,
                Step::Releasing,
                OutcomeView::Failed { text },
                after,
            )
            &&& f.step == Step::Subscribing || f.step == Step::Rearming ==> tidies_up(
                f,
                s,
                Step::Stopping,
                OutcomeView::Failed { text },
                after,
            )
        }),
{
}

/// A step of tidying up is over once it is answered, in whatever way, or its
/// time is up: the scan is stopped, the reader is given back, and the method
/// ends, with the error where there was one.
#[verifier::spinoff_prover]
#[verifier::rlimit(40)]
pub proof fn tidying_up_comes_to_its_end(f: FingerprintState, s: Session, e: EventView)
    requires
        e is Completed || e is Failed || e is Elapsed,
    ensures
        f.step == Step::Stopping ==> goes_on_to(
            f,
            s,
            Step::Releasing,
            fingerprint_step(f, s, e),
        ),
        f.step == Step::Releasing ==> {
            let after = fingerprint_step(f, s, e);
            match f.outcome {
                OutcomeView::Failed { text } => ends_with_an_error(f, s, text, after),
                _ => ends_silently(f, s, f.outcome, after) && after.2.log == LogView::Nothing,
            }
        },
{
    endings_are_recorded(s);
    screen_is_kept_apart(without_the_reader(s));
    reveal(shown);
}

/// Once no scan counts the method ends before it has claimed the reader: it
/// asks the service for nothing more.
pub proof fn method_ends_when_no_scan_counts(f: FingerprintState, s: Session)
    requires
        !scan_counts(s),
    ensures
        f.step == Step::Idle ==> {
            let after = fingerprint_step(f, s, EventView::Begin);
            ends_silently(f, s, OutcomeView::Unmatched, after) && after.2.log == LogView::Starting
        },
        f.step == Step::Connecting || f.step == Step::FindingManager || f.step
            == Step::FindingDevice ==> {
            let after = fingerprint_step(f, s, EventView::Completed);
            ends_silently(f, s, OutcomeView::Unmatched, after) && after.2.log == LogView::Nothing
        },
        f.step == Step::OpeningDevice ==> goes_on_to(
            f,
            s,
            Step::ListingFingers,
            fingerprint_step(f, s, EventView::Completed),
        ),
{
    run_goes_on_while_either_counts(s);
    endings_are_recorded(s);
}

/// The event is one that the step waits for.
pub open spec fn is_awaited(step: Step, e: EventView) -> bool {
    match step {
        Step::Idle => e is Begin,
        Step::ListingFingers => e is Fingers || e is Failed,
        Step::Pausing => e is Elapsed,
        Step::Waiting => e is Signal || e is Elapsed || e is Closed || e is Failed,
        Step::Stopping | Step::Releasing => e is Completed || e is Failed || e is Elapsed,
        Step::Done => false,
        _ => e is Completed || e is Failed,
    }
}

/// Anything else changes nothing, and is neither shown nor logged.
#[verifier::spinoff_prover]
#[verifier::rlimit(40)]
pub proof fn unawaited_events_change_nothing(f: FingerprintState, s: Session, e: EventView)
    requires
        !is_awaited(f.step, e),
    ensures
        goes_on_to(f, s, f.step, fingerprint_step(f, s, e)),
{
}

/// The method before it begins: nothing is claimed and nothing has come of it,
/// and the user is the one it was made for.
pub proof fn method_begins_for_the_user(username: Seq<char>)
    ensures
        idle(username).username == username,
        idle(username).step == Step::Idle,
        idle(username).attempt == 0,
        idle(username).outcome == OutcomeView::Unmatched,
{
}

/// The method with a reader that does all it is asked to do, from the
/// beginning: as many successes, while a scan counts, and it listens.
pub open spec fn after_successes(f: FingerprintState, s: Session, successes: nat) -> FingerprintState
    decreases successes,
{
    if successes == 0 {
        f
    } else {
        fingerprint_step(
            after_successes(f, s, (successes - 1) as nat),
            s,
            EventView::Completed,
        ).0
    }
}

/// From the beginning to the first scan, and from one scan to the next: with a
/// service that does all it is asked to do and lists a finger, the method
/// listens for the user's finger as long as a scan counts.
pub proof fn willing_reader_is_listened_to(username: Seq<char>, s: Session, count: nat)
    requires
        scan_counts(s),
        count >= 1,
    ensures
        ({
            let begun = fingerprint_step(idle(username), s, EventView::Begin).0;
            let listing = after_successes(begun, s, 4);
            let claiming = fingerprint_step(listing, s, EventView::Fingers { count });
            let listening = after_successes(claiming.0, s, 3);
            &&& listing.step == Step::ListingFingers
            &&& claiming.2.action == (ActionView::Claim { username })
            &&& listening.step == Step::Waiting
            &&& listening.username == username
        }),
{
    let start = idle(username);
    reader_is_found_step_by_step(start, s);
    let begun = fingerprint_step(start, s, EventView::Begin).0;
    reveal_with_fuel(after_successes, 5);
    reader_is_found_step_by_step(begun, s);
    reader_is_found_step_by_step(after_successes(begun, s, 1), s);
    reader_is_found_step_by_step(after_successes(begun, s, 2), s);
    reader_is_found_step_by_step(after_successes(begun, s, 3), s);
    let listing = after_successes(begun, s, 4);
    listed_fingers_lead_to_a_claim(listing, s, count);
    let claiming = fingerprint_step(listing, s, EventView::Fingers { count }).0;
    first_claim_is_answered(claiming, s, Seq::empty());
    scan_is_listened_to(after_successes(claiming, s, 1), s);
    scan_is_listened_to(after_successes(claiming, s, 2), s);
}

/// What the service reports is taken as it is: an event is seen as the kind it
/// is, with all that it says.
pub proof fn events_are_taken_as_they_are(event: Event)
    ensures
        match event {
            Event::Begin => event@ == EventView::Begin,
            Event::Completed => event@ == EventView::Completed,
            Event::Fingers { enrolled } => event@ == (EventView::Fingers {
                count: enrolled@.len(),
            }),
            Event::Failed { text } => event@ == (EventView::Failed { text: text@ }),
            Event::Elapsed => event@ == EventView::Elapsed,
            Event::Signal { result, done } => event@ == (EventView::Signal {
                result: result@,
                done,
            }),
            Event::Closed => event@ == EventView::Closed,
        },
{
}

/// What is asked of the service is seen as it is: an action is of the kind that
/// it is seen as, and asks for the same.
pub proof fn actions_are_seen_as_they_are(action: Action)
    ensures
        match action@ {
            ActionView::Begin => action is Begin,
            ActionView::Connect => action is Connect,
            ActionView::FindManager => action is FindManager,
            ActionView::FindDevice => action is FindDevice,
            ActionView::OpenDevice => action is OpenDevice,
            ActionView::ListFingers { username: seen } => action matches Action::ListFingers {
                username,
            } && username@ == seen,
            ActionView::Claim { username: seen } => action matches Action::Claim { username }
                && username@ == seen,
            ActionView::Pause { millis: seen } => action matches Action::Pause { millis } && millis
                == seen,
            ActionView::StartVerify { finger: seen } => action matches Action::StartVerify { finger }
                && finger@ == seen,
            ActionView::Subscribe => action is Subscribe,
            ActionView::AwaitSignal { millis: seen } => action matches Action::AwaitSignal { millis }
                && millis == seen,
            ActionView::FinishScan => action is FinishScan,
            ActionView::StopVerify { millis: seen } => action matches Action::StopVerify { millis }
                && millis == seen,
            ActionView::Release { millis: seen } => action matches Action::Release { millis }
                && millis == seen,
            ActionView::Finish => action is Finish,
        },
{
}

/// What is logged is seen as it is.
pub proof fn log_is_seen_as_it_is(log: Log)
    ensures
        match log@ {
            LogView::Nothing => log is Nothing,
            LogView::Starting => log is Starting,
            LogView::NoFingers => log is NoFingers,
            LogView::Busy => log is Busy,
            LogView::Claimed { attempt: seen } => log matches Log::Claimed { attempt } && attempt
                == seen,
            LogView::StillBusy { attempt: seen } => log matches Log::StillBusy { attempt }
                && attempt == seen,
            LogView::Failed { text: seen } => log matches Log::Failed { text } && text@ == seen,
        },
{
}

/// A reply and the state of the method are seen with all that they hold.
pub proof fn reply_and_state_are_seen_whole(reply: Reply, auth: FingerprintAuth)
    ensures
        reply@.action == reply.action@,
        reply@.notice is None <==> reply.notice is None,
        reply.notice matches Some(text) ==> reply@.notice == Some(text@),
        reply@.interrupt == reply.interrupt,
        reply@.log == reply.log@,
        auth@.username == auth.username@,
        auth@.step == auth.step,
        auth@.attempt == auth.attempt,
        match auth.outcome {
            Outcome::Unmatched => auth@.outcome == OutcomeView::Unmatched,
            Outcome::Matched => auth@.outcome == OutcomeView::Matched,
            Outcome::Failed { text } => auth@.outcome == (OutcomeView::Failed { text: text@ }),
        },
{
}

} // verus!
