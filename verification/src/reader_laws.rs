//! What holds of the fingerprint method in every course of events.
//!
//! A course is a series of events, each with the session as the method finds
//! it: the password method may have changed it in any way since.

use vstd::prelude::*;

#[allow(unused_imports)]
use crate::fingerprint::{
    action_of, fingerprint_step, idle, may_scan, tidied, ActionView, EventView, FingerprintState, OutcomeView,
    Step, RETRY_MILLIS,
};
#[allow(unused_imports)]
use crate::session::{is_over, notified, password_left, recorded, Report, Session};
#[allow(unused_imports)]
use crate::text::occurs;

verus! {

/// A course of events.
pub type Course = Seq<(Session, EventView)>;

/// The method after a course of events.
pub open spec fn method_after(username: Seq<char>, course: Course) -> FingerprintState
    decreases course.len(),
{
    if course.len() == 0 {
        idle(username)
    } else {
        fingerprint_step(
            method_after(username, course.drop_last()),
            course.last().0,
            course.last().1,
        ).0
    }
}

/// The reader is claimed, or its release is under way.
pub open spec fn holds_reader(step: Step) -> bool {
    ||| step == Step::Starting
    ||| step == Step::Subscribing
    ||| step == Step::Waiting
    ||| step == Step::Rearming
    ||| step == Step::Restarting
    ||| step == Step::Stopping
    ||| step == Step::Releasing
}

/// A scan is under way, or its end is.
pub open spec fn scanning(step: Step) -> bool {
    ||| step == Step::Subscribing
    ||| step == Step::Waiting
    ||| step == Step::Rearming
    ||| step == Step::Stopping
}

/// How often the service granted a claim.
pub open spec fn claims_granted(username: Seq<char>, course: Course) -> nat
    decreases course.len(),
{
    if course.len() == 0 {
        0
    } else {
        let asked = action_of(method_after(username, course.drop_last()));
        claims_granted(username, course.drop_last()) + if asked is Claim && course.last().1
            is Completed {
            1nat
        } else {
            0nat
        }
    }
}

/// How often the reader was given back: a release was asked for, and it was
/// answered or its time was up.
pub open spec fn releases(username: Seq<char>, course: Course) -> nat
    decreases course.len(),
{
    if course.len() == 0 {
        0
    } else {
        let asked = action_of(method_after(username, course.drop_last()));
        releases(username, course.drop_last()) + if asked is Release && tidied(course.last().1) {
            1nat
        } else {
            0nat
        }
    }
}

/// How often the service started a scan.
pub open spec fn scans_started(username: Seq<char>, course: Course) -> nat
    decreases course.len(),
{
    if course.len() == 0 {
        0
    } else {
        let asked = action_of(method_after(username, course.drop_last()));
        scans_started(username, course.drop_last()) + if asked is StartVerify && course.last().1
            is Completed {
            1nat
        } else {
            0nat
        }
    }
}

/// How often a scan was ended: the end was asked for and confirmed, or, when
/// tidying up, answered in any way or not in time.
pub open spec fn scans_stopped(username: Seq<char>, course: Course) -> nat
    decreases course.len(),
{
    if course.len() == 0 {
        0
    } else {
        let asked = action_of(method_after(username, course.drop_last()));
        let event = course.last().1;
        scans_stopped(username, course.drop_last()) + if (asked is FinishScan && event is Completed)
            || (asked is StopVerify && tidied(event)) {
            1nat
        } else {
            0nat
        }
    }
}

#[verifier::spinoff_prover]
#[verifier::rlimit(40)]
proof fn claim_balance(f: FingerprintState, s: Session, e: EventView)
    ensures
        ({
            let g = fingerprint_step(f, s, e).0;
            let granted = action_of(f) is Claim && e is Completed;
            let released = action_of(f) is Release && tidied(e);
            &&& granted ==> !holds_reader(f.step) && holds_reader(g.step)
            &&& released ==> holds_reader(f.step) && !holds_reader(g.step)
            &&& !granted && !released ==> holds_reader(g.step) == holds_reader(f.step)
        }),
{
}

#[verifier::spinoff_prover]
#[verifier::rlimit(40)]
proof fn scan_balance(f: FingerprintState, s: Session, e: EventView)
    ensures
        ({
            let g = fingerprint_step(f, s, e).0;
            let started = action_of(f) is StartVerify && e is Completed;
            let stopped = (action_of(f) == ActionView::FinishScan && e is Completed) || (action_of(f)
                is StopVerify && tidied(e));
            &&& started ==> !scanning(f.step) && scanning(g.step)
            &&& stopped ==> scanning(f.step) && !scanning(g.step)
            &&& !started && !stopped ==> scanning(g.step) == scanning(f.step)
        }),
{
}

/// The reader is held by at most one claim at a time, and every claim that was
/// granted has been given back when the method has ended.
pub proof fn what_is_claimed_is_released(username: Seq<char>, course: Course)
    ensures
        claims_granted(username, course) == releases(username, course) + if holds_reader(
            method_after(username, course).step,
        ) {
            1nat
        } else {
            0nat
        },
        method_after(username, course).step == Step::Done ==> claims_granted(username, course)
            == releases(username, course),
    decreases course.len(),
{
    if course.len() > 0 {
        what_is_claimed_is_released(username, course.drop_last());
        claim_balance(method_after(username, course.drop_last()), course.last().0, course.last().1);
    }
}

/// A claim was granted earlier: the reader is held, or the method has ended.
spec fn past_claim(step: Step) -> bool {
    holds_reader(step) || step == Step::Done
}

#[verifier::spinoff_prover]
#[verifier::rlimit(40)]
proof fn past_claim_stays(f: FingerprintState, s: Session, e: EventView)
    ensures
        past_claim(f.step) ==> past_claim(fingerprint_step(f, s, e).0.step) && !(action_of(f)
            is Claim),
{
}

/// The method is granted at most one claim: it never claims the reader again
/// once it has held it.
pub proof fn at_most_one_claim_is_granted(username: Seq<char>, course: Course)
    ensures
        claims_granted(username, course) <= 1,
        claims_granted(username, course) == 1 ==> holds_reader(method_after(username, course).step)
            || method_after(username, course).step == Step::Done,
    decreases course.len(),
{
    if course.len() > 0 {
        let f = method_after(username, course.drop_last());
        at_most_one_claim_is_granted(username, course.drop_last());
        claim_balance(f, course.last().0, course.last().1);
        past_claim_stays(f, course.last().0, course.last().1);
    }
}

/// How often the method had the password prompt interrupted.
pub open spec fn interrupts(username: Seq<char>, course: Course) -> nat
    decreases course.len(),
{
    if course.len() == 0 {
        0
    } else {
        let reply = fingerprint_step(
            method_after(username, course.drop_last()),
            course.last().0,
            course.last().1,
        ).2;
        interrupts(username, course.drop_last()) + if reply.interrupt {
            1nat
        } else {
            0nat
        }
    }
}

/// The method is tidying up or has ended.
pub open spec fn past_scanning(step: Step) -> bool {
    step == Step::Stopping || step == Step::Releasing || step == Step::Done
}

#[verifier::spinoff_prover]
#[verifier::rlimit(40)]
proof fn interrupt_and_outcome(f: FingerprintState, s: Session, e: EventView)
    requires
        f.outcome is Matched ==> past_scanning(f.step),
    ensures
        ({
            let (g, _, reply) = fingerprint_step(f, s, e);
            &&& g.outcome is Matched ==> past_scanning(g.step)
            &&& reply.interrupt ==> !(f.outcome is Matched) && g.outcome is Matched
            &&& !reply.interrupt ==> (g.outcome is Matched <==> f.outcome is Matched)
        }),
{
}

/// The password prompt is interrupted at most once: exactly once when the
/// outcome of the method is a match, and never otherwise.
pub proof fn interrupts_once_for_a_match(username: Seq<char>, course: Course)
    ensures
        interrupts(username, course) == if method_after(username, course).outcome is Matched {
            1nat
        } else {
            0nat
        },
        method_after(username, course).outcome is Matched ==> past_scanning(
            method_after(username, course).step,
        ),
    decreases course.len(),
{
    if course.len() > 0 {
        interrupts_once_for_a_match(username, course.drop_last());
        interrupt_and_outcome(
            method_after(username, course.drop_last()),
            course.last().0,
            course.last().1,
        );
    }
}

/// In every course of events it is the user's fingers that are listed and the
/// user for whom the reader is claimed, never anyone else's.
pub proof fn only_the_user_is_asked_for(username: Seq<char>, course: Course)
    ensures
        method_after(username, course).username == username,
        action_of(method_after(username, course)) matches ActionView::ListFingers { username: asked }
            ==> asked == username,
        action_of(method_after(username, course)) matches ActionView::Claim { username: asked }
            ==> asked == username,
    decreases course.len(),
{
    if course.len() > 0 {
        only_the_user_is_asked_for(username, course.drop_last());
        reply_fits_the_step(
            method_after(username, course.drop_last()),
            course.last().0,
            course.last().1,
        );
    }
}

/// At most one scan is under way at a time, and every scan that was started
/// has been stopped when the method has ended.
pub proof fn what_is_started_is_stopped(username: Seq<char>, course: Course)
    ensures
        scans_started(username, course) == scans_stopped(username, course) + if scanning(
            method_after(username, course).step,
        ) {
            1nat
        } else {
            0nat
        },
        method_after(username, course).step == Step::Done ==> scans_started(username, course)
            == scans_stopped(username, course),
    decreases course.len(),
{
    if course.len() > 0 {
        what_is_started_is_stopped(username, course.drop_last());
        scan_balance(method_after(username, course.drop_last()), course.last().0, course.last().1);
    }
}

/// The event lists at least one enrolled finger.
pub open spec fn lists_a_finger(e: EventView) -> bool {
    e matches EventView::Fingers { count } && count > 0
}

/// The service has reported an enrolled finger.
pub open spec fn finger_reported(course: Course) -> bool {
    exists|i: int| 0 <= i < course.len() && #[trigger] lists_a_finger(course[i].1)
}

/// The step comes after the list of enrolled fingers.
pub open spec fn past_listing(step: Step) -> bool {
    step == Step::Claiming || step == Step::Pausing || step == Step::Reclaiming || holds_reader(step)
}

/// No claim is made, and no scan started, without an enrolled finger.
#[verifier::spinoff_prover]
#[verifier::rlimit(40)]
pub proof fn no_claim_without_a_finger(username: Seq<char>, course: Course)
    ensures
        past_listing(method_after(username, course).step) ==> finger_reported(course),
        claims_granted(username, course) > 0 ==> finger_reported(course),
    decreases course.len(),
{
    if course.len() > 0 {
        let front = course.drop_last();
        no_claim_without_a_finger(username, front);
        if finger_reported(front) {
            let i = choose|i: int| 0 <= i < front.len() && #[trigger] lists_a_finger(front[i].1);
            assert(lists_a_finger(course[i].1));
        }
        if lists_a_finger(course.last().1) {
            assert(lists_a_finger(course[course.len() - 1].1));
        }
    }
}

/// The event is one that the step waits for.
pub open spec fn answers(step: Step, e: EventView) -> bool {
    match step {
        Step::Idle => e is Begin,
        Step::ListingFingers => e is Fingers || e is Failed,
        Step::Pausing => e is Elapsed,
        Step::Waiting => e is Signal || e is Elapsed || e is Closed || e is Failed,
        Step::Stopping | Step::Releasing => e is Completed || e is Failed || e is Elapsed,
        Step::Done => false,
        _ => e is Completed || e is Failed,
    }
}

/// How many more answers the method takes in, at most, once the run is over.
pub open spec fn patience(step: Step) -> nat {
    match step {
        Step::Done => 0,
        Step::Starting => 4,
        Step::Subscribing | Step::Waiting | Step::Rearming | Step::Restarting => 3,
        Step::OpeningDevice | Step::Claiming | Step::Reclaiming | Step::Stopping => 2,
        _ => 1,
    }
}

/// Once the run is over the method comes to its end: each answer brings it
/// nearer, and it asks for nothing that would hold a user up, neither a new
/// claim, nor a new scan, nor a pause, nor a signal.
#[verifier::spinoff_prover]
#[verifier::rlimit(40)]
pub proof fn ends_soon_after_the_run(f: FingerprintState, s: Session, e: EventView)
    requires
        is_over(s),
        answers(f.step, e),
    ensures
        ({
            let (g, t, reply) = fingerprint_step(f, s, e);
            &&& patience(g.step) < patience(f.step) <= 4
            &&& reply.action is ListFingers || reply.action == ActionView::Subscribe
                || reply.action is StopVerify || reply.action is Release || reply.action
                == ActionView::Finish
            &&& is_over(t)
        }),
{
}

/// A match ends the run with success and interrupts the password prompt; the
/// scan is stopped next.
pub proof fn match_succeeds_at_once(f: FingerprintState, s: Session, done: bool)
    requires
        f.step == Step::Waiting,
    ensures
        ({
            let (g, t, reply) = fingerprint_step(
                f,
                s,
                EventView::Signal { result: "verify-match"@, done },
            );
            &&& may_scan(s) ==> t.succeeded
            &&& reply.interrupt
            &&& reply.action is StopVerify
            &&& g.outcome == OutcomeView::Matched
        }),
{
}

/// The session after the fingerprint method has ended.
pub open spec fn closed_from(s: Session, t: Session) -> bool {
    ||| t == recorded(s, Report::FingerprintClosed)
    ||| t == notified(recorded(s, Report::FingerprintClosed))
    ||| t == recorded(notified(s), Report::FingerprintClosed)
}

/// The ways in which the fingerprint method changes the session: it records a
/// match, counts a scan without one, shows a notice, or closes itself.
#[verifier::spinoff_prover]
#[verifier::rlimit(40)]
pub proof fn fingerprint_moves(f: FingerprintState, s: Session, e: EventView)
    ensures
        ({
            let (g, t, _) = fingerprint_step(f, s, e);
            let matched = f.step == Step::Waiting && (e matches EventView::Signal { result, done }
                && result == "verify-match"@);
            if matched {
                t == recorded(s, Report::FingerprintMatched) && g.step != Step::Done
            } else {
                ||| t == s && (g.step == Step::Done ==> f.step == Step::Done)
                ||| t == notified(s) && g.step != Step::Done
                ||| t == notified(recorded(s, Report::FingerprintRejected)) && g.step != Step::Done
                ||| closed_from(s, t) && f.step != Step::Done
            }
        }),
{
}

/// The method lets a run succeed in no other way than by a match that the
/// reader signalled while the method waited for it, with scans left.
pub proof fn only_a_match_succeeds(f: FingerprintState, s: Session, e: EventView)
    requires
        !s.succeeded,
        fingerprint_step(f, s, e).1.succeeded,
    ensures
        f.step == Step::Waiting,
        e matches EventView::Signal { result, done } && result == "verify-match"@,
        may_scan(s),
{
    fingerprint_moves(f, s, e);
}

/// Whatever the reader does, the password method keeps what it has: a reader
/// that is missing, busy or broken only closes the fingerprint method.
pub proof fn password_method_is_left_alone(f: FingerprintState, s: Session, e: EventView)
    ensures
        ({
            let t = fingerprint_step(f, s, e).1;
            &&& t.password_failures == s.password_failures
            &&& t.password_open == s.password_open
            &&& t.options == s.options
            &&& t.cancelled == s.cancelled
            &&& password_left(s) && !is_over(s) && !t.succeeded ==> password_left(t) && !is_over(t)
        }),
{
    fingerprint_moves(f, s, e);
}

/// A method that has ended without recognising the user has closed itself.
pub proof fn end_is_reported(f: FingerprintState, s: Session, e: EventView)
    requires
        f.step != Step::Done,
        fingerprint_step(f, s, e).0.step == Step::Done,
    ensures
        !fingerprint_step(f, s, e).1.fingerprint_open || is_over(fingerprint_step(f, s, e).1),
{
    fingerprint_moves(f, s, e);
}

/// A reader that is in use is claimed again after each pause, for as long as
/// the run goes on: the method neither gives up nor skips the pause.
pub proof fn busy_reader_is_retried(f: FingerprintState, s: Session, text: Seq<char>)
    requires
        may_scan(s),
    ensures
        f.step == Step::Claiming && occurs(text, "AlreadyInUse"@) ==> fingerprint_step(
            f,
            s,
            EventView::Failed { text },
        ).2.action == (ActionView::Pause { millis: RETRY_MILLIS }),
        f.step == Step::Pausing ==> fingerprint_step(f, s, EventView::Elapsed).2.action == (
        ActionView::Claim { username: f.username }),
        f.step == Step::Reclaiming ==> fingerprint_step(
            f,
            s,
            EventView::Failed { text },
        ).2.action == (ActionView::Pause { millis: RETRY_MILLIS }),
        f.step == Step::Claiming || f.step == Step::Reclaiming ==> fingerprint_step(
            f,
            s,
            EventView::Completed,
        ).2.action is StartVerify,
{
}

/// A scan that ended without a match is counted, and followed by another one
/// if and only if attempts are left.
pub proof fn rejected_scan_is_counted(f: FingerprintState, s: Session)
    requires
        f.step == Step::Waiting,
        may_scan(s),
    ensures
        ({
            let (g, t, reply) = fingerprint_step(
                f,
                s,
                EventView::Signal { result: "verify-no-match"@, done: true },
            );
            &&& t.fingerprint_failures == s.fingerprint_failures + 1
            &&& t.fingerprint_failures < s.options.fingerprint_tries ==> reply.action
                == ActionView::FinishScan && fingerprint_step(g, t, EventView::Completed).2.action
                is StartVerify
            &&& t.fingerprint_failures == s.options.fingerprint_tries ==> reply.action is StopVerify
        }),
{
    reveal_strlit("verify-match");
    reveal_strlit("verify-no-match");
    assert("verify-match"@.len() != "verify-no-match"@.len());
}

/// The action asked for is always the one that the next step waits for, and
/// the user it is asked for stays the same.
#[verifier::spinoff_prover]
#[verifier::rlimit(40)]
pub proof fn reply_fits_the_step(f: FingerprintState, s: Session, e: EventView)
    ensures
        fingerprint_step(f, s, e).2.action == action_of(fingerprint_step(f, s, e).0),
        fingerprint_step(f, s, e).0.username == f.username,
{
}

} // verus!
