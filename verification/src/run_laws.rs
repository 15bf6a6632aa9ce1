//! What holds of both methods together, in whatever order their events come.

use vstd::prelude::*;

#[allow(unused_imports)]
use crate::codes::{PAM_AUTH_ERR, PAM_SUCCESS};
#[allow(unused_imports)]
use crate::fingerprint::{
    fingerprint_step, idle, shown, EventView, FingerprintState, Notice, Step,
};
use crate::options::Options;
#[allow(unused_imports)]
use crate::password::{
    password_step, unprompted, PasswordActionView, PasswordEventView, PasswordState, PasswordStep,
};
#[allow(unused_imports)]
use crate::reader_laws::{fingerprint_moves, reply_fits_the_step};
#[allow(unused_imports)]
use crate::session::{
    answer_of, fingerprint_left, follows, fresh, holds_from_its_cause, is_over, left_prompt,
    password_left, prompt_of, within_limits, Session, WAITING_PROMPT,
};
#[allow(unused_imports)]
use crate::shadow::can_crypt;

verus! {

/// Both methods and what they share.
pub ghost struct Run {
    pub session: Session,
    pub password: PasswordState,
    pub fingerprint: FingerprintState,
}

/// An event of one of the methods.
pub ghost enum RunEvent {
    Password(PasswordEventView),
    Fingerprint(EventView),
}

/// What does not change in a run: the options, the user's name and password
/// hash, and which terminals there are.
pub ghost struct Setting {
    pub options: Options,
    pub username: Seq<char>,
    pub hash: Seq<char>,
    pub stars: bool,
    pub tty: bool,
}

/// A run before either method has begun.
pub open spec fn opened(setting: Setting) -> Run {
    Run {
        session: fresh(setting.options, setting.tty),
        password: unprompted(setting.hash, setting.stars),
        fingerprint: idle(setting.username),
    }
}

/// The run after an event.
pub open spec fn run_step(run: Run, event: RunEvent) -> Run {
    match event {
        RunEvent::Password(event) => {
            let (password, session, _) = password_step(run.password, run.session, event);
            Run { session, password, ..run }
        },
        RunEvent::Fingerprint(event) => {
            let (fingerprint, session, _) = fingerprint_step(run.fingerprint, run.session, event);
            Run { session, fingerprint, ..run }
        },
    }
}

/// The run after a series of events, in the order in which they came.
pub open spec fn run_after(setting: Setting, events: Seq<RunEvent>) -> Run
    decreases events.len(),
{
    if events.len() == 0 {
        opened(setting)
    } else {
        run_step(run_after(setting, events.drop_last()), events.last())
    }
}

/// What holds at every moment of a run.
pub open spec fn run_invariant(setting: Setting, run: Run) -> bool {
    &&& within_limits(run.session)
    &&& run.session.options == setting.options
    &&& run.password.hash == setting.hash
    &&& run.password.step == PasswordStep::Prompting || run.password.step == PasswordStep::Hashing
        ==> password_left(run.session)
    &&& run.password.step == PasswordStep::Hashing ==> can_crypt(run.password.entered, setting.hash)
    &&& run.password.step == PasswordStep::Done ==> is_over(run.session)
        || !run.session.password_open
    &&& run.fingerprint.step == Step::Done ==> is_over(run.session)
        || !run.session.fingerprint_open
    &&& run.fingerprint.username == setting.username
    &&& under_way(run.fingerprint.step) ==> fingerprint_left(run.session)
}

/// The fingerprint method has begun and is not tidying up yet.
pub open spec fn under_way(step: Step) -> bool {
    step != Step::Idle && step != Step::Stopping && step != Step::Releasing && step != Step::Done
}

/// What one of the methods was waiting for has come: the hash of the password
/// just entered is the user's hash, or the finger matched.
pub open spec fn identifies(run: Run, event: RunEvent) -> bool {
    match event {
        RunEvent::Password(event) => {
            &&& run.password.step == PasswordStep::Hashing
            &&& event == PasswordEventView::Hashed { encrypted: Some(run.password.hash) }
        },
        RunEvent::Fingerprint(event) => {
            &&& run.fingerprint.step == Step::Waiting
            &&& event matches EventView::Signal { result, done } && result == "verify-match"@
        },
    }
}

/// The event lets the user in: it identifies the user, and the run is not over
/// yet.
pub open spec fn recognises(run: Run, event: RunEvent) -> bool {
    identifies(run, event) && !is_over(run.session)
}

proof fn password_step_facts(setting: Setting, run: Run, event: PasswordEventView)
    requires
        run_invariant(setting, run),
    ensures
        ({
            let next = run_step(run, RunEvent::Password(event));
            &&& run_invariant(setting, next)
            &&& next.session.succeeded <==> run.session.succeeded || recognises(
                run,
                RunEvent::Password(event),
            )
            &&& is_over(run.session) ==> is_over(next.session)
            &&& run.session.cancelled ==> next.session.cancelled
        }),
{
}

#[verifier::spinoff_prover]
#[verifier::rlimit(40)]
proof fn attempts_while_under_way(f: FingerprintState, s: Session, e: EventView)
    requires
        under_way(f.step) ==> fingerprint_left(s),
    ensures
        ({
            let (g, t, _) = fingerprint_step(f, s, e);
            under_way(g.step) ==> fingerprint_left(t)
        }),
{
}

proof fn fingerprint_step_facts(setting: Setting, run: Run, event: EventView)
    requires
        run_invariant(setting, run),
    ensures
        ({
            let next = run_step(run, RunEvent::Fingerprint(event));
            &&& run_invariant(setting, next)
            &&& next.session.succeeded <==> run.session.succeeded || recognises(
                run,
                RunEvent::Fingerprint(event),
            )
            &&& is_over(run.session) ==> is_over(next.session)
            &&& run.session.cancelled ==> next.session.cancelled
        }),
{
    fingerprint_moves(run.fingerprint, run.session, event);
    attempts_while_under_way(run.fingerprint, run.session, event);
    reply_fits_the_step(run.fingerprint, run.session, event);
}

proof fn run_step_facts(setting: Setting, run: Run, event: RunEvent)
    requires
        run_invariant(setting, run),
    ensures
        run_invariant(setting, run_step(run, event)),
        run_step(run, event).session.succeeded <==> run.session.succeeded || recognises(run, event),
        is_over(run.session) ==> is_over(run_step(run, event).session),
        run.session.cancelled ==> run_step(run, event).session.cancelled,
{
    match event {
        RunEvent::Password(event) => {
            password_step_facts(setting, run, event);
        },
        RunEvent::Fingerprint(event) => {
            fingerprint_step_facts(setting, run, event);
        },
    }
}

/// The invariant holds at every moment of every run.
pub proof fn invariant_holds(setting: Setting, events: Seq<RunEvent>)
    ensures
        run_invariant(setting, run_after(setting, events)),
    decreases events.len(),
{
    if events.len() > 0 {
        invariant_holds(setting, events.drop_last());
        run_step_facts(setting, run_after(setting, events.drop_last()), events.last());
    }
}

/// The event at `at` lets the user in.
pub open spec fn lets_in_at(setting: Setting, events: Seq<RunEvent>, at: int) -> bool {
    &&& 0 <= at < events.len()
    &&& recognises(run_after(setting, events.take(at)), events[at])
}

/// The module answers `PAM_SUCCESS` if and only if, at some moment of the run,
/// the hash of an entered password was the user's or a finger matched; and
/// `PAM_AUTH_ERR` otherwise.
pub proof fn success_if_and_only_if_recognised(setting: Setting, events: Seq<RunEvent>)
    ensures
        ({
            let answer = answer_of(run_after(setting, events).session);
            &&& answer == PAM_SUCCESS <==> exists|at: int| lets_in_at(setting, events, at)
            &&& answer == PAM_SUCCESS || answer == PAM_AUTH_ERR
        }),
{
    let held = |at: int| run_after(setting, events.take(at)).session.succeeded;
    let cause = |at: int| lets_in_at(setting, events, at);
    assert forall|at: int| 0 <= at < events.len() implies #[trigger] follows(
        held,
        cause,
        at,
    ) by {
        assert(events.take(at + 1).drop_last() =~= events.take(at));
        invariant_holds(setting, events.take(at));
        run_step_facts(setting, run_after(setting, events.take(at)), events[at]);
    }
    holds_from_its_cause(held, cause, events.len() as int);
    assert(events.take(events.len() as int) =~= events);
    if exists|at: int| lets_in_at(setting, events, at) {
        let at = choose|at: int| lets_in_at(setting, events, at);
        assert(cause(at));
    }
}

/// A run that has succeeded, and one that the user has broken off, stay so
/// whatever events still come in.
pub proof fn outcome_stays(setting: Setting, events: Seq<RunEvent>, at: int)
    requires
        0 <= at <= events.len(),
    ensures
        ({
            let then = run_after(setting, events.take(at)).session;
            let end = run_after(setting, events).session;
            &&& then.succeeded ==> end.succeeded
            &&& then.cancelled ==> end.cancelled
        }),
    decreases events.len(),
{
    if at == events.len() {
        assert(events.take(at) =~= events);
    } else {
        let front = events.drop_last();
        outcome_stays(setting, front, at);
        assert(front.take(at) =~= events.take(at));
        invariant_holds(setting, front);
        run_step_facts(setting, run_after(setting, front), events.last());
    }
}

/// The event at `at` identifies the user.
pub open spec fn identified_at(setting: Setting, events: Seq<RunEvent>, at: int) -> bool {
    &&& 0 <= at < events.len()
    &&& identifies(run_after(setting, events.take(at)), events[at])
}

/// In a run that the user did not break off, the module answers `PAM_SUCCESS`
/// if and only if, at some moment, the hash of an entered password was the
/// user's or the reader, while it was listened to, reported a match.
pub proof fn success_if_and_only_if_identified(setting: Setting, events: Seq<RunEvent>)
    requires
        !run_after(setting, events).session.cancelled,
    ensures
        ({
            let answer = answer_of(run_after(setting, events).session);
            &&& answer == PAM_SUCCESS <==> exists|at: int| identified_at(setting, events, at)
            &&& answer == PAM_SUCCESS || answer == PAM_AUTH_ERR
        }),
{
    success_if_and_only_if_recognised(setting, events);
    if exists|at: int| lets_in_at(setting, events, at) {
        let at = choose|at: int| lets_in_at(setting, events, at);
        assert(identified_at(setting, events, at));
    }
    if exists|at: int| identified_at(setting, events, at) {
        let at = choose|at: int| identified_at(setting, events, at);
        invariant_holds(setting, events.take(at));
        outcome_stays(setting, events, at);
        if !is_over(run_after(setting, events.take(at)).session) {
            assert(lets_in_at(setting, events, at));
        }
    }
}

/// An answer once earned is not lost, and a run that is over stays over,
/// whatever events still come in.
pub proof fn end_is_final(setting: Setting, events: Seq<RunEvent>, late: RunEvent)
    ensures
        ({
            let run = run_after(setting, events);
            let after = run_after(setting, events.push(late));
            &&& is_over(run.session) ==> is_over(after.session)
            &&& is_over(run.session) ==> answer_of(after.session) == answer_of(run.session)
        }),
{
    let run = run_after(setting, events);
    assert(events.push(late).drop_last() =~= events);
    invariant_holds(setting, events);
    run_step_facts(setting, run, late);
    match late {
        RunEvent::Password(event) => {},
        RunEvent::Fingerprint(event) => {
            assert(recognises(run, late) ==> !is_over(run.session));
        },
    }
}

/// When both methods have ended without recognising the user, the user broke
/// off or neither method had attempts left: the module does not give up while
/// one of them could still succeed.
pub proof fn gives_up_only_when_nothing_is_left(setting: Setting, events: Seq<RunEvent>)
    ensures
        ({
            let run = run_after(setting, events);
            run.password.step == PasswordStep::Done && run.fingerprint.step == Step::Done ==> {
                ||| run.session.succeeded
                ||| run.session.cancelled
                ||| !password_left(run.session) && !fingerprint_left(run.session)
            }
        }),
{
    invariant_holds(setting, events);
}

/// A password is asked for only while attempts are left and the run is not
/// over.
pub proof fn asks_only_within_the_limit(p: PasswordState, s: Session, e: PasswordEventView)
    requires
        p.step != PasswordStep::Prompting,
        password_step(p, s, e).0.step == PasswordStep::Prompting,
    ensures
        password_left(password_step(p, s, e).1),
        !is_over(password_step(p, s, e).1),
{
}

/// A wrong password is counted. While attempts are left it is followed by the
/// next question; after the last one keys are swallowed under the waiting
/// prompt for as long as a finger can still match.
pub proof fn wrong_password_is_counted(p: PasswordState, s: Session, encrypted: Option<Seq<char>>)
    requires
        p.step == PasswordStep::Hashing,
        !is_over(s),
        password_left(s),
        encrypted != Some(p.hash),
    ensures
        ({
            let (q, t, reply) = password_step(p, s, PasswordEventView::Hashed { encrypted });
            &&& t.password_failures == s.password_failures + 1
            &&& password_left(t) ==> q.step == PasswordStep::Prompting
            &&& !password_left(t) && fingerprint_left(t) ==> reply.action is Swallow && prompt_of(t)
                == WAITING_PROMPT@
            &&& !password_left(t) && !fingerprint_left(t) ==> reply.action
                == PasswordActionView::Finish
        }),
{
}

/// Ctrl+C ends the run at once, without success.
pub proof fn interrupt_ends_the_run(p: PasswordState, s: Session)
    requires
        p.step == PasswordStep::Prompting || p.step == PasswordStep::Waiting,
        !is_over(s),
    ensures
        ({
            let (q, t, reply) = password_step(p, s, PasswordEventView::Cancelled);
            &&& is_over(t)
            &&& answer_of(t) == PAM_AUTH_ERR
            &&& reply.action == PasswordActionView::Finish
        }),
{
}

/// Once the run is over the password method ends with the next thing that
/// happens to it: a prompt that is interrupted, a pause that is up, or an
/// answer of `crypt`. A password that comes in late is handed to `crypt` first.
pub proof fn password_method_ends_after_the_run(p: PasswordState, s: Session, e: PasswordEventView)
    requires
        is_over(s),
        ({
            ||| p.step == PasswordStep::Prompting && (e is Failed || e is Cancelled)
            ||| p.step == PasswordStep::Waiting && (e is Elapsed || e is Cancelled)
            ||| p.step == PasswordStep::Hashing && e is Hashed
            ||| p.step == PasswordStep::Idle && e is Begin
        }),
    ensures
        password_step(p, s, e).0.step == PasswordStep::Done,
        password_step(p, s, e).1 == (if e is Cancelled {
            left_prompt(s)
        } else {
            s
        }),
        password_step(p, s, e).2.action == PasswordActionView::Finish,
{
}

/// Whatever the password method does, the fingerprint method keeps what it has.
pub proof fn fingerprint_method_is_left_alone(p: PasswordState, s: Session, e: PasswordEventView)
    ensures
        ({
            let t = password_step(p, s, e).1;
            &&& t.fingerprint_failures == s.fingerprint_failures
            &&& t.fingerprint_open == s.fingerprint_open
            &&& t.options == s.options
        }),
{
}

/// Without a terminal nothing is written.
#[verifier::spinoff_prover]
#[verifier::rlimit(40)]
pub proof fn silent_without_a_terminal(
    p: PasswordState,
    f: FingerprintState,
    s: Session,
    e: PasswordEventView,
    g: EventView,
)
    requires
        !s.tty,
    ensures
        password_step(p, s, e).2.notice is None,
        fingerprint_step(f, s, g).2.notice is None,
{
    assert forall|t: Session, notice: Notice| !t.tty implies #[trigger] shown(t, notice) is None by {
        reveal(shown);
    }
}

} // verus!
