//! What the password method does with each thing that happens to it.

use vstd::prelude::*;
#[allow(unused_imports)]
use vstd::string::*;
#[allow(unused_imports)]
use vstd::utf8::*;

#[allow(unused_imports)]
use crate::password::{
    password_step, unprompted, PasswordAction, PasswordActionView, PasswordAuth, PasswordEvent,
    PasswordEventView, PasswordRecord, PasswordReply, PasswordState, PasswordStep,
};
#[allow(unused_imports)]
use crate::session::{
    answer_of, is_over, lines_to_clear, notice_text, prompt_of, warning_of, Colour, Session,
};
#[allow(unused_imports)]
use crate::session_laws::{
    endings_are_recorded, failure_is_recorded, password_counts, prompt_follows_the_counts,
    run_goes_on_while_either_counts, scan_counts, screen_is_kept_apart, success_is_recorded,
};
#[allow(unused_imports)]
use crate::shadow::{can_crypt, hash_confirms};
#[allow(unused_imports)]
use crate::text::{c_strings_hold_no_zero, lossy_text};

verus! {

/// The text can be a C string: the byte zero does not occur in it.
pub open spec fn fits_a_c_string(text: Seq<char>) -> bool {
    !encode_utf8(text).contains(0u8)
}

/// The question for a password: on the terminal with asterisks where they are
/// asked for, and through the application otherwise.
pub open spec fn question(p: PasswordState) -> PasswordActionView {
    if p.stars {
        PasswordActionView::ReadStars { prompt: "Password: "@ }
    } else {
        PasswordActionView::Converse { prompt: "Password: "@ }
    }
}

/// What the method does when no password is at hand: it asks while a password
/// counts; it swallows keys, for 100 milliseconds at a time, while a scan
/// counts; and it ends when neither does, or when no password can be had.
pub open spec fn proceeds(p: PasswordState, s: Session) -> PasswordActionView {
    if password_counts(s) {
        question(p)
    } else if scan_counts(s) && s.password_open {
        PasswordActionView::Swallow { millis: 100 }
    } else {
        PasswordActionView::Finish
    }
}

/// The entry in the log for what the method goes on to do.
pub open spec fn question_entry(s: Session) -> Seq<PasswordRecord> {
    if password_counts(s) {
        seq![PasswordRecord::PromptStarting]
    } else {
        Seq::empty()
    }
}

/// The action is the one that the step needs: nothing is asked for that the
/// next event could not answer, and no password but the one entered, and no
/// salt but the user's hash, go to `crypt`.
pub proof fn action_serves_the_step(p: PasswordState, s: Session, e: PasswordEventView)
    ensures
        ({
            let (q, t, reply) = password_step(p, s, e);
            &&& q.hash == p.hash && q.stars == p.stars
            &&& match q.step {
                PasswordStep::Idle => reply.action == PasswordActionView::Begin,
                PasswordStep::Prompting => reply.action == question(p),
                PasswordStep::Hashing => reply.action == (PasswordActionView::Crypt {
                    key: encode_utf8(q.entered),
                    salt: encode_utf8(p.hash),
                }),
                PasswordStep::Waiting => reply.action == (PasswordActionView::Swallow {
                    millis: 100,
                }),
                PasswordStep::Done => reply.action == PasswordActionView::Finish,
            }
        }),
{
}

/// The method begins by asking for a password. Where no password is taken from
/// the start, a terminal shows that a finger is waited for.
pub proof fn method_begins_by_asking(hash: Seq<char>, stars: bool, s: Session)
    ensures
        ({
            let p = unprompted(hash, stars);
            let (q, t, reply) = password_step(p, s, PasswordEventView::Begin);
            &&& p.hash == hash && p.stars == stars && p.entered.len() == 0
            &&& t == s && q.hash == hash && q.stars == stars && q.entered.len() == 0
            &&& reply.action == proceeds(p, s)
            &&& reply.notice == (if scan_counts(s) && !password_counts(s) && s.password_open
                && s.tty {
                Some("Waiting for fingerprint..."@)
            } else {
                None
            })
            &&& reply.checked is None
            &&& reply.records == question_entry(s)
        }),
{
    run_goes_on_while_either_counts(s);
}

/// A password that is entered goes to `crypt` as it is, whole, with the user's
/// hash for its salt, whatever the session and however many passwords came
/// before it. Nothing is decided yet.
pub proof fn whole_password_goes_to_crypt(p: PasswordState, s: Session, password: Seq<char>)
    requires
        p.step == PasswordStep::Prompting,
        fits_a_c_string(password),
        fits_a_c_string(p.hash),
    ensures
        ({
            let (q, t, reply) = password_step(p, s, PasswordEventView::Entered { password });
            &&& reply.action == (PasswordActionView::Crypt {
                key: encode_utf8(password),
                salt: encode_utf8(p.hash),
            })
            &&& q == (PasswordState { step: PasswordStep::Hashing, entered: password, ..p })
            &&& t == (Session { below_prompt: true, ..s })
            &&& reply.notice is None && reply.checked is None
            &&& reply.records == seq![PasswordRecord::PromptReturned, PasswordRecord::CryptStarting]
        }),
{
    c_strings_hold_no_zero(encode_utf8(password));
    c_strings_hold_no_zero(encode_utf8(p.hash));
}

/// Two passwords that differ in anything are told apart: `crypt` is handed
/// different keys.
pub proof fn different_passwords_are_different_keys(
    p: PasswordState,
    s: Session,
    one: Seq<char>,
    other: Seq<char>,
)
    requires
        p.step == PasswordStep::Prompting,
        fits_a_c_string(one),
        fits_a_c_string(other),
        fits_a_c_string(p.hash),
        one != other,
    ensures
        password_step(p, s, PasswordEventView::Entered { password: one }).2.action
            != password_step(p, s, PasswordEventView::Entered { password: other }).2.action,
{
    whole_password_goes_to_crypt(p, s, one);
    whole_password_goes_to_crypt(p, s, other);
    encode_utf8_decode_utf8(one);
    encode_utf8_decode_utf8(other);
}

/// When `crypt` comes out at the user's hash the password was right: it lets
/// the user in if a password still counts, and the method ends.
pub proof fn users_hash_lets_the_user_in(p: PasswordState, s: Session)
    requires
        p.step == PasswordStep::Hashing,
        fits_a_c_string(p.entered),
        fits_a_c_string(p.hash),
    ensures
        ({
            let (q, t, reply) = password_step(
                p,
                s,
                PasswordEventView::Hashed { encrypted: Some(p.hash) },
            );
            &&& t == (if password_counts(s) {
                Session { succeeded: true, ..s }
            } else {
                s
            })
            &&& q.step == PasswordStep::Done && q.entered.len() == 0
            &&& reply.action == PasswordActionView::Finish
            &&& reply.checked == Some(true) && reply.notice is None
            &&& reply.records == seq![PasswordRecord::Accepted]
        }),
{
    c_strings_hold_no_zero(encode_utf8(p.entered));
    c_strings_hold_no_zero(encode_utf8(p.hash));
    success_is_recorded(s);
}

/// From the prompt to the answer: a password for which `crypt` comes out at
/// the user's hash is answered 0, however many were wrong before it, as long
/// as a password still counts when the verdict comes.
pub proof fn right_password_is_answered_with_success(
    p: PasswordState,
    s: Session,
    password: Seq<char>,
    later: Session,
)
    requires
        p.step == PasswordStep::Prompting,
        fits_a_c_string(password),
        fits_a_c_string(p.hash),
        password_counts(later),
    ensures
        ({
            let q = password_step(p, s, PasswordEventView::Entered { password }).0;
            let t = password_step(
                q,
                later,
                PasswordEventView::Hashed { encrypted: Some(p.hash) },
            ).1;
            answer_of(t) == 0
        }),
{
    whole_password_goes_to_crypt(p, s, password);
    let q = password_step(p, s, PasswordEventView::Entered { password }).0;
    users_hash_lets_the_user_in(q, later);
}

/// What a wrong password brings about in the session `s`: an attempt is used up
/// if a password counts, and nothing else changes but the screen.
pub open spec fn charged(s: Session, t: Session) -> bool {
    if password_counts(s) {
        &&& t.password_failures == s.password_failures + 1
        &&& t == (if s.tty {
            Session {
                password_failures: t.password_failures,
                line_above: true,
                below_prompt: false,
                ..s
            }
        } else {
            Session { password_failures: t.password_failures, ..s }
        })
    } else {
        t == s
    }
}

/// The notice that a wrong password brings about: where it used up an attempt,
/// the warning with the new count, in red. After the last one the prompt that
/// follows is written along with it.
pub open spec fn warned(s: Session, t: Session) -> Option<Seq<char>> {
    if password_counts(s) && s.tty {
        Some(
            notice_text(
                lines_to_clear(s),
                Colour::Red,
                warning_of(t),
                if password_counts(t) {
                    Seq::empty()
                } else {
                    prompt_of(t)
                },
            ),
        )
    } else {
        None
    }
}

proof fn warning_and_prompt_ignore_the_screen(s: Session, t: Session)
    requires
        t == (Session { line_above: t.line_above, below_prompt: t.below_prompt, ..s }),
    ensures
        warning_of(t) == warning_of(s),
        prompt_of(t) == prompt_of(s),
{
}

/// When `crypt` comes out at anything but the user's hash, or at nothing, the
/// password was wrong: it uses up an attempt, the warning is shown, and the
/// method goes on with the next question, with waiting, or to its end.
#[verifier::spinoff_prover]
#[verifier::rlimit(40)]
pub proof fn other_hash_is_refused(p: PasswordState, s: Session, encrypted: Option<Seq<char>>)
    requires
        p.step == PasswordStep::Hashing,
        encrypted != Some(p.hash),
    ensures
        ({
            let (q, t, reply) = password_step(p, s, PasswordEventView::Hashed { encrypted });
            &&& charged(s, t)
            &&& q.entered.len() == 0
            &&& reply.action == proceeds(p, t)
            &&& reply.notice == warned(s, t)
            &&& reply.checked == Some(false)
            &&& reply.records =~= seq![PasswordRecord::Refused] + question_entry(t)
        }),
{
    let (q, t, reply) = password_step(p, s, PasswordEventView::Hashed { encrypted });
    run_goes_on_while_either_counts(s);
    run_goes_on_while_either_counts(t);
    failure_is_recorded(s);
    let counted = crate::session::recorded(s, crate::session::Report::PasswordRejected);
    screen_is_kept_apart(counted);
    if password_counts(s) {
        warning_and_prompt_ignore_the_screen(counted, t);
    }
}

/// A password that holds a zero byte is wrong without `crypt` being asked: it
/// is charged and answered like any other wrong one.
#[verifier::spinoff_prover]
#[verifier::rlimit(40)]
pub proof fn unusable_password_is_refused(p: PasswordState, s: Session, password: Seq<char>)
    requires
        p.step == PasswordStep::Prompting,
        !fits_a_c_string(password) || !fits_a_c_string(p.hash),
    ensures
        ({
            let entered = Session { below_prompt: true, ..s };
            let (q, t, reply) = password_step(p, s, PasswordEventView::Entered { password });
            &&& charged(entered, t)
            &&& q.entered.len() == 0
            &&& reply.action == proceeds(p, t)
            &&& reply.notice == warned(entered, t)
            &&& reply.checked == Some(false)
            &&& reply.records =~= seq![
                PasswordRecord::PromptReturned,
                PasswordRecord::CryptStarting,
                PasswordRecord::Refused,
            ] + question_entry(t)
        }),
{
    c_strings_hold_no_zero(encode_utf8(password));
    c_strings_hold_no_zero(encode_utf8(p.hash));
    let entered = Session { below_prompt: true, ..s };
    let (q, t, reply) = password_step(p, s, PasswordEventView::Entered { password });
    run_goes_on_while_either_counts(entered);
    run_goes_on_while_either_counts(t);
    failure_is_recorded(entered);
    let counted = crate::session::recorded(entered, crate::session::Report::PasswordRejected);
    screen_is_kept_apart(counted);
    if password_counts(entered) {
        warning_and_prompt_ignore_the_screen(counted, t);
    }
}

/// A question that cannot be answered ends the password method and nothing
/// else: a scan can still let the user in.
pub proof fn failed_question_ends_this_method_only(p: PasswordState, s: Session, code: i32)
    requires
        p.step == PasswordStep::Prompting,
    ensures
        ({
            let (q, t, reply) = password_step(p, s, PasswordEventView::Failed { code });
            &&& t == (if password_counts(s) || scan_counts(s) {
                Session { password_open: false, ..s }
            } else {
                s
            })
            &&& scan_counts(t) == scan_counts(s)
            &&& reply.action == PasswordActionView::Finish
            &&& reply.notice is None && reply.checked is None
            &&& reply.records == seq![
                PasswordRecord::PromptReturned,
                PasswordRecord::PromptFailed { code },
            ]
        }),
{
    endings_are_recorded(s);
}

/// Ctrl+C, at the prompt or while keys are swallowed, ends the run at once: no
/// password and no scan count any more.
pub proof fn interrupt_ends_everything(p: PasswordState, s: Session)
    requires
        p.step == PasswordStep::Prompting || p.step == PasswordStep::Waiting,
    ensures
        ({
            let (q, t, reply) = password_step(p, s, PasswordEventView::Cancelled);
            &&& t == (Session {
                cancelled: s.cancelled || password_counts(s) || scan_counts(s),
                below_prompt: true,
                ..s
            })
            &&& !password_counts(t) && !scan_counts(t)
            &&& reply.action == PasswordActionView::Finish
            &&& reply.notice is None && reply.checked is None
            &&& reply.records =~= (if p.step == PasswordStep::Prompting {
                seq![PasswordRecord::PromptReturned, PasswordRecord::PromptFailed { code: 19 }]
            } else {
                Seq::empty()
            })
        }),
{
    endings_are_recorded(s);
}

/// While a scan counts, keys are swallowed again after each pause; the pause
/// changes nothing.
pub proof fn waiting_goes_on_while_a_scan_counts(p: PasswordState, s: Session)
    requires
        p.step == PasswordStep::Waiting,
    ensures
        ({
            let (q, t, reply) = password_step(p, s, PasswordEventView::Elapsed);
            &&& t == s && q.entered == p.entered
            &&& reply.action == proceeds(p, s)
            &&& scan_counts(s) && !password_counts(s) && s.password_open ==> reply.action
                == PasswordActionView::Swallow { millis: 100 } && q == p
            &&& !scan_counts(s) && !password_counts(s) ==> reply.action
                == PasswordActionView::Finish
            &&& reply.notice is None && reply.checked is None
            &&& reply.records == question_entry(s)
        }),
{
    run_goes_on_while_either_counts(s);
}

/// The event is one that the step waits for.
pub open spec fn is_awaited(step: PasswordStep, e: PasswordEventView) -> bool {
    match step {
        PasswordStep::Idle => e is Begin,
        PasswordStep::Prompting => e is Entered || e is Failed || e is Cancelled,
        PasswordStep::Hashing => e is Hashed,
        PasswordStep::Waiting => e is Elapsed || e is Cancelled,
        PasswordStep::Done => false,
    }
}

/// Anything else changes nothing, and is neither shown nor logged.
pub proof fn unawaited_events_change_nothing(p: PasswordState, s: Session, e: PasswordEventView)
    requires
        !is_awaited(p.step, e),
    ensures
        ({
            let (q, t, reply) = password_step(p, s, e);
            &&& q == p && t == s
            &&& reply.notice is None && reply.checked is None && reply.records.len() == 0
        }),
{
}

/// What happens to the method is taken as it is: an event is seen as the kind
/// it is, with the whole password or all that `crypt` returned.
pub proof fn events_are_taken_as_they_are(event: PasswordEvent)
    ensures
        match event {
            PasswordEvent::Begin => event@ == PasswordEventView::Begin,
            PasswordEvent::Entered { password } => event@ == (PasswordEventView::Entered {
                password: password@,
            }),
            PasswordEvent::Failed { code } => event@ == (PasswordEventView::Failed { code }),
            PasswordEvent::Cancelled => event@ == PasswordEventView::Cancelled,
            PasswordEvent::Hashed { reply: Some(bytes) } => event@ == (PasswordEventView::Hashed {
                encrypted: Some(lossy_text(bytes@)),
            }),
            PasswordEvent::Hashed { reply: None } => event@ == (PasswordEventView::Hashed {
                encrypted: None,
            }),
            PasswordEvent::Elapsed => event@ == PasswordEventView::Elapsed,
        },
{
}

/// What the method asks for is seen as it is.
pub proof fn actions_are_seen_as_they_are(action: PasswordAction)
    ensures
        match action@ {
            PasswordActionView::Begin => action is Begin,
            PasswordActionView::ReadStars { prompt: seen } => action
                matches PasswordAction::ReadStars { prompt } && prompt@ == seen,
            PasswordActionView::Converse { prompt: seen } => action
                matches PasswordAction::Converse { prompt } && prompt@ == seen,
            PasswordActionView::Crypt { key, salt } => action matches PasswordAction::Crypt {
                request,
            } && request.key@ == key && request.salt@ == salt,
            PasswordActionView::Swallow { millis: seen } => action
                matches PasswordAction::Swallow { millis } && millis == seen,
            PasswordActionView::Finish => action is Finish,
        },
{
}

/// A reply and the state of the method are seen with all that they hold.
pub proof fn reply_and_state_are_seen_whole(reply: PasswordReply, auth: PasswordAuth)
    ensures
        reply@.action == reply.action@,
        reply@.notice is None <==> reply.notice is None,
        reply.notice matches Some(text) ==> reply@.notice == Some(text@),
        reply@.checked == reply.checked,
        reply@.records == reply.records@,
        auth@.step == auth.step,
        auth@.stars == auth.stars,
        auth@.hash == auth.hash@,
        auth@.entered == auth.entered@,
{
}

} // verus!
