//! The password method: from one answer of the user, or of `crypt`, to the
//! next thing to do.
//!
//! The caller performs the action that a [`PasswordReply`] names, waits for
//! what comes of it, and hands this back as the next [`PasswordEvent`],
//! together with the session that it shares with the fingerprint method.

use vstd::prelude::*;
use vstd::slice::*;
use vstd::string::*;
use vstd::utf8::*;

use crate::codes::PAM_CONV_ERR;
use crate::session::{Colour, Report, Session, PASSWORD_PROMPT, WAITING_PROMPT};
#[allow(unused_imports)]
use crate::session::{
    is_over, left_prompt, lines_to_clear, notice_text, notified, password_left, prompt_of,
    recorded, warning_of,
};
use crate::shadow::{crypt_request, verify_password_hash, CryptRequest};
#[allow(unused_imports)]
use crate::shadow::{can_crypt, hash_confirms, reply_text};
#[allow(unused_imports)]
use crate::text::c_strings_hold_no_zero;

verus! {

/// How long to read and swallow keys before looking at the session again, in
/// milliseconds.
pub const SWALLOW_MILLIS: u64 = 100;

/// What the method is waiting for.
#[derive(Debug, Clone, Copy, PartialEq, Eq, Structural)]
pub enum PasswordStep {
    /// The signal to begin.
    Idle,
    /// A password.
    Prompting,
    /// What `crypt` makes of the password.
    Hashing,
    /// The end of the run, now that no password is taken any more.
    Waiting,
    /// Nothing more.
    Done,
}

/// What came of an action.
#[derive(Debug)]
pub enum PasswordEvent {
    /// The method is to begin.
    Begin,
    /// The user gave a password.
    Entered { password: String },
    /// There was no answer; the code says why.
    Failed { code: i32 },
    /// The user pressed Ctrl+C.
    Cancelled,
    /// What `crypt` returned, if anything.
    Hashed { reply: Option<Vec<u8>> },
    /// The time is up.
    Elapsed,
}

/// What to do next.
#[derive(Debug)]
pub enum PasswordAction {
    /// Hand in [`PasswordEvent::Begin`].
    Begin,
    /// Read a password from the terminal after this prompt, showing asterisks.
    ReadStars { prompt: &'static str },
    /// Ask for a password with this prompt through the application.
    Converse { prompt: &'static str },
    /// Call `crypt`.
    Crypt { request: CryptRequest },
    /// Swallow keys for a while.
    Swallow { millis: u64 },
    Finish,
}

/// An entry in the log. None holds a password or a hash.
#[derive(Debug, Clone, Copy, PartialEq, Eq, Structural)]
pub enum PasswordRecord {
    /// A password is about to be asked for.
    PromptStarting,
    /// The question was answered, or could not be put.
    PromptReturned,
    /// There was no password; the code says why.
    PromptFailed { code: i32 },
    /// A password is about to be checked.
    CryptStarting,
    /// The password was right.
    Accepted,
    /// The password was wrong.
    Refused,
}

/// What the method wants done.
#[derive(Debug)]
pub struct PasswordReply {
    pub action: PasswordAction,
    /// To be written to the terminal first.
    pub notice: Option<String>,
    /// A password was checked just now, and this is what came of it.
    pub checked: Option<bool>,
    /// To be entered in the log first, in this order.
    pub records: Vec<PasswordRecord>,
}

/// The state of the method.
#[derive(Debug)]
pub struct PasswordAuth {
    pub step: PasswordStep,
    /// Passwords are read from the terminal, showing asterisks.
    pub stars: bool,
    /// The user's password hash.
    pub hash: String,
    /// The password that `crypt` is working on.
    pub entered: String,
}

/// A [`PasswordEvent`] with its texts as sequences of characters.
pub ghost enum PasswordEventView {
    Begin,
    Entered { password: Seq<char> },
    Failed { code: i32 },
    Cancelled,
    Hashed { encrypted: Option<Seq<char>> },
    Elapsed,
}

/// A [`PasswordAction`] with its C strings as sequences of bytes.
pub ghost enum PasswordActionView {
    Begin,
    ReadStars { prompt: Seq<char> },
    Converse { prompt: Seq<char> },
    Crypt { key: Seq<u8>, salt: Seq<u8> },
    Swallow { millis: u64 },
    Finish,
}

/// A [`PasswordReply`] with its texts as sequences.
pub ghost struct PasswordReplyView {
    pub action: PasswordActionView,
    pub notice: Option<Seq<char>>,
    pub checked: Option<bool>,
    pub records: Seq<PasswordRecord>,
}

/// The state of the method, with its texts as sequences of characters.
pub ghost struct PasswordState {
    pub step: PasswordStep,
    pub stars: bool,
    pub hash: Seq<char>,
    pub entered: Seq<char>,
}

impl View for PasswordEvent {
    type V = PasswordEventView;

    open spec fn view(&self) -> PasswordEventView {
        match *self {
            PasswordEvent::Begin => PasswordEventView::Begin,
            PasswordEvent::Entered { password } => PasswordEventView::Entered {
                password: password@,
            },
            PasswordEvent::Failed { code } => PasswordEventView::Failed { code },
            PasswordEvent::Cancelled => PasswordEventView::Cancelled,
            PasswordEvent::Hashed { reply } => PasswordEventView::Hashed {
                encrypted: reply_text(reply),
            },
            PasswordEvent::Elapsed => PasswordEventView::Elapsed,
        }
    }
}

impl View for PasswordAction {
    type V = PasswordActionView;

    open spec fn view(&self) -> PasswordActionView {
        match *self {
            PasswordAction::Begin => PasswordActionView::Begin,
            PasswordAction::ReadStars { prompt } => PasswordActionView::ReadStars {
                prompt: prompt@,
            },
            PasswordAction::Converse { prompt } => PasswordActionView::Converse {
                prompt: prompt@,
            },
            PasswordAction::Crypt { request } => PasswordActionView::Crypt {
                key: request.key@,
                salt: request.salt@,
            },
            PasswordAction::Swallow { millis } => PasswordActionView::Swallow { millis },
            PasswordAction::Finish => PasswordActionView::Finish,
        }
    }
}

impl View for PasswordReply {
    type V = PasswordReplyView;

    open spec fn view(&self) -> PasswordReplyView {
        PasswordReplyView {
            action: self.action@,
            notice: match self.notice {
                Some(text) => Some(text@),
                None => None,
            },
            checked: self.checked,
            records: self.records@,
        }
    }
}

impl View for PasswordAuth {
    type V = PasswordState;

    open spec fn view(&self) -> PasswordState {
        PasswordState {
            step: self.step,
            stars: self.stars,
            hash: self.hash@,
            entered: self.entered@,
        }
    }
}

/// The method before it begins.
pub open spec fn unprompted(hash: Seq<char>, stars: bool) -> PasswordState {
    PasswordState { step: PasswordStep::Idle, stars, hash, entered: Seq::empty() }
}

/// What to do to get what the method waits for.
pub open spec fn password_action(p: PasswordState) -> PasswordActionView {
    match p.step {
        PasswordStep::Idle => PasswordActionView::Begin,
        PasswordStep::Prompting => if p.stars {
            PasswordActionView::ReadStars { prompt: PASSWORD_PROMPT@ }
        } else {
            PasswordActionView::Converse { prompt: PASSWORD_PROMPT@ }
        },
        PasswordStep::Hashing => PasswordActionView::Crypt {
            key: encode_utf8(p.entered),
            salt: encode_utf8(p.hash),
        },
        PasswordStep::Waiting => PasswordActionView::Swallow { millis: SWALLOW_MILLIS },
        PasswordStep::Done => PasswordActionView::Finish,
    }
}

/// The entry in the log for what the method goes on to do: a question is
/// announced.
pub open spec fn announced(p: PasswordState) -> Seq<PasswordRecord> {
    if p.step == PasswordStep::Prompting {
        seq![PasswordRecord::PromptStarting]
    } else {
        Seq::empty()
    }
}

/// A reply that asks for what the method waits for, with these entries in the
/// log and nothing besides.
pub open spec fn bare(p: PasswordState, records: Seq<PasswordRecord>) -> PasswordReplyView {
    PasswordReplyView { action: password_action(p), notice: None, checked: None, records }
}

/// The method goes on to a state.
pub open spec fn turned(p: PasswordState, s: Session, records: Seq<PasswordRecord>) -> (
    PasswordState,
    Session,
    PasswordReplyView,
) {
    (p, s, bare(p, records))
}

/// Where the method goes when no password is being dealt with: to the next
/// prompt while attempts are left; where they are used up, to wait for the
/// other method; and to its end when the run is over.
pub open spec fn next_step(s: Session) -> PasswordStep {
    if is_over(s) {
        PasswordStep::Done
    } else if password_left(s) {
        PasswordStep::Prompting
    } else if s.password_open {
        PasswordStep::Waiting
    } else {
        PasswordStep::Done
    }
}

/// A password was wrong. While the run is not over this uses up an attempt,
/// and the shared warning is shown in place of the earlier one. The prompt is
/// written along with it unless the next question brings its own.
pub open spec fn refused(p: PasswordState, s: Session) -> (
    PasswordState,
    Session,
    PasswordReplyView,
) {
    if is_over(s) || !password_left(s) {
        let q = PasswordState { step: next_step(s), entered: Seq::empty(), ..p };
        (
            q,
            s,
            PasswordReplyView {
                checked: Some(false),
                ..bare(q, seq![PasswordRecord::Refused] + announced(q))
            },
        )
    } else {
        let counted = recorded(s, Report::PasswordRejected);
        let q = PasswordState { step: next_step(counted), entered: Seq::empty(), ..p };
        let prompt = if password_left(counted) {
            Seq::empty()
        } else {
            prompt_of(counted)
        };
        let notice = if s.tty {
            Some(
                notice_text(
                    lines_to_clear(counted),
                    Colour::Red,
                    warning_of(counted),
                    prompt,
                ),
            )
        } else {
            None
        };
        (
            q,
            notified(counted),
            PasswordReplyView {
                notice,
                checked: Some(false),
                ..bare(q, seq![PasswordRecord::Refused] + announced(q))
            },
        )
    }
}

/// The state, the session and the reply after an event. A password that is
/// entered, and Ctrl+C, move the cursor to the line below the prompt. An event
/// that the step does not wait for changes nothing.
pub open spec fn password_step(p: PasswordState, s: Session, e: PasswordEventView) -> (
    PasswordState,
    Session,
    PasswordReplyView,
) {
    match (p.step, e) {
        (PasswordStep::Idle, PasswordEventView::Begin) => {
            let q = PasswordState { step: next_step(s), ..p };
            let notice = if q.step == PasswordStep::Waiting && s.tty {
                Some(WAITING_PROMPT@)
            } else {
                None
            };
            (q, s, PasswordReplyView { notice, ..bare(q, announced(q)) })
        },
        (PasswordStep::Prompting, PasswordEventView::Entered { password }) => {
            let records = seq![PasswordRecord::PromptReturned, PasswordRecord::CryptStarting];
            if can_crypt(password, p.hash) {
                turned(
                    PasswordState { step: PasswordStep::Hashing, entered: password, ..p },
                    left_prompt(s),
                    records,
                )
            } else {
                let (q, t, reply) = refused(p, left_prompt(s));
                (q, t, PasswordReplyView { records: records + reply.records, ..reply })
            }
        },
        (PasswordStep::Prompting, PasswordEventView::Failed { code }) => turned(
            PasswordState { step: PasswordStep::Done, ..p },
            recorded(s, Report::PasswordClosed),
            seq![PasswordRecord::PromptReturned, PasswordRecord::PromptFailed { code }],
        ),
        (PasswordStep::Prompting, PasswordEventView::Cancelled) => turned(
            PasswordState { step: PasswordStep::Done, ..p },
            left_prompt(recorded(s, Report::Cancelled)),
            seq![
                PasswordRecord::PromptReturned,
                PasswordRecord::PromptFailed { code: PAM_CONV_ERR },
            ],
        ),
        (PasswordStep::Waiting, PasswordEventView::Cancelled) => turned(
            PasswordState { step: PasswordStep::Done, ..p },
            left_prompt(recorded(s, Report::Cancelled)),
            Seq::empty(),
        ),
        (PasswordStep::Hashing, PasswordEventView::Hashed { encrypted }) => if hash_confirms(
            p.entered,
            p.hash,
            encrypted,
        ) {
            let q = PasswordState { step: PasswordStep::Done, entered: Seq::empty(), ..p };
            (
                q,
                recorded(s, Report::PasswordAccepted),
                PasswordReplyView {
                    checked: Some(true),
                    ..bare(q, seq![PasswordRecord::Accepted])
                },
            )
        } else {
            refused(p, s)
        },
        (PasswordStep::Waiting, PasswordEventView::Elapsed) => {
            let q = PasswordState { step: next_step(s), ..p };
            turned(q, s, announced(q))
        },
        _ => turned(p, s, Seq::empty()),
    }
}

impl PasswordAuth {
    /// The method before it begins, for a user with this password hash.
    pub fn new(hash: String, stars: bool) -> (auth: PasswordAuth)
        ensures
            auth@ == unprompted(hash@, stars),
    {
        PasswordAuth { step: PasswordStep::Idle, stars, hash, entered: String::new() }
    }
}

fn pending_action(auth: &PasswordAuth) -> (action: PasswordAction)
    ensures
        action@ == password_action(auth@),
{
    match auth.step {
        PasswordStep::Idle => PasswordAction::Begin,
        PasswordStep::Prompting => if auth.stars {
            PasswordAction::ReadStars { prompt: PASSWORD_PROMPT }
        } else {
            PasswordAction::Converse { prompt: PASSWORD_PROMPT }
        },
        PasswordStep::Hashing => PasswordAction::Crypt {
            request: CryptRequest {
                key: slice_to_vec(auth.entered.as_str().as_bytes()),
                salt: slice_to_vec(auth.hash.as_str().as_bytes()),
            },
        },
        PasswordStep::Waiting => PasswordAction::Swallow { millis: SWALLOW_MILLIS },
        PasswordStep::Done => PasswordAction::Finish,
    }
}

fn announce(auth: &PasswordAuth) -> (records: Vec<PasswordRecord>)
    ensures
        records@ == announced(auth@),
{
    let mut records: Vec<PasswordRecord> = Vec::new();
    match auth.step {
        PasswordStep::Prompting => {
            records.push(PasswordRecord::PromptStarting);
        },
        _ => {},
    }
    assert(records@ =~= announced(auth@));
    records
}

fn turn(auth: &PasswordAuth, records: Vec<PasswordRecord>) -> (reply: PasswordReply)
    ensures
        reply@ == bare(auth@, records@),
{
    PasswordReply { action: pending_action(auth), notice: None, checked: None, records }
}

fn choose_step(session: &Session) -> (step: PasswordStep)
    ensures
        step == next_step(*session),
{
    if session.is_over() {
        PasswordStep::Done
    } else if session.password_left() {
        PasswordStep::Prompting
    } else if session.password_open {
        PasswordStep::Waiting
    } else {
        PasswordStep::Done
    }
}

fn refuse(auth: &mut PasswordAuth, session: &mut Session, records: Vec<PasswordRecord>) -> (reply:
    PasswordReply)
    ensures
        ({
            let (q, t, refusal) = refused(old(auth)@, *old(session));
            &&& final(auth)@ == q
            &&& *final(session) == t
            &&& reply@ == (PasswordReplyView { records: records@ + refusal.records, ..refusal })
        }),
{
    let mut records: Vec<PasswordRecord> = records;
    let ghost before = records@;
    records.push(PasswordRecord::Refused);
    auth.entered = String::new();
    let mut notice: Option<String> = None;
    if session.is_over() || !session.password_left() {
        auth.step = choose_step(session);
    } else {
        session.record(Report::PasswordRejected);
        auth.step = choose_step(session);
        let warning: String = session.warning();
        let prompt: &'static str = if session.password_left() {
            proof {
                reveal_strlit("");
                assert(""@ =~= Seq::<char>::empty());
            }
            ""
        } else {
            session.prompt()
        };
        notice = session.notice(Colour::Red, warning.as_str(), prompt);
    }
    let mut more: Vec<PasswordRecord> = announce(auth);
    records.append(&mut more);
    assert(records@ =~= before + (seq![PasswordRecord::Refused] + announced(auth@)));
    PasswordReply { action: pending_action(auth), notice, checked: Some(false), records }
}

fn give_up(auth: &PasswordAuth, code: i32) -> (reply: PasswordReply)
    ensures
        reply@ == bare(
            auth@,
            seq![PasswordRecord::PromptReturned, PasswordRecord::PromptFailed { code }],
        ),
{
    let records: Vec<PasswordRecord> = vec![
        PasswordRecord::PromptReturned,
        PasswordRecord::PromptFailed { code },
    ];
    assert(records@ =~= seq![PasswordRecord::PromptReturned, PasswordRecord::PromptFailed { code }]);
    turn(auth, records)
}

/// Takes in what came of the last action and says what to do next. The method
/// has ended when the action is [`PasswordAction::Finish`].
///
/// A reply of `crypt` in valid UTF-8 confirms the password if and only if it
/// is the hash, byte for byte.
pub fn run_password_auth(auth: &mut PasswordAuth, session: &mut Session, event: PasswordEvent) -> (reply:
    PasswordReply)
    ensures
        (final(auth)@, *final(session), reply@) == password_step(
            old(auth)@,
            *old(session),
            event@,
        ),
        old(auth).step == PasswordStep::Hashing ==> (event matches PasswordEvent::Hashed {
            reply: Some(bytes),
        } ==> valid_utf8(bytes@) ==> hash_confirms(
            old(auth).entered@,
            old(auth).hash@,
            reply_text(Some(bytes)),
        ) == (can_crypt(old(auth).entered@, old(auth).hash@) && bytes@ == encode_utf8(
            old(auth).hash@,
        ))),
        old(auth).step == PasswordStep::Prompting ==> (event matches PasswordEvent::Entered {
            password,
        } ==> !encode_utf8(password@).contains(0u8) && !encode_utf8(old(auth).hash@).contains(0u8)
            ==> (reply.action matches PasswordAction::Crypt { request } && request.key@
            == encode_utf8(password@) && request.salt@ == encode_utf8(old(auth).hash@))),
        old(auth).step == PasswordStep::Hashing ==> (event matches PasswordEvent::Hashed {
            reply: Some(bytes),
        } ==> valid_utf8(bytes@) && !encode_utf8(old(auth).entered@).contains(0u8) && !encode_utf8(
            old(auth).hash@,
        ).contains(0u8) ==> reply.checked == Some(bytes@ == encode_utf8(old(auth).hash@))),
        old(auth).step == PasswordStep::Hashing ==> (event matches PasswordEvent::Hashed {
            reply: None,
        } ==> reply.checked == Some(false)),
        reply.action matches PasswordAction::ReadStars { prompt } ==> prompt@ == "Password: "@,
        reply.action matches PasswordAction::Converse { prompt } ==> prompt@ == "Password: "@,
        reply.action matches PasswordAction::Swallow { millis } ==> millis == 100,
        reply.action is Crypt <==> final(auth).step == PasswordStep::Hashing,
        reply.action is Finish <==> final(auth).step == PasswordStep::Done,
        final(auth).hash@ == old(auth).hash@,
        final(auth).stars == old(auth).stars,
{
    proof {
        c_strings_hold_no_zero(encode_utf8(old(auth).hash@));
        c_strings_hold_no_zero(encode_utf8(old(auth).entered@));
        if event is Entered {
            c_strings_hold_no_zero(encode_utf8(event->password@));
        }
    }
    match (auth.step, event) {
        (PasswordStep::Idle, PasswordEvent::Begin) => {
            auth.step = choose_step(session);
            let mut reply: PasswordReply = turn(auth, announce(auth));
            if auth.step == PasswordStep::Waiting && session.tty {
                reply.notice = Some(WAITING_PROMPT.to_owned());
            }
            reply
        },
        (PasswordStep::Prompting, PasswordEvent::Entered { password }) => {
            let records: Vec<PasswordRecord> = vec![
                PasswordRecord::PromptReturned,
                PasswordRecord::CryptStarting,
            ];
            assert(records@ =~= seq![PasswordRecord::PromptReturned, PasswordRecord::CryptStarting]);
            session.leave_prompt();
            if crypt_request(password.as_str(), auth.hash.as_str()).is_some() {
                auth.entered = password;
                auth.step = PasswordStep::Hashing;
                turn(auth, records)
            } else {
                refuse(auth, session, records)
            }
        },
        (PasswordStep::Prompting, PasswordEvent::Failed { code }) => {
            session.record(Report::PasswordClosed);
            auth.step = PasswordStep::Done;
            give_up(auth, code)
        },
        (PasswordStep::Prompting, PasswordEvent::Cancelled) => {
            session.record(Report::Cancelled);
            session.leave_prompt();
            auth.step = PasswordStep::Done;
            give_up(auth, PAM_CONV_ERR)
        },
        (PasswordStep::Waiting, PasswordEvent::Cancelled) => {
            session.record(Report::Cancelled);
            session.leave_prompt();
            auth.step = PasswordStep::Done;
            turn(auth, Vec::new())
        },
        (PasswordStep::Hashing, PasswordEvent::Hashed { reply }) => {
            if verify_password_hash(auth.entered.as_str(), auth.hash.as_str(), reply) {
                session.record(Report::PasswordAccepted);
                auth.entered = String::new();
                auth.step = PasswordStep::Done;
                let records: Vec<PasswordRecord> = vec![PasswordRecord::Accepted];
                assert(records@ =~= seq![PasswordRecord::Accepted]);
                PasswordReply {
                    action: PasswordAction::Finish,
                    notice: None,
                    checked: Some(true),
                    records,
                }
            } else {
                let answer: PasswordReply = refuse(auth, session, Vec::new());
                proof {
                    let refusal = refused(old(auth)@, *old(session)).2;
                    assert(Seq::<PasswordRecord>::empty() + refusal.records =~= refusal.records);
                }
                answer
            }
        },
        (PasswordStep::Waiting, PasswordEvent::Elapsed) => {
            auth.step = choose_step(session);
            turn(auth, announce(auth))
        },
        _ => turn(auth, Vec::new()),
    }
}

/// What shows of a checked password, on the terminal, in the log and in what
/// the method does next, is whether it was right: neither the password nor the
/// hash, nor what `crypt` made of them.
pub proof fn only_the_verdict_shows(
    one: PasswordState,
    other: PasswordState,
    s: Session,
    encrypted_one: Option<Seq<char>>,
    encrypted_other: Option<Seq<char>>,
)
    requires
        one.step == PasswordStep::Hashing,
        other.step == PasswordStep::Hashing,
        one.stars == other.stars,
        hash_confirms(one.entered, one.hash, encrypted_one) == hash_confirms(
            other.entered,
            other.hash,
            encrypted_other,
        ),
    ensures
        ({
            let (p, t, reply_one) = password_step(
                one,
                s,
                PasswordEventView::Hashed { encrypted: encrypted_one },
            );
            let (q, u, reply_other) = password_step(
                other,
                s,
                PasswordEventView::Hashed { encrypted: encrypted_other },
            );
            &&& reply_one.checked == reply_other.checked
            &&& reply_one.action == reply_other.action
            &&& reply_one.notice == reply_other.notice
            &&& reply_one.records == reply_other.records
            &&& t == u
            &&& p.step == q.step
        }),
{
}

/// What comes of a password that is entered, once `crypt` has answered where
/// it is asked: the state, the session and the entries in the log.
#[verifier::opaque]
pub open spec fn attempted(
    p: PasswordState,
    s: Session,
    password: Seq<char>,
    encrypted: Option<Seq<char>>,
) -> (PasswordState, Session, Seq<PasswordRecord>) {
    let (q, t, reply) = password_step(p, s, PasswordEventView::Entered { password });
    if q.step == PasswordStep::Hashing {
        let (end, u, verdict) = password_step(q, t, PasswordEventView::Hashed { encrypted });
        (end, u, reply.records + verdict.records)
    } else {
        (q, t, reply.records)
    }
}

/// The session after a password that was entered, and was wrong.
pub open spec fn after_refusal(s: Session) -> Session {
    if is_over(s) || !password_left(s) {
        left_prompt(s)
    } else {
        notified(recorded(left_prompt(s), Report::PasswordRejected))
    }
}

/// A right password is accepted, and the method ends.
pub proof fn right_password_is_accepted(
    p: PasswordState,
    s: Session,
    password: Seq<char>,
    encrypted: Option<Seq<char>>,
)
    requires
        p.step == PasswordStep::Prompting,
        hash_confirms(password, p.hash, encrypted),
    ensures
        ({
            let (q, t, records) = attempted(p, s, password, encrypted);
            &&& q.step == PasswordStep::Done
            &&& t == recorded(left_prompt(s), Report::PasswordAccepted)
            &&& records == seq![
                PasswordRecord::PromptReturned,
                PasswordRecord::CryptStarting,
                PasswordRecord::Accepted,
            ]
        }),
{
    reveal(attempted);
    assert(attempted(p, s, password, encrypted).2 =~= seq![
        PasswordRecord::PromptReturned,
        PasswordRecord::CryptStarting,
        PasswordRecord::Accepted,
    ]);
}

/// A wrong password is refused, and the method goes on where the session lets
/// it.
#[verifier::spinoff_prover]
pub proof fn wrong_password_is_refused(
    p: PasswordState,
    s: Session,
    password: Seq<char>,
    encrypted: Option<Seq<char>>,
)
    requires
        p.step == PasswordStep::Prompting,
        !hash_confirms(password, p.hash, encrypted),
    ensures
        ({
            let (q, t, records) = attempted(p, s, password, encrypted);
            &&& q.step == next_step(t)
            &&& t == after_refusal(s)
            &&& records == seq![
                PasswordRecord::PromptReturned,
                PasswordRecord::CryptStarting,
                PasswordRecord::Refused,
            ] + announced(q)
        }),
{
    reveal(attempted);
    let (q, t, records) = attempted(p, s, password, encrypted);
    assert(records =~= seq![
        PasswordRecord::PromptReturned,
        PasswordRecord::CryptStarting,
        PasswordRecord::Refused,
    ] + announced(q));
}

/// Two passwords, each with its hash, that are both right or both wrong leave
/// the same entries in the log: neither password nor hash reaches it, only the
/// verdict.
pub proof fn log_tells_only_the_verdict(
    one: PasswordState,
    other: PasswordState,
    s: Session,
    password_one: Seq<char>,
    password_other: Seq<char>,
    encrypted_one: Option<Seq<char>>,
    encrypted_other: Option<Seq<char>>,
)
    requires
        one.step == PasswordStep::Prompting,
        other.step == PasswordStep::Prompting,
        hash_confirms(password_one, one.hash, encrypted_one) == hash_confirms(
            password_other,
            other.hash,
            encrypted_other,
        ),
    ensures
        ({
            let (p, t, records_one) = attempted(one, s, password_one, encrypted_one);
            let (q, u, records_other) = attempted(other, s, password_other, encrypted_other);
            &&& records_one == records_other
            &&& t == u
            &&& p.step == q.step
            &&& hash_confirms(password_one, one.hash, encrypted_one) ==> records_one
                =~= seq![
                PasswordRecord::PromptReturned,
                PasswordRecord::CryptStarting,
                PasswordRecord::Accepted,
            ]
            &&& !hash_confirms(password_one, one.hash, encrypted_one) ==> records_one =~= seq![
                PasswordRecord::PromptReturned,
                PasswordRecord::CryptStarting,
                PasswordRecord::Refused,
            ] + announced(p)
        }),
{
    if hash_confirms(password_one, one.hash, encrypted_one) {
        right_password_is_accepted(one, s, password_one, encrypted_one);
        right_password_is_accepted(other, s, password_other, encrypted_other);
    } else {
        wrong_password_is_refused(one, s, password_one, encrypted_one);
        wrong_password_is_refused(other, s, password_other, encrypted_other);
    }
}

/// The method after a course of events, each with the session as the method
/// finds it.
pub open spec fn prompting_after(
    hash: Seq<char>,
    stars: bool,
    course: Seq<(Session, PasswordEventView)>,
) -> PasswordState
    decreases course.len(),
{
    if course.len() == 0 {
        unprompted(hash, stars)
    } else {
        password_step(
            prompting_after(hash, stars, course.drop_last()),
            course.last().0,
            course.last().1,
        ).0
    }
}

/// The entries that a course of events leaves in the log.
pub open spec fn log_after(
    hash: Seq<char>,
    stars: bool,
    course: Seq<(Session, PasswordEventView)>,
) -> Seq<PasswordRecord>
    decreases course.len(),
{
    if course.len() == 0 {
        Seq::empty()
    } else {
        log_after(hash, stars, course.drop_last()) + password_step(
            prompting_after(hash, stars, course.drop_last()),
            course.last().0,
            course.last().1,
        ).2.records
    }
}

/// Two events are the same but for the password, which can or cannot be handed
/// to `crypt` in both, and for the answer of `crypt`, which confirms the
/// password in both or in neither.
pub open spec fn events_alike(
    one: PasswordState,
    e: PasswordEventView,
    other: PasswordState,
    d: PasswordEventView,
) -> bool {
    match (e, d) {
        (
            PasswordEventView::Entered { password: left },
            PasswordEventView::Entered { password: right },
        ) => can_crypt(left, one.hash) == can_crypt(right, other.hash),
        (
            PasswordEventView::Hashed { encrypted: left },
            PasswordEventView::Hashed { encrypted: right },
        ) => hash_confirms(one.entered, one.hash, left) == hash_confirms(
            other.entered,
            other.hash,
            right,
        ),
        _ => e == d,
    }
}

/// Two courses of events, for users with different hashes, find the same
/// sessions and have events that are alike.
pub open spec fn courses_alike(
    hash_one: Seq<char>,
    hash_other: Seq<char>,
    stars: bool,
    one: Seq<(Session, PasswordEventView)>,
    other: Seq<(Session, PasswordEventView)>,
) -> bool
    decreases one.len(),
{
    &&& one.len() == other.len()
    &&& one.len() > 0 ==> {
        &&& courses_alike(hash_one, hash_other, stars, one.drop_last(), other.drop_last())
        &&& one.last().0 == other.last().0
        &&& events_alike(
            prompting_after(hash_one, stars, one.drop_last()),
            one.last().1,
            prompting_after(hash_other, stars, other.drop_last()),
            other.last().1,
        )
    }
}

#[verifier::spinoff_prover]
proof fn like_events_are_answered_alike(
    one: PasswordState,
    e: PasswordEventView,
    other: PasswordState,
    d: PasswordEventView,
    s: Session,
)
    requires
        one.step == other.step,
        events_alike(one, e, other, d),
    ensures
        password_step(one, s, e).0.step == password_step(other, s, d).0.step,
        password_step(one, s, e).2.records == password_step(other, s, d).2.records,
{
}

/// Two whole runs of the method that differ in passwords and hashes alone, and
/// not in whether a password was right, leave the same log.
pub proof fn logs_of_like_runs_are_equal(
    hash_one: Seq<char>,
    hash_other: Seq<char>,
    stars: bool,
    one: Seq<(Session, PasswordEventView)>,
    other: Seq<(Session, PasswordEventView)>,
)
    requires
        courses_alike(hash_one, hash_other, stars, one, other),
    ensures
        log_after(hash_one, stars, one) == log_after(hash_other, stars, other),
        prompting_after(hash_one, stars, one).step == prompting_after(
            hash_other,
            stars,
            other,
        ).step,
    decreases one.len(),
{
    if one.len() > 0 {
        logs_of_like_runs_are_equal(
            hash_one,
            hash_other,
            stars,
            one.drop_last(),
            other.drop_last(),
        );
        like_events_are_answered_alike(
            prompting_after(hash_one, stars, one.drop_last()),
            one.last().1,
            prompting_after(hash_other, stars, other.drop_last()),
            other.last().1,
            one.last().0,
        );
    }
}

} // verus!
