//! The multi-step authentication state machine: phone, code, optional
//! password, then persistence of the authorized session.
//!
//! The machine is pure: each interactive prompt, remote call and storage
//! write is an action handed to the surrounding program, and what that work
//! produced comes back as the next event. Every transition of the flow is
//! decided and proved here; the surrounding program only performs the
//! actions.

use vstd::prelude::*;
use crate::session::StorageError;

verus! {

/// One-time token representing an outstanding verification-code request; it
/// is consumed by the sign-in call and carries no further state.
#[derive(Clone, Copy, PartialEq, Eq, Structural, Debug)]
pub struct LoginToken {}

/// One-time token representing an outstanding two-factor password challenge.
#[derive(PartialEq, Eq, Debug)]
pub struct PasswordToken {
    pub hint: String,
}

impl PasswordToken {
    /// A password challenge always carries a non-empty hint.
    pub open spec fn wf(self) -> bool {
        self.hint@.len() > 0
    }

    pub fn new(hint: String) -> (t: PasswordToken)
        requires
            hint@.len() > 0,
        ensures
            t.hint == hint,
            t.wf(),
    {
        PasswordToken { hint }
    }
}

/// Failure of a single remote call.
#[derive(Clone, Copy, PartialEq, Eq, Structural, Debug)]
pub enum InvocationError {
    /// The connection was closed before or while the call ran.
    ConnectionClosed,
    /// The remote side rejected the call.
    Rejected,
}

/// Outcome of the sign-in call beyond plain success.
#[derive(PartialEq, Eq, Debug)]
pub enum SignInError {
    /// The account has two-factor protection; the expected alternate path.
    PasswordRequired { token: PasswordToken },
    /// Any other failure, unrecoverable for this flow.
    Other,
}

/// The states of the authentication flow.
#[derive(Clone, Copy, PartialEq, Eq, Structural, Debug)]
pub enum AuthState {
    /// Connected, authorization not yet checked.
    Connected,
    /// Unauthorized; the phone number is being prompted for.
    AwaitingPhone,
    /// The login-code request is in flight.
    CodeRequested,
    /// A code was sent; it is being prompted for and signed in with.
    AwaitingCode,
    /// Sign-in demanded a password; it is being prompted for and checked.
    AwaitingPassword,
    /// Authorized; the session is being persisted.
    Authorized,
    /// Terminal: authorized and the session was stored.
    PersistedDone,
    /// Terminal: authorized but storing failed, so the session must be
    /// revoked on exit.
    UnpersistedDone,
    /// Terminal: the flow aborted on an unrecoverable error.
    Fatal,
}

/// What the surrounding program reports back to the flow: the result of the
/// prompt, remote call or storage write it was asked to perform.
#[derive(PartialEq, Eq, Debug)]
pub enum AuthEvent {
    /// Whether the loaded session is already authorized.
    AuthorizationChecked { authorized: bool },
    /// The phone number the user entered.
    PhoneEntered { phone: String },
    /// The login-code request finished.
    CodeRequestFinished { outcome: Result<LoginToken, InvocationError> },
    /// The user entered the code and the sign-in call finished.
    SignInFinished { outcome: Result<(), SignInError> },
    /// The user entered the password and the check finished.
    PasswordCheckFinished { outcome: Result<(), InvocationError> },
    /// The attempt to persist the session finished.
    SaveFinished { outcome: Result<(), StorageError> },
}

/// What the flow asks the surrounding program to do next.
#[derive(PartialEq, Eq, Debug)]
pub enum AuthAction {
    /// Prompt for the phone number.
    PromptPhone,
    /// Ask the remote side to send a login code to this phone.
    RequestLoginCode { phone: String },
    /// Prompt for the received code and sign in with it.
    PromptCode,
    /// Prompt for the account password, showing this hint, and check it.
    PromptPassword { hint: String },
    /// Persist the now-authorized session.
    PersistSession,
    /// The flow is over; revoke the session on exit iff `sign_out`.
    Finish { sign_out: bool },
    /// The flow aborted; surface the failure.
    Abort,
}

/// Which events can answer which state: each non-terminal state awaits
/// exactly one kind of report, and terminal states await none.
pub open spec fn event_fits(s: AuthState, e: AuthEvent) -> bool {
    match (s, e) {
        (AuthState::Connected, AuthEvent::AuthorizationChecked { .. }) => true,
        (AuthState::AwaitingPhone, AuthEvent::PhoneEntered { .. }) => true,
        (AuthState::CodeRequested, AuthEvent::CodeRequestFinished { .. }) => true,
        (AuthState::AwaitingCode, AuthEvent::SignInFinished { .. }) => true,
        (AuthState::AwaitingPassword, AuthEvent::PasswordCheckFinished { .. }) => true,
        (AuthState::Authorized, AuthEvent::SaveFinished { .. }) => true,
        _ => false,
    }
}

/// A password challenge carried by an event has a non-empty hint.
pub open spec fn event_wf(e: AuthEvent) -> bool {
    e matches AuthEvent::SignInFinished {
        outcome: Err(SignInError::PasswordRequired { token }),
    } ==> token.wf()
}

/// The state each event leads to. Since each event answers exactly one
/// state, the event alone determines the successor.
pub open spec fn step_state(e: AuthEvent) -> AuthState {
    match e {
        AuthEvent::AuthorizationChecked { authorized } => if authorized {
            AuthState::Authorized
        } else {
            AuthState::AwaitingPhone
        },
        AuthEvent::PhoneEntered { .. } => AuthState::CodeRequested,
        AuthEvent::CodeRequestFinished { outcome } => if outcome is Ok {
            AuthState::AwaitingCode
        } else {
            AuthState::Fatal
        },
        AuthEvent::SignInFinished { outcome } => match outcome {
            Ok(_) => AuthState::Authorized,
            Err(SignInError::PasswordRequired { .. }) => AuthState::AwaitingPassword,
            Err(SignInError::Other) => AuthState::Fatal,
        },
        AuthEvent::PasswordCheckFinished { outcome } => if outcome is Ok {
            AuthState::Authorized
        } else {
            AuthState::Fatal
        },
        AuthEvent::SaveFinished { outcome } => if outcome is Ok {
            AuthState::PersistedDone
        } else {
            AuthState::UnpersistedDone
        },
    }
}

/// The action each event provokes.
pub open spec fn step_action(e: AuthEvent) -> AuthAction {
    match e {
        AuthEvent::AuthorizationChecked { authorized } => if authorized {
            AuthAction::PersistSession
        } else {
            AuthAction::PromptPhone
        },
        AuthEvent::PhoneEntered { phone } => AuthAction::RequestLoginCode { phone },
        AuthEvent::CodeRequestFinished { outcome } => if outcome is Ok {
            AuthAction::PromptCode
        } else {
            AuthAction::Abort
        },
        AuthEvent::SignInFinished { outcome } => match outcome {
            Ok(_) => AuthAction::PersistSession,
            Err(SignInError::PasswordRequired { token }) => AuthAction::PromptPassword {
                hint: token.hint,
            },
            Err(SignInError::Other) => AuthAction::Abort,
        },
        AuthEvent::PasswordCheckFinished { outcome } => if outcome is Ok {
            AuthAction::PersistSession
        } else {
            AuthAction::Abort
        },
        AuthEvent::SaveFinished { outcome } => if outcome is Ok {
            AuthAction::Finish { sign_out: false }
        } else {
            AuthAction::Finish { sign_out: true }
        },
    }
}

/// States from which no event is awaited.
pub open spec fn is_terminal(s: AuthState) -> bool {
    s is PersistedDone || s is UnpersistedDone || s is Fatal
}

/// The authentication flow: holds the current state and advances it one
/// reported event at a time, handing back the next action to perform.
pub struct AuthFlow {
    pub state: AuthState,
}

impl AuthFlow {
    /// A fresh flow on a connection whose authorization is not yet checked.
    pub fn new() -> (f: AuthFlow)
        ensures
            f.state == AuthState::Connected,
    {
        AuthFlow { state: AuthState::Connected }
    }

    /// Advance the machine by the report of the last action's outcome.
    pub fn step(&mut self, event: AuthEvent) -> (action: AuthAction)
        requires
            event_fits(old(self).state, event),
            event_wf(event),
        ensures
            final(self).state == step_state(event),
            action == step_action(event),
    {
        match event {
            AuthEvent::AuthorizationChecked { authorized } => {
                if authorized {
                    self.state = AuthState::Authorized;
                    AuthAction::PersistSession
                } else {
                    self.state = AuthState::AwaitingPhone;
                    AuthAction::PromptPhone
                }
            },
            AuthEvent::PhoneEntered { phone } => {
                self.state = AuthState::CodeRequested;
                AuthAction::RequestLoginCode { phone }
            },
            AuthEvent::CodeRequestFinished { outcome } => match outcome {
                Ok(_) => {
                    self.state = AuthState::AwaitingCode;
                    AuthAction::PromptCode
                },
                Err(_) => {
                    self.state = AuthState::Fatal;
                    AuthAction::Abort
                },
            },
            AuthEvent::SignInFinished { outcome } => match outcome {
                Ok(_) => {
                    self.state = AuthState::Authorized;
                    AuthAction::PersistSession
                },
                Err(SignInError::PasswordRequired { token }) => {
                    self.state = AuthState::AwaitingPassword;
                    AuthAction::PromptPassword { hint: token.hint }
                },
                Err(SignInError::Other) => {
                    self.state = AuthState::Fatal;
                    AuthAction::Abort
                },
            },
            AuthEvent::PasswordCheckFinished { outcome } => match outcome {
                Ok(_) => {
                    self.state = AuthState::Authorized;
                    AuthAction::PersistSession
                },
                Err(_) => {
                    self.state = AuthState::Fatal;
                    AuthAction::Abort
                },
            },
            AuthEvent::SaveFinished { outcome } => match outcome {
                Ok(_) => {
                    self.state = AuthState::PersistedDone;
                    AuthAction::Finish { sign_out: false }
                },
                Err(_) => {
                    self.state = AuthState::UnpersistedDone;
                    AuthAction::Finish { sign_out: true }
                },
            },
        }
    }

    /// Whether the flow still awaits an event.
    pub fn is_running(&self) -> (r: bool)
        ensures
            r == !is_terminal(self.state),
    {
        !(self.state == AuthState::PersistedDone || self.state == AuthState::UnpersistedDone
            || self.state == AuthState::Fatal)
    }
}

/// Whether the session must be revoked at shutdown: only when it was
/// authorized but could not be persisted.
pub fn must_sign_out_on_exit(s: AuthState) -> (r: bool)
    ensures
        r == (s is UnpersistedDone),
{
    s == AuthState::UnpersistedDone
}

/// The state a trace of events leads to, starting from `Connected`. Each
/// event alone determines its successor state, so only the last one matters.
pub open spec fn run_state(evs: Seq<AuthEvent>) -> AuthState {
    if evs.len() == 0 {
        AuthState::Connected
    } else {
        step_state(evs.last())
    }
}

/// A trace is valid when each event answers the state the flow was in when
/// it arrived.
pub open spec fn valid_trace(evs: Seq<AuthEvent>) -> bool {
    forall|i: int| 0 <= i < evs.len() ==> event_fits(run_state(evs.take(i)), #[trigger] evs[i])
}

/// The actions that read a line from the user.
pub open spec fn is_prompt(a: AuthAction) -> bool {
    a is PromptPhone || a is PromptCode || a is PromptPassword
}

/// How many interactive prompts a trace provokes.
pub open spec fn prompt_count(evs: Seq<AuthEvent>) -> nat
    decreases evs.len(),
{
    if evs.len() == 0 {
        0
    } else {
        prompt_count(evs.drop_last()) + if is_prompt(step_action(evs.last())) {
            1nat
        } else {
            0nat
        }
    }
}

/// How many password prompts a trace provokes.
pub open spec fn password_prompt_count(evs: Seq<AuthEvent>) -> nat
    decreases evs.len(),
{
    if evs.len() == 0 {
        0
    } else {
        password_prompt_count(evs.drop_last()) + if step_action(evs.last()) is PromptPassword {
            1nat
        } else {
            0nat
        }
    }
}

/// The sign-in call came back demanding the account password.
pub open spec fn is_password_demand(e: AuthEvent) -> bool {
    e matches AuthEvent::SignInFinished { outcome: Err(SignInError::PasswordRequired { .. }) }
}

/// Some event of the trace demanded the account password.
pub open spec fn has_password_demand(evs: Seq<AuthEvent>) -> bool {
    exists|i: int| 0 <= i < evs.len() && is_password_demand(#[trigger] evs[i])
}

/// The save of the session failed.
pub open spec fn is_save_failure(e: AuthEvent) -> bool {
    e matches AuthEvent::SaveFinished { outcome: Err(_) }
}

/// The save of the session succeeded.
pub open spec fn is_save_success(e: AuthEvent) -> bool {
    e matches AuthEvent::SaveFinished { outcome: Ok(_) }
}

/// How far along the flow a state is. Every transition strictly raises it:
/// the machine never revisits a state.
pub open spec fn rank(s: AuthState) -> nat {
    match s {
        AuthState::Connected => 0,
        AuthState::AwaitingPhone => 1,
        AuthState::CodeRequested => 2,
        AuthState::AwaitingCode => 3,
        AuthState::AwaitingPassword => 4,
        AuthState::Authorized => 5,
        AuthState::PersistedDone => 6,
        AuthState::UnpersistedDone => 6,
        AuthState::Fatal => 6,
    }
}

/// Each fitting event moves the flow strictly forward.
pub proof fn lemma_rank_increases(s: AuthState, e: AuthEvent)
    requires
        event_fits(s, e),
    ensures
        rank(step_state(e)) > rank(s),
{
}

/// A prefix of a valid trace is itself a valid trace.
pub proof fn lemma_valid_prefix(evs: Seq<AuthEvent>, n: int)
    requires
        valid_trace(evs),
        0 <= n <= evs.len(),
    ensures
        valid_trace(evs.take(n)),
{
    assert forall|i: int|
        0 <= i < evs.take(n).len() implies event_fits(
        run_state(evs.take(n).take(i)),
        #[trigger] evs.take(n)[i],
    ) by {
        assert(evs.take(n).take(i) =~= evs.take(i));
        assert(evs.take(n)[i] == evs[i]);
        assert(event_fits(run_state(evs.take(i)), evs[i]));
    }
}

/// Along a valid trace the rank climbs at least as fast as the index: the
/// flow never revisits a state.
proof fn lemma_rank_monotone(evs: Seq<AuthEvent>, i: int, j: int)
    requires
        valid_trace(evs),
        0 <= i <= j <= evs.len(),
    ensures
        rank(run_state(evs.take(j))) >= rank(run_state(evs.take(i))) + j - i,
    decreases j - i,
{
    if i < j {
        lemma_rank_monotone(evs, i, j - 1);
        assert(event_fits(run_state(evs.take(j - 1)), evs[j - 1]));
        lemma_rank_increases(run_state(evs.take(j - 1)), evs[j - 1]);
        assert(evs.take(j).last() == evs[j - 1]);
        assert(run_state(evs.take(j)) == step_state(evs[j - 1]));
    }
}

/// A valid trace holds at most one sign-in answer that demands a password:
/// the state that awaits one is never reached twice.
proof fn lemma_at_most_one_demand(evs: Seq<AuthEvent>, i: int, j: int)
    requires
        valid_trace(evs),
        0 <= i < j < evs.len(),
        is_password_demand(evs[i]),
    ensures
        !is_password_demand(evs[j]),
{
    assert(event_fits(run_state(evs.take(i)), evs[i]));
    assert(run_state(evs.take(i)) == AuthState::AwaitingCode);
    if is_password_demand(evs[j]) {
        assert(event_fits(run_state(evs.take(j)), evs[j]));
        assert(run_state(evs.take(j)) == AuthState::AwaitingCode);
        lemma_rank_monotone(evs, i, j);
    }
}

/// Counting prompts when at most one event demands a password.
proof fn lemma_demand_count(evs: Seq<AuthEvent>)
    requires
        forall|i: int, j: int|
            0 <= i < j < evs.len() ==> !(is_password_demand(#[trigger] evs[i])
                && is_password_demand(#[trigger] evs[j])),
    ensures
        password_prompt_count(evs) == if has_password_demand(evs) {
            1nat
        } else {
            0nat
        },
    decreases evs.len(),
{
    if evs.len() > 0 {
        let prefix = evs.drop_last();
        let e = evs.last();
        lemma_demand_count(prefix);
        assert(step_action(e) is PromptPassword <==> is_password_demand(e));
        if is_password_demand(e) {
            assert(is_password_demand(evs[evs.len() - 1]));
            assert(!has_password_demand(prefix)) by {
                if has_password_demand(prefix) {
                    let i = choose|i: int|
                        0 <= i < prefix.len() && is_password_demand(#[trigger] prefix[i]);
                    assert(is_password_demand(evs[i]));
                    assert(is_password_demand(evs[evs.len() - 1]));
                }
            }
        } else {
            if has_password_demand(evs) {
                let i = choose|i: int|
                    0 <= i < evs.len() && is_password_demand(#[trigger] evs[i]);
                assert(i < evs.len() - 1);
                assert(is_password_demand(prefix[i]));
                assert(has_password_demand(prefix));
            }
            if has_password_demand(prefix) {
                let i = choose|i: int|
                    0 <= i < prefix.len() && is_password_demand(#[trigger] prefix[i]);
                assert(is_password_demand(evs[i]));
                assert(has_password_demand(evs));
            }
        }
    }
}

/// Sign-in flow law: the flow prompts for the account password exactly once
/// if the sign-in call came back demanding one, and never otherwise.
pub proof fn lemma_password_prompt_iff_demanded(evs: Seq<AuthEvent>)
    requires
        valid_trace(evs),
    ensures
        password_prompt_count(evs) == if has_password_demand(evs) {
            1nat
        } else {
            0nat
        },
{
    assert forall|i: int, j: int|
        0 <= i < j < evs.len() implies !(is_password_demand(#[trigger] evs[i])
        && is_password_demand(#[trigger] evs[j])) by {
        if is_password_demand(evs[i]) {
            lemma_at_most_one_demand(evs, i, j);
        }
    }
    lemma_demand_count(evs);
}

#[verifier::rlimit(100)]
proof fn lemma_authorized_start_bounds(evs: Seq<AuthEvent>)
    requires
        valid_trace(evs),
        evs.len() > 0,
        evs[0] == (AuthEvent::AuthorizationChecked { authorized: true }),
    ensures
        prompt_count(evs) == 0,
        rank(run_state(evs)) >= 5,
    decreases evs.len(),
{
    if evs.len() == 1 {
        assert(evs.drop_last() =~= Seq::<AuthEvent>::empty());
        assert(prompt_count(evs.drop_last()) == 0);
        assert(evs.last() == evs[0]);
        assert(step_action(evs.last()) == AuthAction::PersistSession);
        assert(step_state(evs.last()) == AuthState::Authorized);
    } else {
        let prefix = evs.drop_last();
        let e = evs.last();
        let s = run_state(prefix);
        lemma_valid_prefix(evs, evs.len() - 1);
        assert(evs.take(evs.len() - 1) =~= prefix);
        assert(prefix[0] == evs[0]);
        lemma_authorized_start_bounds(prefix);
        assert(event_fits(s, e)) by {
            assert(event_fits(run_state(evs.take(evs.len() - 1)), evs[evs.len() - 1]));
        }
        // Only the authorized state still awaits an event at this depth, and
        // what it awaits is the save result, never another prompt.
        assert(s == AuthState::Authorized);
        assert(e matches AuthEvent::SaveFinished { .. });
        assert(!is_prompt(step_action(e)));
        assert(prompt_count(evs) == prompt_count(prefix));
        lemma_rank_increases(s, e);
    }
}

/// A session already authorized at startup is accepted without a single
/// interactive prompt: the flow goes straight to persisting it.
pub proof fn lemma_authorized_session_prompts_nothing(evs: Seq<AuthEvent>)
    requires
        valid_trace(evs),
        evs.len() > 0,
        evs[0] == (AuthEvent::AuthorizationChecked { authorized: true }),
    ensures
        prompt_count(evs) == 0,
{
    lemma_authorized_start_bounds(evs);
}

/// A save outcome answers the last state the flow passes through: nothing
/// follows it in a valid trace.
proof fn lemma_save_is_last(evs: Seq<AuthEvent>, i: int)
    requires
        valid_trace(evs),
        0 <= i < evs.len(),
        evs[i] matches AuthEvent::SaveFinished { .. },
    ensures
        i == evs.len() - 1,
{
    if i < evs.len() - 1 {
        assert(event_fits(run_state(evs.take(i + 1)), evs[i + 1]));
        assert(evs.take(i + 1).last() == evs[i]);
        assert(run_state(evs.take(i + 1)) == step_state(evs[i]));
        assert(is_terminal(step_state(evs[i])));
    }
}

/// Persistence-fallback law: a valid trace ends in the state that demands
/// sign-out on exit exactly when saving the session failed, and in the
/// persisted state exactly when saving succeeded; the two never mix.
pub proof fn lemma_persistence_fallback(evs: Seq<AuthEvent>)
    requires
        valid_trace(evs),
    ensures
        (run_state(evs) == AuthState::UnpersistedDone) <==> exists|i: int|
            0 <= i < evs.len() && is_save_failure(#[trigger] evs[i]),
        (run_state(evs) == AuthState::PersistedDone) <==> exists|i: int|
            0 <= i < evs.len() && is_save_success(#[trigger] evs[i]),
{
    if evs.len() > 0 {
        let e = evs.last();
        // Any save outcome sits at the end, so the last event decides both
        // sides of the equivalences.
        assert forall|i: int|
            0 <= i < evs.len() && is_save_failure(#[trigger] evs[i]) implies is_save_failure(e) by {
            lemma_save_is_last(evs, i);
        }
        assert forall|i: int|
            0 <= i < evs.len() && is_save_success(#[trigger] evs[i]) implies is_save_success(e) by {
            lemma_save_is_last(evs, i);
        }
        if is_save_failure(e) {
            assert(is_save_failure(evs[evs.len() - 1]));
            assert(run_state(evs) == AuthState::UnpersistedDone);
        } else if is_save_success(e) {
            assert(is_save_success(evs[evs.len() - 1]));
            assert(run_state(evs) == AuthState::PersistedDone);
        } else {
            assert(run_state(evs) != AuthState::UnpersistedDone);
            assert(run_state(evs) != AuthState::PersistedDone);
        }
    }
}

} // verus!
