use clientflow::auth::{
    AuthAction, AuthEvent, AuthFlow, AuthState, InvocationError, LoginToken, PasswordToken,
    SignInError, must_sign_out_on_exit,
};
use clientflow::connection::Connection;
use clientflow::dispatch::{Dispatcher, DispatchStep, ScriptItem, follow_up_target};
use clientflow::events::{Chat, Event, Message, NextEvent};
use clientflow::session::{Session, SessionOrigin, StorageError, StoredState, load_or_create};

fn group_message(sender: Option<Chat>) -> Event {
    Event::NewMessage { message: Message { chat: Chat::Group { id: 100 }, sender } }
}

#[test]
fn absent_file_creates_fresh_session() {
    let s = load_or_create(StoredState::Absent).unwrap();
    assert_eq!(s, Session { origin: SessionOrigin::Created, authorized: false });
}

#[test]
fn corrupt_file_is_a_storage_error() {
    assert_eq!(load_or_create(StoredState::Corrupt), Err(StorageError::Corrupt));
}

#[test]
fn previously_authorized_session_needs_no_prompt() {
    let s = load_or_create(StoredState::Valid { authorized: true }).unwrap();
    assert_eq!(s.origin, SessionOrigin::Loaded);
    assert!(s.authorized);

    let mut flow = AuthFlow::new();
    let a = flow.step(AuthEvent::AuthorizationChecked { authorized: s.authorized });
    assert_eq!(a, AuthAction::PersistSession);
    let a = flow.step(AuthEvent::SaveFinished { outcome: Ok(()) });
    assert_eq!(a, AuthAction::Finish { sign_out: false });
    assert_eq!(flow.state, AuthState::PersistedDone);
}

#[test]
fn password_prompted_exactly_once_when_demanded() {
    let mut flow = AuthFlow::new();
    let mut password_prompts = 0;
    let script = [
        AuthEvent::AuthorizationChecked { authorized: false },
        AuthEvent::PhoneEntered { phone: "+10000000000".to_string() },
        AuthEvent::CodeRequestFinished { outcome: Ok(LoginToken {}) },
        AuthEvent::SignInFinished {
            outcome: Err(SignInError::PasswordRequired {
                token: PasswordToken::new("pet name".to_string()),
            }),
        },
        AuthEvent::PasswordCheckFinished { outcome: Ok(()) },
        AuthEvent::SaveFinished { outcome: Ok(()) },
    ];
    for event in script {
        let action = flow.step(event);
        if let AuthAction::PromptPassword { hint } = &action {
            assert_eq!(hint, "pet name");
            password_prompts += 1;
        }
    }
    assert_eq!(password_prompts, 1);
    assert_eq!(flow.state, AuthState::PersistedDone);
}

#[test]
fn no_password_prompt_without_demand() {
    let mut flow = AuthFlow::new();
    let mut password_prompts = 0;
    let script = [
        AuthEvent::AuthorizationChecked { authorized: false },
        AuthEvent::PhoneEntered { phone: "+10000000000".to_string() },
        AuthEvent::CodeRequestFinished { outcome: Ok(LoginToken {}) },
        AuthEvent::SignInFinished { outcome: Ok(()) },
        AuthEvent::SaveFinished { outcome: Ok(()) },
    ];
    for event in script {
        if let AuthAction::PromptPassword { .. } = flow.step(event) {
            password_prompts += 1;
        }
    }
    assert_eq!(password_prompts, 0);
    assert_eq!(flow.state, AuthState::PersistedDone);
}

#[test]
fn failed_save_sets_sign_out_flag() {
    let mut flow = AuthFlow::new();
    flow.step(AuthEvent::AuthorizationChecked { authorized: true });
    let a = flow.step(AuthEvent::SaveFinished { outcome: Err(StorageError::WriteFailed) });
    assert_eq!(a, AuthAction::Finish { sign_out: true });
    assert_eq!(flow.state, AuthState::UnpersistedDone);
    assert!(must_sign_out_on_exit(flow.state));
}

#[test]
fn successful_save_keeps_sign_out_flag_clear() {
    let mut flow = AuthFlow::new();
    flow.step(AuthEvent::AuthorizationChecked { authorized: true });
    let a = flow.step(AuthEvent::SaveFinished { outcome: Ok(()) });
    assert_eq!(a, AuthAction::Finish { sign_out: false });
    assert!(!must_sign_out_on_exit(flow.state));
}

#[test]
fn code_request_failure_aborts_the_flow() {
    let mut flow = AuthFlow::new();
    flow.step(AuthEvent::AuthorizationChecked { authorized: false });
    flow.step(AuthEvent::PhoneEntered { phone: "+10000000000".to_string() });
    let a = flow.step(AuthEvent::CodeRequestFinished {
        outcome: Err(InvocationError::Rejected),
    });
    assert_eq!(a, AuthAction::Abort);
    assert_eq!(flow.state, AuthState::Fatal);
}

#[test]
fn unexpected_sign_in_failure_aborts_the_flow() {
    let mut flow = AuthFlow::new();
    flow.step(AuthEvent::AuthorizationChecked { authorized: false });
    flow.step(AuthEvent::PhoneEntered { phone: "+10000000000".to_string() });
    flow.step(AuthEvent::CodeRequestFinished { outcome: Ok(LoginToken {}) });
    let a = flow.step(AuthEvent::SignInFinished { outcome: Err(SignInError::Other) });
    assert_eq!(a, AuthAction::Abort);
    assert_eq!(flow.state, AuthState::Fatal);
}

#[test]
fn failed_password_check_aborts_the_flow() {
    let mut flow = AuthFlow::new();
    flow.step(AuthEvent::AuthorizationChecked { authorized: false });
    flow.step(AuthEvent::PhoneEntered { phone: "+10000000000".to_string() });
    flow.step(AuthEvent::CodeRequestFinished { outcome: Ok(LoginToken {}) });
    flow.step(AuthEvent::SignInFinished {
        outcome: Err(SignInError::PasswordRequired {
            token: PasswordToken::new("hint".to_string()),
        }),
    });
    let a = flow.step(AuthEvent::PasswordCheckFinished {
        outcome: Err(InvocationError::Rejected),
    });
    assert_eq!(a, AuthAction::Abort);
    assert_eq!(flow.state, AuthState::Fatal);
}

#[test]
fn filtered_events_owe_no_follow_up() {
    // Not a group.
    let channel = Event::NewMessage {
        message: Message {
            chat: Chat::Channel { id: 5 },
            sender: Some(Chat::PrivateUser { id: 42 }),
        },
    };
    assert_eq!(follow_up_target(&channel), None);
    let private = Event::NewMessage {
        message: Message {
            chat: Chat::PrivateUser { id: 5 },
            sender: Some(Chat::PrivateUser { id: 42 }),
        },
    };
    assert_eq!(follow_up_target(&private), None);
    // Sender absent.
    assert_eq!(follow_up_target(&group_message(None)), None);
    // Sender not a private user.
    assert_eq!(follow_up_target(&group_message(Some(Chat::Channel { id: 3 }))), None);
    assert_eq!(follow_up_target(&group_message(Some(Chat::Group { id: 3 }))), None);
    // Not a new message.
    assert_eq!(follow_up_target(&Event::MessageEdited), None);
    assert_eq!(follow_up_target(&Event::MessageDeleted), None);
    assert_eq!(follow_up_target(&Event::Other), None);
}

#[test]
fn group_message_from_private_user_owes_one_call() {
    let event = group_message(Some(Chat::PrivateUser { id: 42 }));
    assert_eq!(follow_up_target(&event), Some(42));

    let script = vec![
        ScriptItem { item: NextEvent::Delivered { event }, call_succeeds: true },
        ScriptItem { item: NextEvent::Closed, call_succeeds: true },
    ];
    let (d, steps) = Dispatcher::run_script(&script);
    assert_eq!(d.issued, vec![42]);
    assert_eq!(d.successes, 1);
    assert_eq!(d.failures, 0);
    assert_eq!(steps, 2);
}

#[test]
fn failed_follow_up_call_does_not_end_the_loop() {
    let script = vec![
        ScriptItem {
            item: NextEvent::Delivered { event: group_message(Some(Chat::PrivateUser { id: 7 })) },
            call_succeeds: false,
        },
        ScriptItem { item: NextEvent::NotReady, call_succeeds: true },
        ScriptItem {
            item: NextEvent::Delivered { event: group_message(Some(Chat::PrivateUser { id: 8 })) },
            call_succeeds: true,
        },
        ScriptItem { item: NextEvent::Closed, call_succeeds: true },
    ];
    let (d, steps) = Dispatcher::run_script(&script);
    // The failure was recorded, and the later event was still consumed.
    assert_eq!(d.issued, vec![7, 8]);
    assert_eq!(d.failures, 1);
    assert_eq!(d.successes, 1);
    assert_eq!(steps, 4);
}

#[test]
fn closed_stream_ends_the_loop_within_one_iteration() {
    let script = vec![
        ScriptItem { item: NextEvent::Closed, call_succeeds: true },
        ScriptItem {
            item: NextEvent::Delivered { event: group_message(Some(Chat::PrivateUser { id: 9 })) },
            call_succeeds: true,
        },
    ];
    let (d, steps) = Dispatcher::run_script(&script);
    assert_eq!(steps, 1);
    assert!(d.issued.is_empty());
}

#[test]
fn disconnect_yields_the_end_marker() {
    let mut c = Connection::establish();
    c.deliver(Event::Other);
    c.disconnect();
    assert_eq!(c.next_event(), NextEvent::Closed);
    assert_eq!(c.next_event(), NextEvent::Closed);
}

#[test]
fn events_come_out_in_arrival_order() {
    let mut c = Connection::establish();
    let first = group_message(Some(Chat::PrivateUser { id: 1 }));
    let second = Event::MessageEdited;
    c.deliver(first);
    c.deliver(second);
    assert_eq!(c.next_event(), NextEvent::Delivered { event: first });
    assert_eq!(c.next_event(), NextEvent::Delivered { event: second });
    assert_eq!(c.next_event(), NextEvent::NotReady);
}

#[test]
fn draining_issues_follow_ups_in_arrival_order() {
    let mut c = Connection::establish();
    c.deliver(group_message(Some(Chat::PrivateUser { id: 5 })));
    c.deliver(Event::MessageEdited);
    c.deliver(group_message(None));
    c.deliver(group_message(Some(Chat::PrivateUser { id: 6 })));
    let mut d = Dispatcher::new();
    clientflow::dispatch::drain_connection(&mut c, &mut d);
    assert_eq!(d.issued, vec![5, 6]);
    assert_eq!(c.next_event(), NextEvent::NotReady);
}

#[test]
fn draining_a_closed_connection_issues_nothing() {
    let mut c = Connection::establish();
    c.deliver(group_message(Some(Chat::PrivateUser { id: 5 })));
    c.disconnect();
    let mut d = Dispatcher::new();
    clientflow::dispatch::drain_connection(&mut c, &mut d);
    assert!(d.issued.is_empty());
}

#[test]
fn closed_connection_refuses_calls() {
    let mut c = Connection::establish();
    assert_eq!(c.accept_call(), Ok(()));
    c.disconnect();
    assert_eq!(c.accept_call(), Err(InvocationError::ConnectionClosed));
}

#[test]
fn dispatcher_examines_without_deciding_by_outcome() {
    let mut d = Dispatcher::new();
    let step = d.examine(NextEvent::Delivered {
        event: group_message(Some(Chat::PrivateUser { id: 11 })),
    });
    assert_eq!(step, DispatchStep::Invoke { user_id: 11 });
    d.record_outcome(false);
    // The recorded failure leaves every later decision untouched.
    let step = d.examine(NextEvent::NotReady);
    assert_eq!(step, DispatchStep::Wait);
    let step = d.examine(NextEvent::Delivered { event: Event::Other });
    assert_eq!(step, DispatchStep::Skip);
    let step = d.examine(NextEvent::Closed);
    assert_eq!(step, DispatchStep::Exit);
    assert_eq!(d.issued, vec![11]);
    assert_eq!(d.failures, 1);
}

#[test]
fn fresh_login_then_one_follow_up_for_user_seven() {
    // Session file absent: fresh unauthenticated state.
    let session = load_or_create(StoredState::Absent).unwrap();
    assert!(!session.authorized);

    // Phone, code, direct sign-in, successful save.
    let mut flow = AuthFlow::new();
    assert!(flow.is_running());
    let a = flow.step(AuthEvent::AuthorizationChecked { authorized: session.authorized });
    assert_eq!(a, AuthAction::PromptPhone);
    let a = flow.step(AuthEvent::PhoneEntered { phone: "+10000000000".to_string() });
    assert_eq!(a, AuthAction::RequestLoginCode { phone: "+10000000000".to_string() });
    let a = flow.step(AuthEvent::CodeRequestFinished { outcome: Ok(LoginToken {}) });
    assert_eq!(a, AuthAction::PromptCode);
    // The user answers the code prompt with "12345" and sign-in succeeds
    // directly: no password prompt.
    let a = flow.step(AuthEvent::SignInFinished { outcome: Ok(()) });
    assert_eq!(a, AuthAction::PersistSession);
    let a = flow.step(AuthEvent::SaveFinished { outcome: Ok(()) });
    assert_eq!(a, AuthAction::Finish { sign_out: false });
    assert!(!flow.is_running());
    assert!(!must_sign_out_on_exit(flow.state));

    // The drive starts; the dispatcher sees one group message from user 7.
    let script = vec![
        ScriptItem {
            item: NextEvent::Delivered { event: group_message(Some(Chat::PrivateUser { id: 7 })) },
            call_succeeds: true,
        },
        ScriptItem { item: NextEvent::Closed, call_succeeds: true },
    ];
    let (d, _) = Dispatcher::run_script(&script);
    assert_eq!(d.issued, vec![7]);
}
