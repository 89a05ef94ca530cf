use softphone::call::{CallState, EngineCallState};
use softphone::commands::{SipCommand, SipError, SipResponse};
use softphone::config::SipConfig;
use softphone::engine::{EngineReply, EngineRequest, Notice, Outcome, SipEvent};
use softphone::session::{event_id_text, reply_id_text, Input, SipClientManager};

const CALL: u128 = 0x67e55044_10b1_426f_9247_bb680e5fe0c8;
const CALL_TEXT: &str = "67e55044-10b1-426f-9247-bb680e5fe0c8";
const OTHER: u128 = 0xa1a2a3a4_b1b2_c1c2_d1d2_d3d4d5d6d7d8;

fn initialize(server_uri: &str) -> SipCommand {
    SipCommand::Initialize {
        username: "alice".to_string(),
        password: "secret".to_string(),
        server_uri: server_uri.to_string(),
        local_ip: Some("192.168.1.10".to_string()),
        local_port: 5060,
    }
}

fn started(server_uri: &str) -> SipClientManager {
    let mut session = SipClientManager::new(SipConfig::default());
    let out = session.handle_command_with(&initialize(server_uri), &None);
    let request = out.request.expect("a start request");
    let out = session.handle_reply_at(&request, &EngineReply::Done, 0);
    assert_eq!(out.response, Some(SipResponse::Initialized));
    session
}

fn incoming(call_id: u128, from: &str) -> SipEvent {
    SipEvent::IncomingCall { call_id, from: from.to_string(), display_name: None }
}

fn ringing(from: &str) -> SipClientManager {
    let mut session = started("sip:example.com");
    session.handle_event_at(&incoming(CALL, from), 10);
    session
}

fn connected() -> SipClientManager {
    let mut session = ringing("carol");
    let out = session.handle_command(&SipCommand::AnswerCall);
    let request = out.request.expect("an answer request");
    let out = session.handle_reply_at(&request, &EngineReply::Done, 1_000);
    assert_eq!(out.response, Some(SipResponse::CallAnswered));
    session
}

fn refusal(error: SipError) -> Outcome {
    Outcome { response: Some(SipResponse::Error(error)), request: None, stop_audio: None, notice: None }
}

fn state_of(session: &SipClientManager) -> CallState {
    session.get_current_call().expect("a call record").state
}

#[test]
fn initialize_server_mode_registers() {
    let mut session = SipClientManager::new(SipConfig::default());
    assert_eq!(session.get_registration_state(), CallState::Idle);
    let out = session.handle_command_with(
        &SipCommand::Initialize {
            username: "alice".to_string(),
            password: "secret".to_string(),
            server_uri: "sip:example.com".to_string(),
            local_ip: None,
            local_port: 5070,
        },
        &None,
    );
    assert_eq!(session.get_registration_state(), CallState::Registering);
    assert!(!session.is_initialized());
    let request = out.request.expect("a start request");
    match &request {
        EngineRequest::Start { identity, local_address, registration } => {
            assert_eq!(identity, "sip:alice@example.com");
            assert_eq!(local_address, "0.0.0.0:5070");
            let account = registration.as_ref().expect("an account");
            assert_eq!(account.username, "alice");
            assert_eq!(account.password, "secret");
            assert_eq!(account.expires, 3600);
        }
        other => panic!("unexpected request {:?}", other),
    }
    let out = session.handle_reply_at(&request, &EngineReply::Done, 0);
    assert_eq!(out.response, Some(SipResponse::Initialized));
    assert!(session.is_initialized());
    assert_eq!(session.get_registration_state(), CallState::Registering);
    let out = session.handle_event_at(
        &SipEvent::RegistrationStatusChanged { status: "active".to_string() },
        1,
    );
    assert_eq!(out.notice, Some(Notice::Registered));
    assert_eq!(session.get_registration_state(), CallState::Registered);
}

#[test]
fn initialize_without_server_is_ready_at_once() {
    let session = started("");
    assert!(session.is_receiver_mode());
    assert_eq!(session.get_registration_state(), CallState::Registered);
    let session = started("bob@192.168.1.20");
    assert!(!session.is_receiver_mode());
    assert_eq!(session.get_registration_state(), CallState::Registered);
}

#[test]
fn initialize_failure_leaves_session_uninitialized() {
    let mut session = SipClientManager::new(SipConfig::default());
    let out = session.handle_command_with(&initialize("sip:example.com"), &None);
    let request = out.request.expect("a start request");
    let out = session.handle_reply_at(&request, &EngineReply::Failed("no route".to_string()), 0);
    assert_eq!(
        out.response,
        Some(SipResponse::Error(SipError::EngineFailure("no route".to_string())))
    );
    assert!(!session.is_initialized());
    assert_eq!(session.get_registration_state(), CallState::Error("no route".to_string()));
    let out = session.handle_command(&SipCommand::ToggleHook);
    assert_eq!(out, refusal(SipError::NotInitialized));
    assert!(session.is_on_hook());
}

#[test]
fn every_command_but_initialize_needs_a_started_engine() {
    let commands = vec![
        SipCommand::MakeCall { target: "bob".to_string() },
        SipCommand::AnswerCall,
        SipCommand::Hangup,
        SipCommand::ToggleMute,
        SipCommand::Hold,
        SipCommand::Resume,
        SipCommand::Transfer { target: "dave".to_string() },
        SipCommand::ToggleHook,
        SipCommand::GetCallInfo,
        SipCommand::GetRegistrationState,
    ];
    for command in commands {
        let mut session = SipClientManager::new(SipConfig::default());
        let out = session.handle_command(&command);
        assert_eq!(out, refusal(SipError::NotInitialized));
        assert_eq!(session.get_current_call(), None);
        assert!(session.is_on_hook());
    }
}

#[test]
fn events_before_start_are_ignored() {
    let mut session = SipClientManager::new(SipConfig::default());
    let out = session.handle_event_at(&incoming(CALL, "carol"), 1);
    assert_eq!(out, Outcome { response: None, request: None, stop_audio: None, notice: None });
    assert_eq!(session.get_current_call(), None);
}

#[test]
fn make_call_then_connected() {
    let mut session = started("sip:example.com");
    let out = session.handle_command(&SipCommand::MakeCall { target: "bob".to_string() });
    let request = out.request.expect("a call request");
    assert_eq!(
        request,
        EngineRequest::PlaceCall {
            from: "sip:alice@example.com".to_string(),
            target: "bob".to_string(),
            uri: "sip:bob".to_string(),
        }
    );
    assert_eq!(session.get_current_call(), None);
    let out = session.handle_reply_at(&request, &EngineReply::CallPlaced { call_id: CALL }, 5);
    assert_eq!(out.response, Some(SipResponse::CallStarted { call_id: CALL_TEXT.to_string() }));
    let call = session.get_current_call().expect("a call record");
    assert_eq!(call.id, CALL_TEXT);
    assert_eq!(call.remote_uri, "bob");
    assert_eq!(call.state, CallState::Calling);
    assert!(!call.is_incoming);
    assert_eq!(call.connected_at, None);
    assert_eq!(call.duration, None);
    assert_eq!(call.is_muted, Some(false));
    assert!(!session.is_on_hook());
    session.handle_event_at(
        &SipEvent::CallStateChanged { call_id: CALL, new_state: EngineCallState::Connected },
        1_000,
    );
    let call = session.get_current_call().expect("a call record");
    assert_eq!(call.state, CallState::Connected);
    assert_eq!(call.connected_at, Some(1_000));
    session.handle_event_at(
        &SipEvent::CallStateChanged { call_id: CALL, new_state: EngineCallState::Connected },
        2_000,
    );
    assert_eq!(session.get_current_call().expect("a call record").connected_at, Some(1_000));
}

#[test]
fn make_call_failure_leaves_no_record() {
    let mut session = started("sip:example.com");
    let out = session.handle_command(&SipCommand::MakeCall { target: "bob".to_string() });
    let request = out.request.expect("a call request");
    let out = session.handle_reply_at(&request, &EngineReply::Failed("busy".to_string()), 5);
    assert_eq!(out, refusal(SipError::EngineFailure("busy".to_string())));
    assert_eq!(session.get_current_call(), None);
    assert!(session.is_on_hook());
}

#[test]
fn make_call_with_empty_target_is_invalid() {
    let mut session = started("sip:example.com");
    let out = session.handle_command(&SipCommand::MakeCall { target: String::new() });
    assert_eq!(out, refusal(SipError::InvalidTarget));
}

#[test]
fn make_call_while_in_call_is_refused() {
    let mut session = connected();
    let before = session.get_current_call();
    let out = session.handle_command(&SipCommand::MakeCall { target: "bob".to_string() });
    assert_eq!(out, refusal(SipError::AlreadyInCall));
    assert_eq!(session.get_current_call(), before);
}

#[test]
fn incoming_call_on_hook_is_offered_and_answered() {
    let mut session = started("sip:example.com");
    let out = session.handle_event_at(&incoming(CALL, "carol"), 10);
    assert_eq!(out.notice, Some(Notice::IncomingCall { caller: "carol".to_string() }));
    assert_eq!(out.request, None);
    let call = session.get_current_call().expect("a call record");
    assert_eq!(call.id, CALL_TEXT);
    assert_eq!(call.remote_uri, "carol");
    assert_eq!(call.state, CallState::Ringing);
    assert!(call.is_incoming);
    assert_eq!(call.is_muted, Some(false));
    assert!(session.is_on_hook());
    let out = session.handle_command(&SipCommand::AnswerCall);
    assert_eq!(out.request, Some(EngineRequest::Answer { call_id: CALL }));
    assert_eq!(state_of(&session), CallState::Ringing);
    let out = session.handle_reply_at(&EngineRequest::Answer { call_id: CALL }, &EngineReply::Done, 77);
    assert_eq!(out.response, Some(SipResponse::CallAnswered));
    let call = session.get_current_call().expect("a call record");
    assert_eq!(call.state, CallState::Connected);
    assert_eq!(call.connected_at, Some(77));
    assert!(!session.is_on_hook());
}

#[test]
fn answer_failure_leaves_record_unchanged() {
    let mut session = ringing("carol");
    let before = session.get_current_call();
    let out = session.handle_reply_at(
        &EngineRequest::Answer { call_id: CALL },
        &EngineReply::Failed("timeout".to_string()),
        77,
    );
    assert_eq!(out, refusal(SipError::EngineFailure("timeout".to_string())));
    assert_eq!(session.get_current_call(), before);
    assert!(session.is_on_hook());
}

#[test]
fn incoming_call_off_hook_is_rejected() {
    let mut session = started("sip:example.com");
    let out = session.handle_command(&SipCommand::ToggleHook);
    assert_eq!(out.response, Some(SipResponse::HookToggled { is_on_hook: false }));
    let out = session.handle_event_at(&incoming(CALL, "carol"), 10);
    assert_eq!(
        out,
        Outcome {
            response: None,
            request: Some(EngineRequest::Reject { call_id: CALL }),
            stop_audio: None,
            notice: None,
        }
    );
    assert_eq!(session.get_current_call(), None);
    let out = session.handle_reply_at(
        &EngineRequest::Reject { call_id: CALL },
        &EngineReply::Failed("gone".to_string()),
        11,
    );
    assert_eq!(out, Outcome { response: None, request: None, stop_audio: None, notice: None });
    assert_eq!(session.get_current_call(), None);
}

#[test]
fn incoming_call_mid_call_is_rejected() {
    let mut session = connected();
    let before = session.get_current_call();
    let out = session.handle_event_at(&incoming(OTHER, "dave"), 2_000);
    assert_eq!(out.request, Some(EngineRequest::Reject { call_id: OTHER }));
    assert_eq!(session.get_current_call(), before);
}

#[test]
fn answer_without_incoming_call_is_refused() {
    let mut session = started("sip:example.com");
    let out = session.handle_command(&SipCommand::AnswerCall);
    assert_eq!(out, refusal(SipError::NoActiveCall));
    let out = session.handle_command(&SipCommand::MakeCall { target: "bob".to_string() });
    let request = out.request.expect("a call request");
    session.handle_reply_at(&request, &EngineReply::CallPlaced { call_id: CALL }, 5);
    let before = session.get_current_call();
    let out = session.handle_command(&SipCommand::AnswerCall);
    assert_eq!(out, refusal(SipError::NoActiveCall));
    assert_eq!(session.get_current_call(), before);
}

#[test]
fn hold_then_resume_returns_to_connected() {
    let mut session = connected();
    let out = session.handle_command(&SipCommand::Hold);
    assert_eq!(out.request, Some(EngineRequest::Hold { call_id: CALL }));
    assert_eq!(state_of(&session), CallState::Connected);
    let out = session.handle_reply_at(&EngineRequest::Hold { call_id: CALL }, &EngineReply::Done, 2_000);
    assert_eq!(out.response, Some(SipResponse::CallOnHold));
    assert_eq!(state_of(&session), CallState::OnHold);
    assert!(session.is_on_hold());
    session.handle_event_at(&SipEvent::CallOnHold { call_id: CALL }, 2_001);
    assert_eq!(state_of(&session), CallState::OnHold);
    let out = session.handle_command(&SipCommand::Resume);
    assert_eq!(out.request, Some(EngineRequest::Resume { call_id: CALL }));
    let out = session.handle_reply_at(&EngineRequest::Resume { call_id: CALL }, &EngineReply::Done, 3_000);
    assert_eq!(out.response, Some(SipResponse::CallResumed));
    assert_eq!(state_of(&session), CallState::Connected);
    session.handle_event_at(&SipEvent::CallResumed { call_id: CALL }, 3_001);
    assert_eq!(state_of(&session), CallState::Connected);
    assert!(!session.is_on_hold());
    assert!(!session.is_on_hook());
}

#[test]
fn hold_button_resumes_a_held_call() {
    let mut session = connected();
    session.handle_event_at(&SipEvent::CallOnHold { call_id: CALL }, 2_000);
    let out = session.handle_command(&SipCommand::Hold);
    assert_eq!(out.request, Some(EngineRequest::Resume { call_id: CALL }));
    let out = session.handle_command(&SipCommand::Resume);
    assert_eq!(out.request, Some(EngineRequest::Resume { call_id: CALL }));
    session.handle_event_at(&SipEvent::CallResumed { call_id: CALL }, 2_500);
    let out = session.handle_command(&SipCommand::Resume);
    assert_eq!(out.request, Some(EngineRequest::Hold { call_id: CALL }));
}

#[test]
fn hold_failure_leaves_state_unchanged() {
    let mut session = connected();
    let out = session.handle_reply_at(
        &EngineRequest::Hold { call_id: CALL },
        &EngineReply::Failed("refused".to_string()),
        2_000,
    );
    assert_eq!(out, refusal(SipError::EngineFailure("refused".to_string())));
    assert_eq!(state_of(&session), CallState::Connected);
}

#[test]
fn events_override_the_optimistic_state() {
    let mut session = connected();
    session.handle_reply_at(&EngineRequest::Hold { call_id: CALL }, &EngineReply::Done, 2_000);
    assert_eq!(state_of(&session), CallState::OnHold);
    session.handle_event_at(&SipEvent::CallResumed { call_id: CALL }, 2_100);
    assert_eq!(state_of(&session), CallState::Connected);
}

#[test]
fn hangup_clears_whatever_the_engine_says() {
    for reply in [EngineReply::Done, EngineReply::Failed("network down".to_string())] {
        let mut session = connected();
        let out = session.handle_command(&SipCommand::Hangup);
        assert_eq!(
            out,
            Outcome {
                response: None,
                request: Some(EngineRequest::Hangup { call_id: CALL }),
                stop_audio: Some(CALL_TEXT.to_string()),
                notice: None,
            }
        );
        assert_eq!(session.get_current_call(), None);
        let out = session.handle_reply_at(&EngineRequest::Hangup { call_id: CALL }, &reply, 5_000);
        match reply {
            EngineReply::Done => assert_eq!(out.response, Some(SipResponse::CallEnded)),
            _ => assert_eq!(
                out.response,
                Some(SipResponse::Error(SipError::EngineFailure("network down".to_string())))
            ),
        }
        assert_eq!(session.get_current_call(), None);
    }
}

#[test]
fn hangup_without_call_is_refused() {
    let mut session = started("sip:example.com");
    let out = session.handle_command(&SipCommand::Hangup);
    assert_eq!(out, refusal(SipError::NoActiveCall));
    assert_eq!(session.get_current_call(), None);
}

#[test]
fn toggle_hook_twice_is_unchanged() {
    let mut session = started("sip:example.com");
    assert!(session.is_on_hook());
    let out = session.handle_command(&SipCommand::ToggleHook);
    assert_eq!(out.response, Some(SipResponse::HookToggled { is_on_hook: false }));
    assert!(!session.is_on_hook());
    let out = session.handle_command(&SipCommand::ToggleHook);
    assert_eq!(out.response, Some(SipResponse::HookToggled { is_on_hook: true }));
    assert!(session.is_on_hook());
}

#[test]
fn toggle_hook_off_declines_a_ringing_call() {
    let mut session = ringing("carol");
    let out = session.handle_command(&SipCommand::ToggleHook);
    assert_eq!(
        out,
        Outcome {
            response: Some(SipResponse::HookToggled { is_on_hook: false }),
            request: Some(EngineRequest::Hangup { call_id: CALL }),
            stop_audio: Some(CALL_TEXT.to_string()),
            notice: None,
        }
    );
    assert_eq!(session.get_current_call(), None);
    assert!(!session.is_on_hook());
    let out = session.handle_reply_at(
        &EngineRequest::Hangup { call_id: CALL },
        &EngineReply::Failed("gone".to_string()),
        11,
    );
    assert_eq!(out, refusal(SipError::EngineFailure("gone".to_string())));
    assert_eq!(session.get_current_call(), None);
    assert!(!session.is_on_hook());
    session.handle_command(&SipCommand::ToggleHook);
    assert!(session.is_on_hook());
}

#[test]
fn toggle_hook_during_a_call_flips() {
    let mut session = connected();
    assert!(!session.is_on_hook());
    let out = session.handle_command(&SipCommand::ToggleHook);
    assert_eq!(
        out,
        Outcome {
            response: Some(SipResponse::HookToggled { is_on_hook: true }),
            request: None,
            stop_audio: None,
            notice: None,
        }
    );
    assert!(session.is_on_hook());
    assert_eq!(state_of(&session), CallState::Connected);
    let out = session.handle_command(&SipCommand::ToggleHook);
    assert_eq!(out.response, Some(SipResponse::HookToggled { is_on_hook: false }));
    assert!(!session.is_on_hook());
    session.set_hook_state(true);
    assert!(session.is_on_hook());
    session.handle_event_at(&SipEvent::CallOnHold { call_id: CALL }, 2_000);
    assert!(!session.is_on_hook());
}

#[test]
fn toggle_hook_in_an_outgoing_call_flips() {
    let mut session = started("sip:example.com");
    let request =
        session.handle_command(&SipCommand::MakeCall { target: "bob".to_string() }).request.expect("a request");
    session.handle_reply_at(&request, &EngineReply::CallPlaced { call_id: CALL }, 5);
    assert_eq!(state_of(&session), CallState::Calling);
    assert!(!session.is_on_hook());
    let out = session.toggle_hook();
    assert_eq!(out.response, Some(SipResponse::HookToggled { is_on_hook: true }));
    assert!(session.is_on_hook());
    let out = session.toggle_hook();
    assert_eq!(out.response, Some(SipResponse::HookToggled { is_on_hook: false }));
    assert!(!session.is_on_hook());
    assert_eq!(session.hold().request, Some(EngineRequest::Hold { call_id: CALL }));
}

#[test]
fn set_hook_state_at_rest() {
    let mut session = started("sip:example.com");
    session.set_hook_state(false);
    assert!(!session.is_on_hook());
    session.set_hook_state(true);
    assert!(session.is_on_hook());
}

#[test]
fn hook_is_off_in_every_engaged_state() {
    for state in [
        EngineCallState::Initiating,
        EngineCallState::Proceeding,
        EngineCallState::Connected,
        EngineCallState::OnHold,
        EngineCallState::Transferring,
    ] {
        let mut session = ringing("carol");
        assert!(session.is_on_hook());
        session.handle_event_at(&SipEvent::CallStateChanged { call_id: CALL, new_state: state }, 20);
        assert!(!session.is_on_hook());
    }
    for state in [
        EngineCallState::Ringing,
        EngineCallState::IncomingPending,
        EngineCallState::Terminating,
        EngineCallState::Terminated,
        EngineCallState::Failed,
        EngineCallState::Cancelled,
    ] {
        let mut session = ringing("carol");
        session.handle_event_at(&SipEvent::CallStateChanged { call_id: CALL, new_state: state }, 20);
        assert!(session.is_on_hook());
    }
}

#[test]
fn toggle_mute_follows_the_engine() {
    let mut session = connected();
    assert!(!session.is_muted());
    let out = session.handle_command(&SipCommand::ToggleMute);
    assert_eq!(out.request, Some(EngineRequest::QueryMute { call_id: CALL }));
    let out = session.handle_reply_at(
        &EngineRequest::QueryMute { call_id: CALL },
        &EngineReply::MuteState { muted: false },
        3_000,
    );
    assert_eq!(out.request, Some(EngineRequest::SetMute { call_id: CALL, muted: true }));
    assert!(!session.is_muted());
    let out = session.handle_reply_at(
        &EngineRequest::SetMute { call_id: CALL, muted: true },
        &EngineReply::Done,
        3_001,
    );
    assert_eq!(out.response, Some(SipResponse::MuteToggled { is_muted: true }));
    assert!(session.is_muted());
    assert_eq!(session.get_current_call().expect("a call record").is_muted, Some(true));
}

#[test]
fn toggle_mute_twice_is_unchanged() {
    let mut session = connected();
    let mut engine_muted = false;
    for _ in 0..2 {
        let query = session.handle_command(&SipCommand::ToggleMute).request.expect("a query");
        let set = session
            .handle_reply_at(&query, &EngineReply::MuteState { muted: engine_muted }, 3_000)
            .request
            .expect("a request to set");
        match &set {
            EngineRequest::SetMute { muted, .. } => engine_muted = *muted,
            other => panic!("unexpected request {:?}", other),
        }
        session.handle_reply_at(&set, &EngineReply::Done, 3_001);
    }
    assert_eq!(session.get_current_call().expect("a call record").is_muted, Some(false));
}

#[test]
fn toggle_mute_reflects_engine_not_record() {
    let mut session = connected();
    let out = session.handle_reply_at(
        &EngineRequest::QueryMute { call_id: CALL },
        &EngineReply::MuteState { muted: true },
        3_000,
    );
    assert_eq!(out.request, Some(EngineRequest::SetMute { call_id: CALL, muted: false }));
}

#[test]
fn transfer_does_not_change_the_record() {
    let mut session = connected();
    let before = session.get_current_call();
    let out = session.handle_command(&SipCommand::Transfer { target: "sip:dave@example.com".to_string() });
    let request = out.request.expect("a transfer request");
    assert_eq!(
        request,
        EngineRequest::Transfer { call_id: CALL, target: "sip:dave@example.com".to_string() }
    );
    let out = session.handle_reply_at(&request, &EngineReply::Done, 4_000);
    assert_eq!(out.response, Some(SipResponse::CallTransferred));
    assert_eq!(session.get_current_call(), before);
    let out = session.handle_command(&SipCommand::Transfer { target: String::new() });
    assert_eq!(out, refusal(SipError::InvalidTarget));
}

#[test]
fn call_commands_without_call_are_refused() {
    for command in [
        SipCommand::ToggleMute,
        SipCommand::Hold,
        SipCommand::Resume,
        SipCommand::Transfer { target: "dave".to_string() },
        SipCommand::Transfer { target: String::new() },
    ] {
        let mut session = started("sip:example.com");
        assert_eq!(session.handle_command(&command), refusal(SipError::NoActiveCall));
    }
}

#[test]
fn stale_events_are_ignored() {
    let events = vec![
        SipEvent::CallStateChanged { call_id: OTHER, new_state: EngineCallState::Terminated },
        SipEvent::CallEnded { call_id: OTHER },
        SipEvent::CallOnHold { call_id: OTHER },
        SipEvent::CallResumed { call_id: OTHER },
    ];
    for event in events {
        let mut session = connected();
        let before = session.get_current_call();
        let out = session.handle_event_at(&event, 9_000);
        assert_eq!(out, Outcome { response: None, request: None, stop_audio: None, notice: None });
        assert_eq!(session.get_current_call(), before);
        assert!(!session.is_on_hook());
    }
    let mut idle = started("sip:example.com");
    idle.handle_event_at(
        &SipEvent::CallStateChanged { call_id: CALL, new_state: EngineCallState::Connected },
        1,
    );
    assert_eq!(idle.get_current_call(), None);
    assert!(idle.is_on_hook());
}

#[test]
fn stale_replies_are_refused() {
    let mut session = connected();
    let before = session.get_current_call();
    for request in [
        EngineRequest::Answer { call_id: OTHER },
        EngineRequest::Hold { call_id: OTHER },
        EngineRequest::Resume { call_id: OTHER },
        EngineRequest::SetMute { call_id: OTHER, muted: true },
    ] {
        let out = session.handle_reply_at(&request, &EngineReply::Done, 9_000);
        assert_eq!(out, refusal(SipError::NoActiveCall));
        assert_eq!(session.get_current_call(), before);
    }
    let out = session.handle_reply_at(
        &EngineRequest::QueryMute { call_id: OTHER },
        &EngineReply::MuteState { muted: false },
        9_000,
    );
    assert_eq!(out, refusal(SipError::NoActiveCall));
}

#[test]
fn unexpected_replies_are_failures() {
    let mut session = connected();
    let before = session.get_current_call();
    let out = session.handle_reply_at(
        &EngineRequest::Hold { call_id: CALL },
        &EngineReply::MuteState { muted: true },
        9_000,
    );
    assert_eq!(out, refusal(SipError::EngineFailure("Unexpected engine reply".to_string())));
    assert_eq!(session.get_current_call(), before);
}

#[test]
fn call_ended_clears_the_record() {
    let mut session = connected();
    let out = session.handle_event_at(&SipEvent::CallEnded { call_id: CALL }, 9_000);
    assert_eq!(
        out,
        Outcome { response: None, request: None, stop_audio: Some(CALL_TEXT.to_string()), notice: None }
    );
    assert_eq!(session.get_current_call(), None);
    assert!(!session.is_on_hook());
}

#[test]
fn engine_states_map_to_lifecycle_states() {
    let table = vec![
        (EngineCallState::Initiating, CallState::Calling),
        (EngineCallState::Proceeding, CallState::Calling),
        (EngineCallState::Ringing, CallState::Ringing),
        (EngineCallState::IncomingPending, CallState::Ringing),
        (EngineCallState::Connected, CallState::Connected),
        (EngineCallState::OnHold, CallState::OnHold),
        (EngineCallState::Transferring, CallState::Transferring),
        (EngineCallState::Terminating, CallState::Disconnected),
        (EngineCallState::Terminated, CallState::Disconnected),
        (EngineCallState::Failed, CallState::Error("Call failed".to_string())),
        (EngineCallState::Cancelled, CallState::Error("Call cancelled".to_string())),
    ];
    for (engine, local) in table {
        assert_eq!(CallState::from_engine_state(engine), local);
        let mut session = ringing("carol");
        session.handle_event_at(&SipEvent::CallStateChanged { call_id: CALL, new_state: engine }, 20);
        assert_eq!(state_of(&session), local);
    }
}

#[test]
fn registration_status_words() {
    assert_eq!(CallState::from_registration_status("pending"), Some(CallState::Registering));
    assert_eq!(CallState::from_registration_status("active"), Some(CallState::Registered));
    assert_eq!(
        CallState::from_registration_status("failed"),
        Some(CallState::Error("Registration failed".to_string()))
    );
    assert_eq!(CallState::from_registration_status("Active"), None);
    assert_eq!(CallState::from_registration_status(""), None);
    let mut session = started("sip:example.com");
    session.handle_event_at(&SipEvent::RegistrationStatusChanged { status: "failed".to_string() }, 1);
    assert_eq!(
        session.get_registration_state(),
        CallState::Error("Registration failed".to_string())
    );
    let out = session.handle_event_at(
        &SipEvent::RegistrationStatusChanged { status: "mystery".to_string() },
        2,
    );
    assert_eq!(
        out,
        Outcome {
            response: None,
            request: None,
            stop_audio: None,
            notice: Some(Notice::UnknownRegistrationStatus { status: "mystery".to_string() }),
        }
    );
    assert_eq!(
        session.get_registration_state(),
        CallState::Error("Registration failed".to_string())
    );
    session.handle_event_at(&SipEvent::RegistrationStatusChanged { status: "pending".to_string() }, 3);
    assert_eq!(session.get_registration_state(), CallState::Registering);
}

#[test]
fn queries_read_the_published_state() {
    let mut session = connected();
    let out = session.handle_command(&SipCommand::GetCallInfo);
    assert_eq!(out.response, Some(SipResponse::CallInfo { call: session.get_current_call() }));
    let out = session.handle_command(&SipCommand::GetRegistrationState);
    assert_eq!(
        out.response,
        Some(SipResponse::RegistrationState { state: CallState::Registering })
    );
}

#[test]
fn tick_counts_from_the_connection() {
    let mut session = connected();
    assert!(session.tick_at(1_000 + 75_500));
    assert_eq!(session.get_current_call().expect("a call record").duration, Some(75_500));
    assert!(session.tick_at(500));
    assert_eq!(session.get_current_call().expect("a call record").duration, Some(75_500));
    session.handle_event_at(&SipEvent::CallOnHold { call_id: CALL }, 80_000);
    assert!(session.tick_at(81_000));
    assert_eq!(session.get_current_call().expect("a call record").duration, Some(80_000));
    session.handle_event_at(
        &SipEvent::CallStateChanged { call_id: CALL, new_state: EngineCallState::Terminated },
        90_000,
    );
    assert!(!session.tick_at(95_000));
    assert_eq!(session.get_current_call().expect("a call record").duration, Some(80_000));
    let mut idle = started("sip:example.com");
    assert!(!idle.tick_at(5));
    let mut waiting = ringing("carol");
    assert!(!waiting.tick_at(5));
    assert_eq!(waiting.get_current_call().expect("a call record").duration, None);
}

#[test]
fn a_second_offer_replaces_the_first_record() {
    let mut session = ringing("carol");
    session.handle_event_at(&incoming(OTHER, "dave"), 30);
    let call = session.get_current_call().expect("a call record");
    assert_eq!(call.remote_uri, "dave");
    assert_eq!(call.id, "a1a2a3a4-b1b2-c1c2-d1d2-d3d4d5d6d7d8");
}

#[test]
fn reinitialize_drops_the_call() {
    let mut session = connected();
    let out = session.handle_command_with(&initialize(""), &Some("10.0.0.7".to_string()));
    assert_eq!(out.stop_audio, Some(CALL_TEXT.to_string()));
    assert_eq!(session.get_current_call(), None);
    assert!(!session.is_initialized());
    assert_eq!(session.get_registration_state(), CallState::Registering);
    assert!(session.is_receiver_mode());
}

#[test]
fn a_step_takes_what_it_is_given() {
    let mut session = started("sip:example.com");
    let out = session.step(&Input::Event {
        event: incoming(CALL, "carol"),
        now: 10,
        id_text: "call-1".to_string(),
    });
    assert_eq!(out.notice, Some(Notice::IncomingCall { caller: "carol".to_string() }));
    assert_eq!(session.get_current_call().expect("a call record").id, "call-1");
    assert_eq!(session.call_number(), None);
    let out = session.step(&Input::Command {
        command: SipCommand::AnswerCall,
        detected: None,
        number: None,
    });
    assert_eq!(out, refusal(SipError::InvalidIdentifier));
    let out = session.step(&Input::Command {
        command: SipCommand::AnswerCall,
        detected: None,
        number: Some(7),
    });
    assert_eq!(out.request, Some(EngineRequest::Answer { call_id: 7 }));
    let out = session.step(&Input::Reply {
        request: EngineRequest::Answer { call_id: 7 },
        reply: EngineReply::Done,
        now: 20,
        number: Some(8),
        id_text: String::new(),
    });
    assert_eq!(out, refusal(SipError::NoActiveCall));
    let out = session.step(&Input::Reply {
        request: EngineRequest::Answer { call_id: 7 },
        reply: EngineReply::Done,
        now: 20,
        number: Some(7),
        id_text: String::new(),
    });
    assert_eq!(out.response, Some(SipResponse::CallAnswered));
    assert_eq!(state_of(&session), CallState::Connected);
    assert!(!session.is_on_hook());
    let out = session.step(&Input::Tick { now: 1_020 });
    assert_eq!(out, Outcome { response: None, request: None, stop_audio: None, notice: None });
    assert_eq!(session.get_current_call().expect("a call record").duration, Some(1_000));
    let out = session.step(&Input::Event {
        event: SipEvent::CallEnded { call_id: CALL },
        now: 30,
        id_text: "call-2".to_string(),
    });
    assert_eq!(out.stop_audio, None);
    assert!(session.get_current_call().is_some());
    let out = session.step(&Input::Event {
        event: SipEvent::CallEnded { call_id: CALL },
        now: 30,
        id_text: "call-1".to_string(),
    });
    assert_eq!(out.stop_audio, Some("call-1".to_string()));
    assert_eq!(session.get_current_call(), None);
}

#[test]
fn a_call_with_an_unreadable_identifier() {
    let mut session = started("sip:example.com");
    session.step(&Input::Event {
        event: incoming(CALL, "carol"),
        now: 10,
        id_text: "call-1".to_string(),
    });
    for command in [
        SipCommand::AnswerCall,
        SipCommand::ToggleMute,
        SipCommand::Hold,
        SipCommand::Resume,
        SipCommand::Transfer { target: "dave".to_string() },
    ] {
        assert_eq!(session.handle_command(&command), refusal(SipError::InvalidIdentifier));
        assert!(session.get_current_call().is_some());
    }
    let out = session.handle_command(&SipCommand::Hangup);
    assert_eq!(
        out,
        Outcome {
            response: Some(SipResponse::Error(SipError::InvalidIdentifier)),
            request: None,
            stop_audio: Some("call-1".to_string()),
            notice: None,
        }
    );
    assert_eq!(session.get_current_call(), None);
    session.step(&Input::Event {
        event: incoming(CALL, "carol"),
        now: 10,
        id_text: "call-1".to_string(),
    });
    let out = session.handle_command(&SipCommand::ToggleHook);
    assert_eq!(
        out,
        Outcome {
            response: Some(SipResponse::HookToggled { is_on_hook: false }),
            request: None,
            stop_audio: Some("call-1".to_string()),
            notice: None,
        }
    );
    assert_eq!(session.get_current_call(), None);
}

#[test]
fn identifiers_of_events_and_replies() {
    assert_eq!(event_id_text(&incoming(CALL, "carol")), CALL_TEXT);
    assert_eq!(event_id_text(&SipEvent::CallEnded { call_id: OTHER }), "a1a2a3a4-b1b2-c1c2-d1d2-d3d4d5d6d7d8");
    assert_eq!(event_id_text(&SipEvent::Error { message: "x".to_string() }), "");
    assert_eq!(
        event_id_text(&SipEvent::RegistrationStatusChanged { status: "active".to_string() }),
        ""
    );
    assert_eq!(reply_id_text(&EngineReply::CallPlaced { call_id: CALL }), CALL_TEXT);
    assert_eq!(reply_id_text(&EngineReply::Done), "");
    let session = connected();
    assert_eq!(session.call_number(), Some(CALL));
    assert_eq!(started("").call_number(), None);
}
