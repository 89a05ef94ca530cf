//! The rules of a session, as mathematics: what a session is, and what each
//! command, each reply of the engine and each of its events makes of it.
//!
//! The engine numbers its calls; a call record carries the number as text.
//! The rules do not say how one is turned into the other: each rule takes what
//! it needs of that as a parameter.

use crate::call::{
    active_engagement, billable, fresh_call, lifecycle_of, registration_of, registration_phase,
    CallInfoView, CallStateView, EngineCallState,
};
use crate::clock::elapsed_between;
use crate::commands::{SipCommandView, SipErrorView, SipResponseView};
use crate::config::{
    call_uri_of, identity_of, local_address_of, profile_of, ConnectionModeView, SipConfigView,
};
use crate::engine::{
    answer, ask, nothing, EngineReplyView, EngineRequestView, NoticeView, OutcomeView,
    RegistrationView, SipEventView,
};
use vstd::prelude::*;

verus! {

/// How long a registration is asked to last, in seconds.
pub const REGISTRATION_EXPIRES: u32 = 3600;

/// The state of a session.
#[verifier::ext_equal]
pub struct SessionView {
    pub config: SipConfigView,
    /// Whether the engine is started.
    pub initialized: bool,
    /// The address the engine was started under.
    pub identity: Seq<char>,
    pub registration_state: CallStateView,
    /// The record of the one live call, if there is one.
    pub current_call: Option<CallInfoView>,
    /// On the hook, incoming calls are offered; off the hook, they are rejected.
    pub is_on_hook: bool,
}

/// A session and what its last step asked for.
pub type Step = (SessionView, OutcomeView);

/// The session as it is created: nothing started, no call, on the hook.
pub open spec fn initial(config: SipConfigView) -> SessionView {
    SessionView {
        config,
        initialized: false,
        identity: Seq::empty(),
        registration_state: CallStateView::Idle,
        current_call: None,
        is_on_hook: true,
    }
}

/// Whether the user is engaged in the session's call.
pub open spec fn engaged(s: SessionView) -> bool {
    s.current_call is Some && active_engagement(s.current_call->0.state)
}

/// What holds of a session at all times: its registration state is one a
/// registration can be in, and without a started engine there is no call.
pub open spec fn wf(s: SessionView) -> bool {
    &&& registration_phase(s.registration_state)
    &&& (!s.initialized ==> s.current_call is None)
}

/// Whether the hook is where the hook policy puts it: off, while the user is
/// engaged in a call. Every step that writes the call's record sees to it;
/// the user can still put the handset back on the hook by hand.
pub open spec fn hook_in_place(s: SessionView) -> bool {
    engaged(s) ==> !s.is_on_hook
}

/// The hook policy: a session whose user is engaged in a call is off the hook.
pub open spec fn off_hook_when_engaged(s: SessionView) -> SessionView {
    if engaged(s) {
        SessionView { is_on_hook: false, ..s }
    } else {
        s
    }
}

/// The session with its call record replaced, and the hook where the policy
/// puts it.
pub open spec fn with_call(s: SessionView, call: CallInfoView) -> SessionView {
    off_hook_when_engaged(SessionView { current_call: Some(call), ..s })
}

/// The session without a call record.
pub open spec fn without_call(s: SessionView) -> SessionView {
    SessionView { current_call: None, ..s }
}

/// Whether the session's call is the one an event speaks of, where `id_text`
/// is the text written for the number in the event: the record carries that
/// text.
pub open spec fn call_matches(s: SessionView, id_text: Seq<char>) -> bool {
    s.current_call is Some && s.current_call->0.id == id_text
}

/// Whether the session's call is the one a request on `call_id` was made for,
/// where `number` is what is read from the text the record carries.
pub open spec fn call_is(s: SessionView, number: Option<u128>, call_id: u128) -> bool {
    s.current_call is Some && number == Some(call_id)
}

/// The outcome of a command that fails.
pub open spec fn refuse(error: SipErrorView) -> OutcomeView {
    answer(SipResponseView::Error(error))
}

/// The reason given where the engine's reply is not one to the request.
pub open spec fn unexpected_reply() -> Seq<char> {
    "Unexpected engine reply"@
}

/// The account that the engine registers, where the mode has one.
pub open spec fn account_of(mode: ConnectionModeView) -> Option<RegistrationView> {
    match mode {
        ConnectionModeView::Server { server_uri, username, password } => Some(
            RegistrationView { username, password, expires: REGISTRATION_EXPIRES },
        ),
        _ => None,
    }
}

/// The call identifier whose audio is detached when the record is dropped.
pub open spec fn audio_of(s: SessionView) -> Option<Seq<char>> {
    match s.current_call {
        Some(c) => Some(c.id),
        None => None,
    }
}

/// Starting the engine for the session's profile: the session is not started
/// until the engine says so, it holds no call, and it shows as registering.
/// `detected` is what the machine reported as its own address.
pub open spec fn on_start(s: SessionView, detected: Option<Seq<char>>) -> Step {
    (
        SessionView {
            initialized: false,
            registration_state: CallStateView::Registering,
            current_call: None,
            ..s
        },
        OutcomeView {
            response: None,
            request: Some(
                EngineRequestView::Start {
                    identity: identity_of(s.config, detected),
                    local_address: local_address_of(s.config),
                    registration: account_of(s.config.connection_mode),
                },
            ),
            stop_audio: audio_of(s),
            notice: None,
        },
    )
}

/// Placing a call: refused while a call exists or where the target is empty.
pub open spec fn on_make_call(s: SessionView, target: Seq<char>) -> Step {
    if s.current_call is Some {
        (s, refuse(SipErrorView::AlreadyInCall))
    } else if target.len() == 0 {
        (s, refuse(SipErrorView::InvalidTarget))
    } else {
        (
            s,
            ask(
                EngineRequestView::PlaceCall {
                    from: s.identity,
                    target,
                    uri: call_uri_of(s.config.connection_mode, target),
                },
            ),
        )
    }
}

/// A request on the session's call: refused where there is no call, or where
/// no number is read from its identifier.
pub open spec fn on_call_request(
    s: SessionView,
    number: Option<u128>,
    request: spec_fn(u128) -> EngineRequestView,
) -> Step {
    if s.current_call is None {
        (s, refuse(SipErrorView::NoActiveCall))
    } else {
        match number {
            Some(call_id) => (s, ask(request(call_id))),
            None => (s, refuse(SipErrorView::InvalidIdentifier)),
        }
    }
}

/// Answering: only an incoming call can be answered.
pub open spec fn on_answer(s: SessionView, number: Option<u128>) -> Step {
    if s.current_call is Some && !s.current_call->0.is_incoming {
        (s, refuse(SipErrorView::NoActiveCall))
    } else {
        on_call_request(s, number, |call_id: u128| EngineRequestView::Answer { call_id })
    }
}

/// What dropping the session's call asks for: its audio is detached, and the
/// engine is asked to hang the call up where its number is known.
pub open spec fn hanging_up(
    s: SessionView,
    number: Option<u128>,
    response: Option<SipResponseView>,
) -> OutcomeView {
    OutcomeView {
        response,
        request: match number {
            Some(call_id) => Some(EngineRequestView::Hangup { call_id }),
            None => None,
        },
        stop_audio: audio_of(s),
        notice: None,
    }
}

/// Hanging up: the record is dropped at once, whatever the engine will say.
pub open spec fn on_hangup(s: SessionView, number: Option<u128>) -> Step {
    if s.current_call is None {
        (s, refuse(SipErrorView::NoActiveCall))
    } else {
        (
            without_call(s),
            hanging_up(
                s,
                number,
                if number is None {
                    Some(SipResponseView::Error(SipErrorView::InvalidIdentifier))
                } else {
                    None
                },
            ),
        )
    }
}

/// Muting: the engine is first asked what the microphone's state is.
pub open spec fn on_toggle_mute(s: SessionView, number: Option<u128>) -> Step {
    on_call_request(s, number, |call_id: u128| EngineRequestView::QueryMute { call_id })
}

/// Hold and resume are one button: a call on hold is resumed, any other is
/// put on hold.
pub open spec fn on_hold_toggle(s: SessionView, number: Option<u128>) -> Step {
    if s.current_call is Some && s.current_call->0.state is OnHold {
        on_call_request(s, number, |call_id: u128| EngineRequestView::Resume { call_id })
    } else {
        on_call_request(s, number, |call_id: u128| EngineRequestView::Hold { call_id })
    }
}

/// Transferring: refused where the target is empty.
pub open spec fn on_transfer(s: SessionView, number: Option<u128>, target: Seq<char>) -> Step {
    if s.current_call is Some && target.len() == 0 {
        (s, refuse(SipErrorView::InvalidTarget))
    } else {
        on_call_request(s, number, |call_id: u128| EngineRequestView::Transfer { call_id, target })
    }
}

/// Where the hook is after it has been toggled: where it was not.
pub open spec fn toggled_hook(s: SessionView) -> bool {
    !s.is_on_hook
}

/// Whether an incoming call is waiting to be answered.
pub open spec fn offering(s: SessionView) -> bool {
    &&& s.current_call is Some
    &&& s.current_call->0.is_incoming
    &&& s.current_call->0.state is Ringing
}

/// Whether toggling the hook declines a call: it does when the hook goes off
/// while an incoming call is waiting.
pub open spec fn toggle_declines(s: SessionView) -> bool {
    !toggled_hook(s) && offering(s)
}

/// Toggling the hook: it is flipped, whatever the state of the call. Where
/// that declines a call, the call's record is dropped at once and the engine
/// is asked to hang the call up.
pub open spec fn on_toggle_hook(s: SessionView, number: Option<u128>) -> Step {
    let is_on_hook = toggled_hook(s);
    let response = Some(SipResponseView::HookToggled { is_on_hook });
    if toggle_declines(s) {
        (SessionView { is_on_hook, current_call: None, ..s }, hanging_up(s, number, response))
    } else {
        (
            SessionView { is_on_hook, ..s },
            OutcomeView { response, request: None, stop_audio: None, notice: None },
        )
    }
}

/// What a command makes of a session. `detected` is what the machine reported
/// as its own address; only `Initialize` looks at it. `number` is what is
/// read from the identifier of the session's call, if the session has a call
/// and a number is read from its identifier. Before the engine is started,
/// every command but `Initialize` is refused.
pub open spec fn on_command(
    s: SessionView,
    command: SipCommandView,
    detected: Option<Seq<char>>,
    number: Option<u128>,
) -> Step {
    match command {
        SipCommandView::Initialize { username, password, server_uri, local_ip, local_port } => {
            on_start(
                SessionView {
                    config: profile_of(username, password, server_uri, local_ip, local_port),
                    ..s
                },
                detected,
            )
        },
        _ => if !s.initialized {
            (s, refuse(SipErrorView::NotInitialized))
        } else {
            match command {
                SipCommandView::MakeCall { target } => on_make_call(s, target),
                SipCommandView::AnswerCall => on_answer(s, number),
                SipCommandView::Hangup => on_hangup(s, number),
                SipCommandView::ToggleMute => on_toggle_mute(s, number),
                SipCommandView::Hold => on_hold_toggle(s, number),
                SipCommandView::Resume => on_hold_toggle(s, number),
                SipCommandView::Transfer { target } => on_transfer(s, number, target),
                SipCommandView::ToggleHook => on_toggle_hook(s, number),
                SipCommandView::GetCallInfo => (
                    s,
                    answer(SipResponseView::CallInfo { call: s.current_call }),
                ),
                _ => (s, answer(SipResponseView::RegistrationState { state: s.registration_state })),
            }
        },
    }
}

/// The engine has started, or has failed to.
pub open spec fn on_started(s: SessionView, identity: Seq<char>, reply: EngineReplyView) -> Step {
    match reply {
        EngineReplyView::Done => (
            SessionView {
                initialized: true,
                identity,
                registration_state: if s.config.connection_mode is Server {
                    CallStateView::Registering
                } else {
                    CallStateView::Registered
                },
                ..s
            },
            answer(SipResponseView::Initialized),
        ),
        EngineReplyView::Failed(reason) => (
            SessionView { registration_state: CallStateView::Error(reason), ..s },
            refuse(SipErrorView::EngineFailure(reason)),
        ),
        _ => (s, refuse(SipErrorView::EngineFailure(unexpected_reply()))),
    }
}

/// The engine has placed the call that was asked for; `id_text` is the text
/// written for the call's number.
pub open spec fn on_call_placed(s: SessionView, target: Seq<char>, id_text: Seq<char>) -> Step {
    if !s.initialized {
        (s, refuse(SipErrorView::NotInitialized))
    } else if s.current_call is Some {
        (s, refuse(SipErrorView::AlreadyInCall))
    } else {
        (
            with_call(s, fresh_call(id_text, target, CallStateView::Calling, false)),
            answer(SipResponseView::CallStarted { call_id: id_text }),
        )
    }
}

/// The engine has done what was asked of the call `call_id`: `change` is what
/// that makes of the call's record. Nothing changes where the session's call
/// is another by now.
pub open spec fn on_call_done(
    s: SessionView,
    number: Option<u128>,
    call_id: u128,
    change: spec_fn(CallInfoView) -> CallInfoView,
    response: SipResponseView,
) -> Step {
    if call_is(s, number, call_id) {
        (with_call(s, change(s.current_call->0)), answer(response))
    } else {
        (s, refuse(SipErrorView::NoActiveCall))
    }
}

/// The record of a call that has just been answered at `now`.
pub open spec fn answered(c: CallInfoView, now: i64) -> CallInfoView {
    CallInfoView { state: CallStateView::Connected, connected_at: Some(now), ..c }
}

/// The record with another state.
pub open spec fn in_state(c: CallInfoView, state: CallStateView) -> CallInfoView {
    CallInfoView { state, ..c }
}

/// The record with the microphone muted or not.
pub open spec fn muted_as(c: CallInfoView, muted: bool) -> CallInfoView {
    CallInfoView { is_muted: Some(muted), ..c }
}

/// What a reply that reports success makes of a session.
pub open spec fn on_success(
    s: SessionView,
    request: EngineRequestView,
    reply: EngineReplyView,
    now: i64,
    number: Option<u128>,
    id_text: Seq<char>,
) -> Step {
    match (request, reply) {
        (EngineRequestView::PlaceCall { from, target, uri }, EngineReplyView::CallPlaced { call_id }) => {
            on_call_placed(s, target, id_text)
        },
        (EngineRequestView::Answer { call_id }, EngineReplyView::Done) => {
            if call_is(s, number, call_id) && s.current_call->0.is_incoming {
                (with_call(s, answered(s.current_call->0, now)), answer(SipResponseView::CallAnswered))
            } else {
                (s, refuse(SipErrorView::NoActiveCall))
            }
        },
        (EngineRequestView::Hangup { call_id }, EngineReplyView::Done) => (
            s,
            answer(SipResponseView::CallEnded),
        ),
        (EngineRequestView::Hold { call_id }, EngineReplyView::Done) => on_call_done(
            s,
            number,
            call_id,
            |c: CallInfoView| in_state(c, CallStateView::OnHold),
            SipResponseView::CallOnHold,
        ),
        (EngineRequestView::Resume { call_id }, EngineReplyView::Done) => on_call_done(
            s,
            number,
            call_id,
            |c: CallInfoView| in_state(c, CallStateView::Connected),
            SipResponseView::CallResumed,
        ),
        (EngineRequestView::Transfer { call_id, target }, EngineReplyView::Done) => (
            s,
            answer(SipResponseView::CallTransferred),
        ),
        (EngineRequestView::QueryMute { call_id }, EngineReplyView::MuteState { muted }) => {
            if call_is(s, number, call_id) {
                (s, ask(EngineRequestView::SetMute { call_id, muted: !muted }))
            } else {
                (s, refuse(SipErrorView::NoActiveCall))
            }
        },
        (EngineRequestView::SetMute { call_id, muted }, EngineReplyView::Done) => on_call_done(
            s,
            number,
            call_id,
            |c: CallInfoView| muted_as(c, muted),
            SipResponseView::MuteToggled { is_muted: muted },
        ),
        _ => (s, refuse(SipErrorView::EngineFailure(unexpected_reply()))),
    }
}

/// What the engine's reply to `request` makes of a session, at the time `now`.
/// `number` is what is read from the identifier of the session's call, and
/// `id_text` the text written for the number in the reply, where it holds
/// one. A failure leaves the call record as it is and is reported to the
/// user; the reply to a rejection is of no interest.
pub open spec fn on_reply(
    s: SessionView,
    request: EngineRequestView,
    reply: EngineReplyView,
    now: i64,
    number: Option<u128>,
    id_text: Seq<char>,
) -> Step {
    match request {
        EngineRequestView::Start { identity, local_address, registration } => on_started(
            s,
            identity,
            reply,
        ),
        EngineRequestView::Reject { call_id } => (s, nothing()),
        _ => match reply {
            EngineReplyView::Failed(reason) => (s, refuse(SipErrorView::EngineFailure(reason))),
            _ => on_success(s, request, reply, now, number, id_text),
        },
    }
}

/// An event on a call: `change` is what it makes of the call's record. An
/// event on another call than the session's changes nothing.
pub open spec fn on_call_event(
    s: SessionView,
    id_text: Seq<char>,
    change: spec_fn(CallInfoView) -> CallInfoView,
) -> Step {
    if call_matches(s, id_text) {
        (with_call(s, change(s.current_call->0)), nothing())
    } else {
        (s, nothing())
    }
}

/// The record after the engine has reported `new_state` at `now`: the state
/// is the one that stands for the engine's, and a call that is connected for
/// the first time is connected at `now`.
pub open spec fn reported(c: CallInfoView, new_state: EngineCallState, now: i64) -> CallInfoView {
    CallInfoView {
        state: lifecycle_of(new_state),
        connected_at: if new_state == EngineCallState::Connected && c.connected_at is None {
            Some(now)
        } else {
            c.connected_at
        },
        ..c
    }
}

/// What an event makes of a session, at the time `now`. `id_text` is the text
/// written for the number of the call the event speaks of. Before the engine
/// is started, events are ignored; so are, at all times, those that say
/// nothing of the state of the call or of the registration. A registration
/// status that is not in the table changes nothing, and is reported as what
/// it is.
pub open spec fn on_event(s: SessionView, event: SipEventView, now: i64, id_text: Seq<char>) -> Step {
    if !s.initialized {
        (s, nothing())
    } else {
        match event {
            SipEventView::IncomingCall { call_id, from, display_name } => {
                if s.is_on_hook {
                    (
                        with_call(s, fresh_call(id_text, from, CallStateView::Ringing, true)),
                        OutcomeView {
                            response: None,
                            request: None,
                            stop_audio: None,
                            notice: Some(NoticeView::IncomingCall { caller: from }),
                        },
                    )
                } else {
                    (s, ask(EngineRequestView::Reject { call_id }))
                }
            },
            SipEventView::CallStateChanged { call_id, new_state } => on_call_event(
                s,
                id_text,
                |c: CallInfoView| reported(c, new_state, now),
            ),
            SipEventView::CallEnded { call_id } => {
                if call_matches(s, id_text) {
                    (
                        without_call(s),
                        OutcomeView {
                            response: None,
                            request: None,
                            stop_audio: audio_of(s),
                            notice: None,
                        },
                    )
                } else {
                    (s, nothing())
                }
            },
            SipEventView::CallOnHold { call_id } => on_call_event(
                s,
                id_text,
                |c: CallInfoView| in_state(c, CallStateView::OnHold),
            ),
            SipEventView::CallResumed { call_id } => on_call_event(
                s,
                id_text,
                |c: CallInfoView| in_state(c, CallStateView::Connected),
            ),
            SipEventView::RegistrationStatusChanged { status } => match registration_of(status) {
                Some(state) => (
                    SessionView { registration_state: state, ..s },
                    OutcomeView {
                        response: None,
                        request: None,
                        stop_audio: None,
                        notice: if state is Registered {
                            Some(NoticeView::Registered)
                        } else {
                            None
                        },
                    },
                ),
                None => (
                    s,
                    OutcomeView {
                        response: None,
                        request: None,
                        stop_audio: None,
                        notice: Some(NoticeView::UnknownRegistrationStatus { status }),
                    },
                ),
            },
            _ => (s, nothing()),
        }
    }
}

/// The session after its call's elapsed time has been brought up to `now`. The
/// time is counted while the call is connected or on hold, from the moment it
/// was connected.
pub open spec fn on_tick(s: SessionView, now: i64) -> SessionView {
    match s.current_call {
        Some(c) => if billable(c.state) && c.connected_at is Some && elapsed_between(
            c.connected_at->0,
            now,
        ) is Some {
            SessionView {
                current_call: Some(
                    CallInfoView { duration: elapsed_between(c.connected_at->0, now), ..c },
                ),
                ..s
            }
        } else {
            s
        },
        None => s,
    }
}

/// Whether the presentation layer is to be told of the passing of time.
pub open spec fn ticking(s: SessionView) -> bool {
    s.current_call is Some && billable(s.current_call->0.state)
}

/// The call records a session holds: none or one.
pub open spec fn records(s: SessionView) -> Seq<CallInfoView> {
    match s.current_call {
        Some(c) => seq![c],
        None => Seq::empty(),
    }
}

/// Anything that can happen to a session, with all that the rules need to
/// know of it.
#[verifier::ext_equal]
pub enum InputView {
    /// A command arrives. `detected` is what the machine reports as its
    /// address, `number` what is read from the identifier of the call.
    Command { command: SipCommandView, detected: Option<Seq<char>>, number: Option<u128> },
    /// The engine replies to `request` at the time `now`. `number` is what is
    /// read from the identifier of the call, `id_text` the text written for
    /// the number in the reply.
    Reply {
        request: EngineRequestView,
        reply: EngineReplyView,
        now: i64,
        number: Option<u128>,
        id_text: Seq<char>,
    },
    /// The engine raises an event at the time `now`. `id_text` is the text
    /// written for the number in the event.
    Event { event: SipEventView, now: i64, id_text: Seq<char> },
    /// Time has passed, and it is `now`.
    Tick { now: i64 },
}

/// What one thing that happens makes of a session.
pub open spec fn step_of(s: SessionView, input: InputView) -> Step {
    match input {
        InputView::Command { command, detected, number } => on_command(s, command, detected, number),
        InputView::Reply { request, reply, now, number, id_text } => on_reply(
            s,
            request,
            reply,
            now,
            number,
            id_text,
        ),
        InputView::Event { event, now, id_text } => on_event(s, event, now, id_text),
        InputView::Tick { now } => (on_tick(s, now), nothing()),
    }
}

/// The session after one thing has happened to it.
pub open spec fn next(s: SessionView, input: InputView) -> SessionView {
    step_of(s, input).0
}

/// The session after `inputs` have happened to it, in their order.
pub open spec fn run(s: SessionView, inputs: Seq<InputView>) -> SessionView
    decreases inputs.len(),
{
    if inputs.len() == 0 {
        s
    } else {
        next(run(s, inputs.drop_last()), inputs.last())
    }
}

/// Whether `input` is the user toggling the hook while engaged in a call.
pub open spec fn toggles_mid_call(s: SessionView, input: InputView) -> bool {
    &&& s.initialized
    &&& engaged(s)
    &&& input is Command
    &&& input->command is ToggleHook
}

/// Whether, in the course of `inputs`, the hook is left to the hook policy:
/// the user never toggles it while engaged in a call.
pub open spec fn hook_left_to_policy(s: SessionView, inputs: Seq<InputView>) -> bool
    decreases inputs.len(),
{
    inputs.len() == 0 || (hook_left_to_policy(s, inputs.drop_last()) && !toggles_mid_call(
        run(s, inputs.drop_last()),
        inputs.last(),
    ))
}

} // verus!
