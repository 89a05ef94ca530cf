//! The session: the one owner of the call state, changed only by the
//! commands, replies and events handed to it.
//!
//! [`SipClientManager::step`] is the whole of the rules as one function of
//! the session and what happens to it. The other entry points gather what a
//! step needs to know from the machine and the call identifiers, and then
//! take that step. The time is always told by the caller.

use crate::call::{clone_call, fresh_call, view_of, CallInfo, CallState, EngineCallState};
use crate::clock::elapsed;
use crate::commands::{SipCommand, SipCommandView, SipError, SipErrorView, SipResponse};
use crate::config::{clone_text, listening_address_of, ConnectionMode, SipConfig};
use crate::engine::{
    EngineReply, EngineReplyView, EngineRequest, Notice, Outcome, Registration, SipEvent,
    SipEventView,
};
use crate::ident::{engine_call_id, local_call_id, uuid_text, uuid_value};
use crate::laws::lemma_next_keeps_wf;
use crate::model::{
    account_of, answered, audio_of, call_is, call_matches, hanging_up, in_state, initial,
    muted_as,
    off_hook_when_engaged, offering, on_command, on_event, on_reply, on_start, on_success,
    on_tick, refuse, reported, step_of, ticking, unexpected_reply, wf, with_call, InputView,
    SessionView, REGISTRATION_EXPIRES,
};
use crate::network::get_default_interface;
use crate::text::str_eq;
use vstd::prelude::*;
use vstd::string::*;

verus! {

/// The state of one session. It starts without an engine, without a call and
/// on the hook.
#[derive(Debug)]
pub struct SipClientManager {
    config: SipConfig,
    initialized: bool,
    identity: String,
    registration_state: CallState,
    current_call: Option<CallInfo>,
    is_on_hook: bool,
}

impl View for SipClientManager {
    type V = SessionView;

    closed spec fn view(&self) -> SessionView {
        SessionView {
            config: self.config@,
            initialized: self.initialized,
            identity: self.identity@,
            registration_state: self.registration_state@,
            current_call: view_of(self.current_call),
            is_on_hook: self.is_on_hook,
        }
    }
}

/// Anything that can happen to a session, with all that a step needs to know
/// of it.
#[derive(Debug, PartialEq, Eq)]
pub enum Input {
    /// A command arrives. `detected` is what the machine reports as its
    /// address, `number` what is read from the identifier of the call.
    Command { command: SipCommand, detected: Option<String>, number: Option<u128> },
    /// The engine replies to `request` at the time `now`. `number` is what is
    /// read from the identifier of the call, `id_text` the text written for
    /// the number in the reply.
    Reply {
        request: EngineRequest,
        reply: EngineReply,
        now: i64,
        number: Option<u128>,
        id_text: String,
    },
    /// The engine raises an event at the time `now`. `id_text` is the text
    /// written for the number in the event.
    Event { event: SipEvent, now: i64, id_text: String },
    /// Time has passed, and it is `now`.
    Tick { now: i64 },
}

impl View for Input {
    type V = InputView;

    open spec fn view(&self) -> InputView {
        match *self {
            Input::Command { command, detected, number } => InputView::Command {
                command: command@,
                detected: view_of(detected),
                number,
            },
            Input::Reply { request, reply, now, number, id_text } => InputView::Reply {
                request: request@,
                reply: reply@,
                now,
                number,
                id_text: id_text@,
            },
            Input::Event { event, now, id_text } => InputView::Event {
                event: event@,
                now,
                id_text: id_text@,
            },
            Input::Tick { now } => InputView::Tick { now },
        }
    }
}

/// The number that is read from the identifier of the session's call; `None`
/// without a call, and where no number is read.
pub open spec fn number_of(s: SessionView) -> Option<u128> {
    match s.current_call {
        Some(c) => uuid_value(c.id),
        None => None,
    }
}

/// The number of the call that a reply says was placed, where it says so.
pub open spec fn placed_by(reply: EngineReplyView) -> Option<u128> {
    match reply {
        EngineReplyView::CallPlaced { call_id } => Some(call_id),
        _ => None,
    }
}

/// The text that is written for the number in a reply; empty for a reply
/// without one.
pub open spec fn reply_text(reply: EngineReplyView) -> Seq<char> {
    match placed_by(reply) {
        Some(call_id) => uuid_text(call_id),
        None => Seq::empty(),
    }
}

/// The number of the call an event speaks of, where it speaks of one.
pub open spec fn call_of(event: SipEventView) -> Option<u128> {
    match event {
        SipEventView::IncomingCall { call_id, from, display_name } => Some(call_id),
        SipEventView::CallStateChanged { call_id, new_state } => Some(call_id),
        SipEventView::CallEnded { call_id } => Some(call_id),
        SipEventView::CallOnHold { call_id } => Some(call_id),
        SipEventView::CallResumed { call_id } => Some(call_id),
        SipEventView::CallConnected { call_id, codec } => Some(call_id),
        SipEventView::DtmfSent { call_id, digits } => Some(call_id),
        _ => None,
    }
}

/// The text that is written for the number of the call an event speaks of;
/// empty for an event that speaks of no call.
pub open spec fn event_text(event: SipEventView) -> Seq<char> {
    match call_of(event) {
        Some(call_id) => uuid_text(call_id),
        None => Seq::empty(),
    }
}

/// See [`event_text`]. The number read from the text is the event's again.
pub fn event_id_text(event: &SipEvent) -> (r: String)
    ensures
        r@ == event_text(event@),
        call_of(event@) is Some ==> uuid_value(r@) == call_of(event@),
{
    match event {
        SipEvent::IncomingCall { call_id, from, display_name } => local_call_id(*call_id),
        SipEvent::CallStateChanged { call_id, new_state } => local_call_id(*call_id),
        SipEvent::CallEnded { call_id } => local_call_id(*call_id),
        SipEvent::CallOnHold { call_id } => local_call_id(*call_id),
        SipEvent::CallResumed { call_id } => local_call_id(*call_id),
        SipEvent::CallConnected { call_id, codec } => local_call_id(*call_id),
        SipEvent::DtmfSent { call_id, digits } => local_call_id(*call_id),
        _ => String::new(),
    }
}

/// See [`reply_text`]. The number read from the text is the reply's again.
pub fn reply_id_text(reply: &EngineReply) -> (r: String)
    ensures
        r@ == reply_text(reply@),
        placed_by(reply@) is Some ==> uuid_value(r@) == placed_by(reply@),
{
    match reply {
        EngineReply::CallPlaced { call_id } => local_call_id(*call_id),
        _ => String::new(),
    }
}

impl SipClientManager {
    /// A new session for the profile `config`.
    pub fn new(config: SipConfig) -> (r: Self)
        ensures
            r@ == initial(config@),
            wf(r@),
    {
        SipClientManager {
            config,
            initialized: false,
            identity: String::new(),
            registration_state: CallState::Idle,
            current_call: None,
            is_on_hook: true,
        }
    }

    /// The profile of the session.
    pub fn get_config(&self) -> (r: &SipConfig)
        ensures
            r@ == self@.config,
    {
        &self.config
    }

    /// Replaces the profile. The engine goes on as it was started; the new
    /// profile takes effect when it is started again.
    pub fn update_config(&mut self, config: SipConfig)
        ensures
            final(self)@ == (SessionView { config: config@, ..old(self)@ }),
            wf(old(self)@) ==> wf(final(self)@),
    {
        self.config = config;
    }

    /// Whether the engine is started.
    pub fn is_initialized(&self) -> (r: bool)
        ensures
            r == self@.initialized,
    {
        self.initialized
    }

    /// The registration state, as it is published.
    pub fn get_registration_state(&self) -> (r: CallState)
        ensures
            r@ == self@.registration_state,
    {
        self.registration_state.clone()
    }

    /// The call record, as it is published.
    pub fn get_current_call(&self) -> (r: Option<CallInfo>)
        ensures
            view_of(r) == self@.current_call,
    {
        clone_call(&self.current_call)
    }

    /// Whether the session only listens for incoming calls.
    pub fn is_receiver_mode(&self) -> (r: bool)
        ensures
            r == (self@.config.connection_mode is Receiver),
    {
        self.config.connection_mode.is_receiver()
    }

    /// Whether the handset is on the hook.
    pub fn is_on_hook(&self) -> (r: bool)
        ensures
            r == self@.is_on_hook,
    {
        self.is_on_hook
    }

    /// Whether the registration is active, or there is nothing to register.
    pub fn is_registered(&self) -> (r: bool)
        ensures
            r == (self@.registration_state is Registered),
    {
        match &self.registration_state {
            CallState::Registered => true,
            _ => false,
        }
    }

    /// Whether an incoming call is waiting to be answered.
    pub fn is_offering(&self) -> (r: bool)
        ensures
            r == offering(self@),
    {
        match &self.current_call {
            Some(call) => call.is_incoming && call.state.is_ringing(),
            None => false,
        }
    }

    /// Whether the time of a call is being counted, so that the screens are
    /// to be told of its passing.
    pub fn is_ticking(&self) -> (r: bool)
        ensures
            r == ticking(self@),
    {
        match &self.current_call {
            Some(call) => call.state.is_billable(),
            None => false,
        }
    }

    /// Whether there is a call and it is on hold.
    pub fn is_on_hold(&self) -> (r: bool)
        ensures
            r == (self@.current_call is Some && self@.current_call->0.state is OnHold),
    {
        match &self.current_call {
            Some(call) => call.state.is_on_hold(),
            None => false,
        }
    }

    /// Whether there is a call and its record says the microphone is muted.
    pub fn is_muted(&self) -> (r: bool)
        ensures
            r == (self@.current_call is Some && self@.current_call->0.is_muted == Some(true)),
    {
        match &self.current_call {
            Some(call) => match call.is_muted {
                Some(muted) => muted,
                None => false,
            },
            None => false,
        }
    }

    /// The account the engine registers with: the server's, with the
    /// registration lasting an hour; none without a server.
    pub fn register(&self) -> (r: Option<Registration>)
        ensures
            view_of(r) == account_of(self@.config.connection_mode),
    {
        match &self.config.connection_mode {
            ConnectionMode::Server { server_uri, username, password } => Some(
                Registration {
                    username: username.clone(),
                    password: password.clone(),
                    expires: REGISTRATION_EXPIRES,
                },
            ),
            _ => None,
        }
    }

    /// The address at which a listening session can be called, with the
    /// machine's own address where the profile names none; `None` for a
    /// session that does not only listen.
    pub fn get_listening_address(&self) -> (r: Option<String>)
        ensures
            exists|detected: Option<Seq<char>>|
                view_of(r) == listening_address_of(self@.config, detected),
    {
        let detected = if self.config.connection_mode.is_receiver() && self.config.local_ip.is_none() {
            get_default_interface()
        } else {
            None
        };
        let r = self.config.listening_address(&detected);
        assert(view_of(r) == listening_address_of(self@.config, view_of(detected)));
        r
    }

    /// Puts the handset on or off the hook, as asked.
    pub fn set_hook_state(&mut self, on_hook: bool)
        ensures
            final(self)@ == (SessionView { is_on_hook: on_hook, ..old(self)@ }),
            wf(old(self)@) ==> wf(final(self)@),
    {
        self.is_on_hook = on_hook;
    }

    fn enforce_hook(&mut self)
        ensures
            final(self)@ == off_hook_when_engaged(old(self)@),
    {
        let engaged = match &self.current_call {
            Some(call) => call.state.is_active_engagement(),
            None => false,
        };
        if engaged {
            self.is_on_hook = false;
        }
    }

    fn set_call_state(&mut self, state: CallState)
        requires
            old(self)@.current_call is Some,
        ensures
            final(self)@ == with_call(old(self)@, in_state(old(self)@.current_call->0, state@)),
    {
        match &mut self.current_call {
            Some(call) => {
                call.state = state;
            },
            None => {},
        }
        self.enforce_hook();
    }

    fn set_muted(&mut self, muted: bool)
        requires
            old(self)@.current_call is Some,
        ensures
            final(self)@ == with_call(old(self)@, muted_as(old(self)@.current_call->0, muted)),
    {
        match &mut self.current_call {
            Some(call) => {
                call.is_muted = Some(muted);
            },
            None => {},
        }
        self.enforce_hook();
    }

    fn mark_answered(&mut self, now: i64)
        requires
            old(self)@.current_call is Some,
        ensures
            final(self)@ == with_call(old(self)@, answered(old(self)@.current_call->0, now)),
    {
        match &mut self.current_call {
            Some(call) => {
                call.state = CallState::Connected;
                call.connected_at = Some(now);
            },
            None => {},
        }
        self.enforce_hook();
    }

    fn mark_reported(&mut self, new_state: EngineCallState, now: i64)
        requires
            old(self)@.current_call is Some,
        ensures
            final(self)@ == with_call(
                old(self)@,
                reported(old(self)@.current_call->0, new_state, now),
            ),
    {
        match &mut self.current_call {
            Some(call) => {
                call.state = CallState::from_engine_state(new_state);
                if new_state == EngineCallState::Connected && call.connected_at.is_none() {
                    call.connected_at = Some(now);
                }
            },
            None => {},
        }
        self.enforce_hook();
    }

    fn offer_call(&mut self, id: String, remote_uri: String, state: CallState, is_incoming: bool)
        ensures
            final(self)@ == with_call(
                old(self)@,
                fresh_call(id@, remote_uri@, state@, is_incoming),
            ),
    {
        self.current_call = Some(
            CallInfo {
                id,
                remote_uri,
                state,
                duration: None,
                is_incoming,
                connected_at: None,
                is_muted: Some(false),
            },
        );
        self.enforce_hook();
    }

    /// The identifier of the call whose audio goes with its record.
    fn audio_id(&self) -> (r: Option<String>)
        ensures
            view_of(r) == audio_of(self@),
    {
        match &self.current_call {
            Some(call) => Some(call.id.clone()),
            None => None,
        }
    }

    /// See [`number_of`].
    pub fn call_number(&self) -> (r: Option<u128>)
        ensures
            r == number_of(self@),
    {
        match &self.current_call {
            None => None,
            Some(call) => match engine_call_id(call.id.as_str()) {
                Ok(number) => Some(number),
                Err(_) => None,
            },
        }
    }

    /// See [`call_matches`].
    fn carries(&self, id_text: &str) -> (r: bool)
        ensures
            r == call_matches(self@, id_text@),
    {
        match &self.current_call {
            None => false,
            Some(call) => str_eq(call.id.as_str(), id_text),
        }
    }

    /// See [`call_is`].
    fn holds(&self, number: Option<u128>, call_id: u128) -> (r: bool)
        ensures
            r == call_is(self@, number, call_id),
    {
        match number {
            Some(n) => self.current_call.is_some() && n == call_id,
            None => false,
        }
    }

    fn refusal(error: SipError) -> (r: Outcome)
        ensures
            r@ == refuse(error@),
    {
        Outcome::respond(SipResponse::Error(error))
    }

    /// The request on the session's call that `number` allows.
    fn on_call(&self, number: Option<u128>) -> (r: Result<u128, Outcome>)
        ensures
            match r {
                Ok(call_id) => self@.current_call is Some && number == Some(call_id),
                Err(outcome) => if self@.current_call is None {
                    outcome@ == refuse(SipErrorView::NoActiveCall)
                } else {
                    number is None && outcome@ == refuse(SipErrorView::InvalidIdentifier)
                },
            },
    {
        if self.current_call.is_none() {
            Err(Self::refusal(SipError::NoActiveCall))
        } else {
            match number {
                Some(call_id) => Ok(call_id),
                None => Err(Self::refusal(SipError::InvalidIdentifier)),
            }
        }
    }

    /// Starts the engine for the session's profile, with `detected` as what
    /// the machine reported as its own address.
    pub fn initialize_with(&mut self, detected: &Option<String>) -> (r: Outcome)
        ensures
            (final(self)@, r@) == on_start(old(self)@, view_of(*detected)),
            wf(final(self)@),
    {
        let identity = self.config.identity(detected);
        let local_address = self.config.local_address();
        let registration = self.register();
        let stop_audio = self.audio_id();
        self.initialized = false;
        self.registration_state = CallState::Registering;
        self.current_call = None;
        Outcome {
            response: None,
            request: Some(EngineRequest::Start { identity, local_address, registration }),
            stop_audio,
            notice: None,
        }
    }

    /// Starts the engine for the session's profile. Where a listening session
    /// names no address of its own, the machine is asked for one.
    pub fn initialize(&mut self) -> (r: Outcome)
        ensures
            exists|detected: Option<Seq<char>>|
                (final(self)@, r@) == on_start(old(self)@, detected),
            wf(final(self)@),
    {
        let detected = if self.config.connection_mode.is_receiver() && self.config.local_ip.is_none() {
            get_default_interface()
        } else {
            None
        };
        let r = self.initialize_with(&detected);
        assert((self@, r@) == on_start(old(self)@, view_of(detected)));
        r
    }

    fn place(&self, number: Option<u128>, target_uri: &str) -> (r: Outcome)
        ensures
            (self@, r@) == on_command(
                self@,
                SipCommandView::MakeCall { target: target_uri@ },
                None,
                number,
            ),
    {
        if !self.initialized {
            Self::refusal(SipError::NotInitialized)
        } else if self.current_call.is_some() {
            Self::refusal(SipError::AlreadyInCall)
        } else if target_uri.unicode_len() == 0 {
            Self::refusal(SipError::InvalidTarget)
        } else {
            Outcome::perform(
                EngineRequest::PlaceCall {
                    from: self.identity.clone(),
                    target: String::from_str(target_uri),
                    uri: self.config.connection_mode.call_uri(target_uri),
                },
            )
        }
    }

    fn answer(&self, number: Option<u128>) -> (r: Outcome)
        ensures
            (self@, r@) == on_command(self@, SipCommandView::AnswerCall, None, number),
    {
        if !self.initialized {
            return Self::refusal(SipError::NotInitialized);
        }
        let incoming = match &self.current_call {
            Some(call) => call.is_incoming,
            None => true,
        };
        if !incoming {
            return Self::refusal(SipError::NoActiveCall);
        }
        match self.on_call(number) {
            Ok(call_id) => Outcome::perform(EngineRequest::Answer { call_id }),
            Err(outcome) => outcome,
        }
    }

    /// Drops the call's record, and says what that asks for.
    fn drop_call(&mut self, number: Option<u128>, response: Option<SipResponse>) -> (r: Outcome)
        ensures
            final(self)@ == (SessionView { current_call: None, ..old(self)@ }),
            r@ == hanging_up(old(self)@, number, view_of(response)),
    {
        let stop_audio = self.audio_id();
        self.current_call = None;
        Outcome {
            response,
            request: match number {
                Some(call_id) => Some(EngineRequest::Hangup { call_id }),
                None => None,
            },
            stop_audio,
            notice: None,
        }
    }

    fn hang_up(&mut self, number: Option<u128>) -> (r: Outcome)
        ensures
            (final(self)@, r@) == on_command(old(self)@, SipCommandView::Hangup, None, number),
    {
        if !self.initialized {
            Self::refusal(SipError::NotInitialized)
        } else if self.current_call.is_none() {
            Self::refusal(SipError::NoActiveCall)
        } else {
            let response = match number {
                Some(_) => None,
                None => Some(SipResponse::Error(SipError::InvalidIdentifier)),
            };
            self.drop_call(number, response)
        }
    }

    fn mute(&self, number: Option<u128>) -> (r: Outcome)
        ensures
            (self@, r@) == on_command(self@, SipCommandView::ToggleMute, None, number),
    {
        if !self.initialized {
            return Self::refusal(SipError::NotInitialized);
        }
        match self.on_call(number) {
            Ok(call_id) => Outcome::perform(EngineRequest::QueryMute { call_id }),
            Err(outcome) => outcome,
        }
    }

    fn hold_button(&self, number: Option<u128>) -> (r: Outcome)
        ensures
            (self@, r@) == on_command(self@, SipCommandView::Hold, None, number),
            (self@, r@) == on_command(self@, SipCommandView::Resume, None, number),
    {
        if !self.initialized {
            return Self::refusal(SipError::NotInitialized);
        }
        let held = self.is_on_hold();
        match self.on_call(number) {
            Ok(call_id) => if held {
                Outcome::perform(EngineRequest::Resume { call_id })
            } else {
                Outcome::perform(EngineRequest::Hold { call_id })
            },
            Err(outcome) => outcome,
        }
    }

    fn hand_over(&self, number: Option<u128>, target_uri: &str) -> (r: Outcome)
        ensures
            (self@, r@) == on_command(
                self@,
                SipCommandView::Transfer { target: target_uri@ },
                None,
                number,
            ),
    {
        if !self.initialized {
            return Self::refusal(SipError::NotInitialized);
        }
        if self.current_call.is_some() && target_uri.unicode_len() == 0 {
            return Self::refusal(SipError::InvalidTarget);
        }
        match self.on_call(number) {
            Ok(call_id) => Outcome::perform(
                EngineRequest::Transfer { call_id, target: String::from_str(target_uri) },
            ),
            Err(outcome) => outcome,
        }
    }

    fn flip_hook(&mut self, number: Option<u128>) -> (r: Outcome)
        ensures
            (final(self)@, r@) == on_command(old(self)@, SipCommandView::ToggleHook, None, number),
    {
        if !self.initialized {
            return Self::refusal(SipError::NotInitialized);
        }
        let is_on_hook = !self.is_on_hook;
        let declines = !is_on_hook && self.is_offering();
        self.is_on_hook = is_on_hook;
        let response = Some(SipResponse::HookToggled { is_on_hook });
        if declines {
            self.drop_call(number, response)
        } else {
            Outcome { response, request: None, stop_audio: None, notice: None }
        }
    }

    /// Asks for a call to `target_uri`.
    pub fn make_call(&self, target_uri: &str) -> (r: Outcome)
        ensures
            (self@, r@) == on_command(
                self@,
                SipCommandView::MakeCall { target: target_uri@ },
                None,
                number_of(self@),
            ),
    {
        self.place(None, target_uri)
    }

    /// Asks for the incoming call to be answered.
    pub fn answer_call(&self) -> (r: Outcome)
        ensures
            (self@, r@) == on_command(self@, SipCommandView::AnswerCall, None, number_of(self@)),
    {
        self.answer(self.call_number())
    }

    /// Ends the call: the record is dropped, its audio is detached, and the
    /// engine is asked to hang up.
    pub fn hangup(&mut self) -> (r: Outcome)
        ensures
            (final(self)@, r@) == on_command(
                old(self)@,
                SipCommandView::Hangup,
                None,
                number_of(old(self)@),
            ),
            wf(old(self)@) ==> final(self)@.current_call is None,
    {
        let number = self.call_number();
        self.hang_up(number)
    }

    /// Asks for the microphone to be muted or unmuted: first, for its state.
    pub fn toggle_mute(&self) -> (r: Outcome)
        ensures
            (self@, r@) == on_command(self@, SipCommandView::ToggleMute, None, number_of(self@)),
    {
        self.mute(self.call_number())
    }

    /// The hold button: asks for a call on hold to be resumed, for any other
    /// to be put on hold.
    pub fn hold(&self) -> (r: Outcome)
        ensures
            (self@, r@) == on_command(self@, SipCommandView::Hold, None, number_of(self@)),
    {
        self.hold_button(self.call_number())
    }

    /// The hold button under its other name: see [`Self::hold`].
    pub fn resume(&self) -> (r: Outcome)
        ensures
            (self@, r@) == on_command(self@, SipCommandView::Resume, None, number_of(self@)),
    {
        self.hold_button(self.call_number())
    }

    /// Asks for the call to be handed over to `target_uri`.
    pub fn transfer(&self, target_uri: &str) -> (r: Outcome)
        ensures
            (self@, r@) == on_command(
                self@,
                SipCommandView::Transfer { target: target_uri@ },
                None,
                number_of(self@),
            ),
    {
        self.hand_over(self.call_number(), target_uri)
    }

    /// Toggles the hook, whatever the state of the call. Going off the hook
    /// while an incoming call rings declines that call: its record is dropped
    /// and the engine is asked to hang it up.
    pub fn toggle_hook(&mut self) -> (r: Outcome)
        ensures
            (final(self)@, r@) == on_command(
                old(self)@,
                SipCommandView::ToggleHook,
                None,
                number_of(old(self)@),
            ),
    {
        let number = self.call_number();
        self.flip_hook(number)
    }

    fn apply_command(
        &mut self,
        command: &SipCommand,
        detected: &Option<String>,
        number: Option<u128>,
    ) -> (r: Outcome)
        ensures
            (final(self)@, r@) == on_command(old(self)@, command@, view_of(*detected), number),
    {
        match command {
            SipCommand::Initialize { username, password, server_uri, local_ip, local_port } => {
                self.config = SipConfig::from_form(
                    username.as_str(),
                    password.as_str(),
                    server_uri.as_str(),
                    local_ip,
                    *local_port,
                );
                self.initialize_with(detected)
            },
            SipCommand::MakeCall { target } => self.place(number, target.as_str()),
            SipCommand::AnswerCall => self.answer(number),
            SipCommand::Hangup => self.hang_up(number),
            SipCommand::ToggleMute => self.mute(number),
            SipCommand::Hold => self.hold_button(number),
            SipCommand::Resume => self.hold_button(number),
            SipCommand::Transfer { target } => self.hand_over(number, target.as_str()),
            SipCommand::ToggleHook => self.flip_hook(number),
            SipCommand::GetCallInfo => {
                if !self.initialized {
                    Self::refusal(SipError::NotInitialized)
                } else {
                    Outcome::respond(SipResponse::CallInfo { call: self.get_current_call() })
                }
            },
            SipCommand::GetRegistrationState => {
                if !self.initialized {
                    Self::refusal(SipError::NotInitialized)
                } else {
                    Outcome::respond(
                        SipResponse::RegistrationState { state: self.get_registration_state() },
                    )
                }
            },
        }
    }

    /// The answer to a reply that is not one to the request.
    fn unexpected() -> (r: Outcome)
        ensures
            r@ == refuse(SipErrorView::EngineFailure(unexpected_reply())),
    {
        Self::refusal(SipError::EngineFailure(String::from_str("Unexpected engine reply")))
    }

    fn apply_success(
        &mut self,
        request: &EngineRequest,
        reply: &EngineReply,
        now: i64,
        number: Option<u128>,
        id_text: &str,
    ) -> (r: Outcome)
        requires
            !(request@ is Start),
            !(request@ is Reject),
            !(reply@ is Failed),
        ensures
            (final(self)@, r@) == on_success(old(self)@, request@, reply@, now, number, id_text@),
    {
        match request {
            EngineRequest::PlaceCall { from, target, uri } => match reply {
                EngineReply::CallPlaced { call_id } => {
                    if !self.initialized {
                        Self::refusal(SipError::NotInitialized)
                    } else if self.current_call.is_some() {
                        Self::refusal(SipError::AlreadyInCall)
                    } else {
                        self.offer_call(
                            String::from_str(id_text),
                            target.clone(),
                            CallState::Calling,
                            false,
                        );
                        Outcome::respond(
                            SipResponse::CallStarted { call_id: String::from_str(id_text) },
                        )
                    }
                },
                _ => Self::unexpected(),
            },
            EngineRequest::Answer { call_id } => match reply {
                EngineReply::Done => {
                    let incoming = match &self.current_call {
                        Some(call) => call.is_incoming,
                        None => false,
                    };
                    if self.holds(number, *call_id) && incoming {
                        self.mark_answered(now);
                        Outcome::respond(SipResponse::CallAnswered)
                    } else {
                        Self::refusal(SipError::NoActiveCall)
                    }
                },
                _ => Self::unexpected(),
            },
            EngineRequest::Hangup { call_id } => match reply {
                EngineReply::Done => Outcome::respond(SipResponse::CallEnded),
                _ => Self::unexpected(),
            },
            EngineRequest::Hold { call_id } => match reply {
                EngineReply::Done => {
                    if self.holds(number, *call_id) {
                        self.set_call_state(CallState::OnHold);
                        Outcome::respond(SipResponse::CallOnHold)
                    } else {
                        Self::refusal(SipError::NoActiveCall)
                    }
                },
                _ => Self::unexpected(),
            },
            EngineRequest::Resume { call_id } => match reply {
                EngineReply::Done => {
                    if self.holds(number, *call_id) {
                        self.set_call_state(CallState::Connected);
                        Outcome::respond(SipResponse::CallResumed)
                    } else {
                        Self::refusal(SipError::NoActiveCall)
                    }
                },
                _ => Self::unexpected(),
            },
            EngineRequest::Transfer { call_id, target } => match reply {
                EngineReply::Done => Outcome::respond(SipResponse::CallTransferred),
                _ => Self::unexpected(),
            },
            EngineRequest::QueryMute { call_id } => match reply {
                EngineReply::MuteState { muted } => {
                    if self.holds(number, *call_id) {
                        Outcome::perform(
                            EngineRequest::SetMute { call_id: *call_id, muted: !*muted },
                        )
                    } else {
                        Self::refusal(SipError::NoActiveCall)
                    }
                },
                _ => Self::unexpected(),
            },
            EngineRequest::SetMute { call_id, muted } => match reply {
                EngineReply::Done => {
                    if self.holds(number, *call_id) {
                        self.set_muted(*muted);
                        Outcome::respond(SipResponse::MuteToggled { is_muted: *muted })
                    } else {
                        Self::refusal(SipError::NoActiveCall)
                    }
                },
                _ => Self::unexpected(),
            },
            _ => Self::unexpected(),
        }
    }

    fn apply_reply(
        &mut self,
        request: &EngineRequest,
        reply: &EngineReply,
        now: i64,
        number: Option<u128>,
        id_text: &str,
    ) -> (r: Outcome)
        ensures
            (final(self)@, r@) == on_reply(old(self)@, request@, reply@, now, number, id_text@),
    {
        match request {
            EngineRequest::Start { identity, local_address, registration } => match reply {
                EngineReply::Done => {
                    self.initialized = true;
                    self.identity = identity.clone();
                    self.registration_state = match &self.config.connection_mode {
                        ConnectionMode::Server { .. } => CallState::Registering,
                        _ => CallState::Registered,
                    };
                    Outcome::respond(SipResponse::Initialized)
                },
                EngineReply::Failed(reason) => {
                    self.registration_state = CallState::Error(reason.clone());
                    Self::refusal(SipError::EngineFailure(reason.clone()))
                },
                _ => Self::unexpected(),
            },
            EngineRequest::Reject { call_id } => Outcome::none(),
            _ => match reply {
                EngineReply::Failed(reason) => Self::refusal(
                    SipError::EngineFailure(reason.clone()),
                ),
                _ => self.apply_success(request, reply, now, number, id_text),
            },
        }
    }

    fn apply_event(&mut self, event: &SipEvent, now: i64, id_text: &str) -> (r: Outcome)
        ensures
            (final(self)@, r@) == on_event(old(self)@, event@, now, id_text@),
    {
        if !self.initialized {
            return Outcome::none();
        }
        match event {
            SipEvent::IncomingCall { call_id, from, display_name } => {
                if self.is_on_hook {
                    self.offer_call(
                        String::from_str(id_text),
                        from.clone(),
                        CallState::Ringing,
                        true,
                    );
                    Outcome {
                        response: None,
                        request: None,
                        stop_audio: None,
                        notice: Some(Notice::IncomingCall { caller: from.clone() }),
                    }
                } else {
                    Outcome::perform(EngineRequest::Reject { call_id: *call_id })
                }
            },
            SipEvent::CallStateChanged { call_id, new_state } => {
                if self.carries(id_text) {
                    self.mark_reported(*new_state, now);
                }
                Outcome::none()
            },
            SipEvent::CallEnded { call_id } => {
                if self.carries(id_text) {
                    let stop_audio = self.audio_id();
                    self.current_call = None;
                    Outcome { response: None, request: None, stop_audio, notice: None }
                } else {
                    Outcome::none()
                }
            },
            SipEvent::CallOnHold { call_id } => {
                if self.carries(id_text) {
                    self.set_call_state(CallState::OnHold);
                }
                Outcome::none()
            },
            SipEvent::CallResumed { call_id } => {
                if self.carries(id_text) {
                    self.set_call_state(CallState::Connected);
                }
                Outcome::none()
            },
            SipEvent::RegistrationStatusChanged { status } => {
                match CallState::from_registration_status(status.as_str()) {
                    Some(state) => {
                        let notice = match &state {
                            CallState::Registered => Some(Notice::Registered),
                            _ => None,
                        };
                        self.registration_state = state;
                        Outcome { response: None, request: None, stop_audio: None, notice }
                    },
                    None => Outcome {
                        response: None,
                        request: None,
                        stop_audio: None,
                        notice: Some(Notice::UnknownRegistrationStatus { status: status.clone() }),
                    },
                }
            },
            _ => Outcome::none(),
        }
    }

    /// Takes one step: what `input` makes of the session, and what that asks
    /// of its surroundings.
    pub fn step(&mut self, input: &Input) -> (r: Outcome)
        ensures
            (final(self)@, r@) == step_of(old(self)@, input@),
            wf(old(self)@) ==> wf(final(self)@),
    {
        proof {
            if wf(self@) {
                lemma_next_keeps_wf(self@, input@);
            }
        }
        match input {
            Input::Command { command, detected, number } => self.apply_command(
                command,
                detected,
                *number,
            ),
            Input::Reply { request, reply, now, number, id_text } => self.apply_reply(
                request,
                reply,
                *now,
                *number,
                id_text.as_str(),
            ),
            Input::Event { event, now, id_text } => self.apply_event(event, *now, id_text.as_str()),
            Input::Tick { now } => {
                self.tick_at(*now);
                Outcome::none()
            },
        }
    }

    /// Carries out a command, with `detected` as what the machine reported as
    /// its own address.
    pub fn handle_command_with(&mut self, command: &SipCommand, detected: &Option<String>) -> (r:
        Outcome)
        ensures
            (final(self)@, r@) == on_command(
                old(self)@,
                command@,
                view_of(*detected),
                number_of(old(self)@),
            ),
            wf(old(self)@) ==> wf(final(self)@),
    {
        let number = self.call_number();
        proof {
            if wf(self@) {
                lemma_next_keeps_wf(
                    self@,
                    InputView::Command { command: command@, detected: view_of(*detected), number },
                );
            }
        }
        self.apply_command(command, detected, number)
    }

    /// Carries out a command. Where the command starts a listening session
    /// that names no address of its own, the machine is asked for one.
    pub fn handle_command(&mut self, command: &SipCommand) -> (r: Outcome)
        ensures
            exists|detected: Option<Seq<char>>|
                (final(self)@, r@) == on_command(
                    old(self)@,
                    command@,
                    detected,
                    number_of(old(self)@),
                ),
            wf(old(self)@) ==> wf(final(self)@),
    {
        let detected = match command {
            SipCommand::Initialize { username, password, server_uri, local_ip, local_port } => {
                if server_uri.as_str().unicode_len() == 0 && local_ip.is_none() {
                    get_default_interface()
                } else {
                    None
                }
            },
            _ => None,
        };
        let r = self.handle_command_with(command, &detected);
        assert((self@, r@) == on_command(
            old(self)@,
            command@,
            view_of(detected),
            number_of(old(self)@),
        ));
        r
    }

    /// Takes the engine's reply to `request`, at the time `now`. Where the
    /// session's call is then the one the engine has placed, what is asked of
    /// the engine for that call from now on names the number the engine gave.
    pub fn handle_reply_at(&mut self, request: &EngineRequest, reply: &EngineReply, now: i64) -> (r:
        Outcome)
        ensures
            (final(self)@, r@) == on_reply(
                old(self)@,
                request@,
                reply@,
                now,
                number_of(old(self)@),
                reply_text(reply@),
            ),
            wf(old(self)@) ==> wf(final(self)@),
            placed_by(reply@) is Some && call_matches(final(self)@, reply_text(reply@))
                ==> number_of(final(self)@) == placed_by(reply@),
    {
        let number = self.call_number();
        let id_text = reply_id_text(reply);
        proof {
            if wf(self@) {
                lemma_next_keeps_wf(
                    self@,
                    InputView::Reply {
                        request: request@,
                        reply: reply@,
                        now,
                        number,
                        id_text: id_text@,
                    },
                );
            }
        }
        self.apply_reply(request, reply, now, number, id_text.as_str())
    }

    /// Takes an event of the engine, at the time `now`. Where the session's
    /// call is then the one the event speaks of, what is asked of the engine
    /// for that call from now on names the number the event gave.
    pub fn handle_event_at(&mut self, event: &SipEvent, now: i64) -> (r: Outcome)
        ensures
            (final(self)@, r@) == on_event(old(self)@, event@, now, event_text(event@)),
            wf(old(self)@) ==> wf(final(self)@),
            call_of(event@) is Some && call_matches(final(self)@, event_text(event@))
                ==> number_of(final(self)@) == call_of(event@),
    {
        let id_text = event_id_text(event);
        proof {
            if wf(self@) {
                lemma_next_keeps_wf(
                    self@,
                    InputView::Event { event: event@, now, id_text: id_text@ },
                );
            }
        }
        self.apply_event(event, now, id_text.as_str())
    }

    /// Brings the call's elapsed time up to `now`, and says whether the time
    /// of the call is still being counted.
    pub fn tick_at(&mut self, now: i64) -> (r: bool)
        ensures
            final(self)@ == on_tick(old(self)@, now),
            r == ticking(final(self)@),
            wf(old(self)@) ==> wf(final(self)@),
    {
        match &mut self.current_call {
            Some(call) => {
                if call.state.is_billable() {
                    match call.connected_at {
                        Some(since) => match elapsed(since, now) {
                            Some(duration) => {
                                call.duration = Some(duration);
                            },
                            None => {},
                        },
                        None => {},
                    }
                    true
                } else {
                    false
                }
            },
            None => false,
        }
    }
}

} // verus!
