//! What passes between a session and the engine that carries the calls:
//! requests to it, its replies, and the events it raises by itself.

use crate::call::{view_of, EngineCallState};
use crate::commands::{SipResponse, SipResponseView};
use crate::config::clone_text;
use vstd::prelude::*;

verus! {

/// The account a session registers with.
#[derive(Debug, PartialEq, Eq)]
pub struct Registration {
    pub username: String,
    pub password: String,
    /// How long a registration lasts, in seconds.
    pub expires: u32,
}

/// The mathematical model of a [`Registration`].
#[verifier::ext_equal]
pub struct RegistrationView {
    pub username: Seq<char>,
    pub password: Seq<char>,
    pub expires: u32,
}

impl View for Registration {
    type V = RegistrationView;

    open spec fn view(&self) -> RegistrationView {
        RegistrationView {
            username: self.username@,
            password: self.password@,
            expires: self.expires,
        }
    }
}

impl Clone for Registration {
    fn clone(&self) -> (r: Self)
        ensures
            r@ == self@,
    {
        Registration {
            username: self.username.clone(),
            password: self.password.clone(),
            expires: self.expires,
        }
    }
}

/// Something the engine is asked to do. A call is named by the number the
/// engine knows it by.
#[derive(Debug, PartialEq, Eq)]
pub enum EngineRequest {
    /// Start, bound to `local_address` and known as `identity`; register
    /// where an account is given.
    Start { identity: String, local_address: String, registration: Option<Registration> },
    /// Place a call from `from` to `uri`; `target` is what the user entered.
    PlaceCall { from: String, target: String, uri: String },
    Answer { call_id: u128 },
    Reject { call_id: u128 },
    Hangup { call_id: u128 },
    Hold { call_id: u128 },
    Resume { call_id: u128 },
    Transfer { call_id: u128, target: String },
    /// Say whether the call's microphone is muted.
    QueryMute { call_id: u128 },
    SetMute { call_id: u128, muted: bool },
}

/// The mathematical model of an [`EngineRequest`].
#[verifier::ext_equal]
pub enum EngineRequestView {
    Start { identity: Seq<char>, local_address: Seq<char>, registration: Option<RegistrationView> },
    PlaceCall { from: Seq<char>, target: Seq<char>, uri: Seq<char> },
    Answer { call_id: u128 },
    Reject { call_id: u128 },
    Hangup { call_id: u128 },
    Hold { call_id: u128 },
    Resume { call_id: u128 },
    Transfer { call_id: u128, target: Seq<char> },
    QueryMute { call_id: u128 },
    SetMute { call_id: u128, muted: bool },
}

impl View for EngineRequest {
    type V = EngineRequestView;

    open spec fn view(&self) -> EngineRequestView {
        match *self {
            EngineRequest::Start { identity, local_address, registration } => {
                EngineRequestView::Start {
                    identity: identity@,
                    local_address: local_address@,
                    registration: view_of(registration),
                }
            },
            EngineRequest::PlaceCall { from, target, uri } => EngineRequestView::PlaceCall {
                from: from@,
                target: target@,
                uri: uri@,
            },
            EngineRequest::Answer { call_id } => EngineRequestView::Answer { call_id },
            EngineRequest::Reject { call_id } => EngineRequestView::Reject { call_id },
            EngineRequest::Hangup { call_id } => EngineRequestView::Hangup { call_id },
            EngineRequest::Hold { call_id } => EngineRequestView::Hold { call_id },
            EngineRequest::Resume { call_id } => EngineRequestView::Resume { call_id },
            EngineRequest::Transfer { call_id, target } => EngineRequestView::Transfer {
                call_id,
                target: target@,
            },
            EngineRequest::QueryMute { call_id } => EngineRequestView::QueryMute { call_id },
            EngineRequest::SetMute { call_id, muted } => EngineRequestView::SetMute {
                call_id,
                muted,
            },
        }
    }
}

impl Clone for EngineRequest {
    fn clone(&self) -> (r: Self)
        ensures
            r@ == self@,
    {
        match self {
            EngineRequest::Start { identity, local_address, registration } => EngineRequest::Start {
                identity: identity.clone(),
                local_address: local_address.clone(),
                registration: match registration {
                    Some(account) => Some(account.clone()),
                    None => None,
                },
            },
            EngineRequest::PlaceCall { from, target, uri } => EngineRequest::PlaceCall {
                from: from.clone(),
                target: target.clone(),
                uri: uri.clone(),
            },
            EngineRequest::Answer { call_id } => EngineRequest::Answer { call_id: *call_id },
            EngineRequest::Reject { call_id } => EngineRequest::Reject { call_id: *call_id },
            EngineRequest::Hangup { call_id } => EngineRequest::Hangup { call_id: *call_id },
            EngineRequest::Hold { call_id } => EngineRequest::Hold { call_id: *call_id },
            EngineRequest::Resume { call_id } => EngineRequest::Resume { call_id: *call_id },
            EngineRequest::Transfer { call_id, target } => EngineRequest::Transfer {
                call_id: *call_id,
                target: target.clone(),
            },
            EngineRequest::QueryMute { call_id } => EngineRequest::QueryMute { call_id: *call_id },
            EngineRequest::SetMute { call_id, muted } => EngineRequest::SetMute {
                call_id: *call_id,
                muted: *muted,
            },
        }
    }
}

/// How the engine answered a request.
#[derive(Debug, PartialEq, Eq)]
pub enum EngineReply {
    /// The request was carried out.
    Done,
    /// The call was placed, and this is its number.
    CallPlaced { call_id: u128 },
    /// Whether the microphone is muted.
    MuteState { muted: bool },
    /// The request failed, for this reason.
    Failed(String),
}

/// The mathematical model of an [`EngineReply`].
#[verifier::ext_equal]
pub enum EngineReplyView {
    Done,
    CallPlaced { call_id: u128 },
    MuteState { muted: bool },
    Failed(Seq<char>),
}

impl View for EngineReply {
    type V = EngineReplyView;

    open spec fn view(&self) -> EngineReplyView {
        match *self {
            EngineReply::Done => EngineReplyView::Done,
            EngineReply::CallPlaced { call_id } => EngineReplyView::CallPlaced { call_id },
            EngineReply::MuteState { muted } => EngineReplyView::MuteState { muted },
            EngineReply::Failed(reason) => EngineReplyView::Failed(reason@),
        }
    }
}

impl Clone for EngineReply {
    fn clone(&self) -> (r: Self)
        ensures
            r@ == self@,
    {
        match self {
            EngineReply::Done => EngineReply::Done,
            EngineReply::CallPlaced { call_id } => EngineReply::CallPlaced { call_id: *call_id },
            EngineReply::MuteState { muted } => EngineReply::MuteState { muted: *muted },
            EngineReply::Failed(reason) => EngineReply::Failed(reason.clone()),
        }
    }
}

/// Something the engine reports by itself.
#[derive(Debug, PartialEq, Eq)]
pub enum SipEvent {
    /// A call from `from` is offered; `display_name` is the caller's name, if
    /// the caller gave one.
    IncomingCall { call_id: u128, from: String, display_name: Option<String> },
    CallStateChanged { call_id: u128, new_state: EngineCallState },
    CallEnded { call_id: u128 },
    CallOnHold { call_id: u128 },
    CallResumed { call_id: u128 },
    RegistrationStatusChanged { status: String },
    /// The media of a call flows, encoded with `codec`.
    CallConnected { call_id: u128, codec: String },
    /// Dial tones were sent on a call.
    DtmfSent { call_id: u128, digits: String },
    /// Something went wrong in the engine.
    Error { message: String },
}

/// The mathematical model of a [`SipEvent`].
#[verifier::ext_equal]
pub enum SipEventView {
    IncomingCall { call_id: u128, from: Seq<char>, display_name: Option<Seq<char>> },
    CallStateChanged { call_id: u128, new_state: EngineCallState },
    CallEnded { call_id: u128 },
    CallOnHold { call_id: u128 },
    CallResumed { call_id: u128 },
    RegistrationStatusChanged { status: Seq<char> },
    CallConnected { call_id: u128, codec: Seq<char> },
    DtmfSent { call_id: u128, digits: Seq<char> },
    Error { message: Seq<char> },
}

impl View for SipEvent {
    type V = SipEventView;

    open spec fn view(&self) -> SipEventView {
        match *self {
            SipEvent::IncomingCall { call_id, from, display_name } => SipEventView::IncomingCall {
                call_id,
                from: from@,
                display_name: view_of(display_name),
            },
            SipEvent::CallStateChanged { call_id, new_state } => SipEventView::CallStateChanged {
                call_id,
                new_state,
            },
            SipEvent::CallEnded { call_id } => SipEventView::CallEnded { call_id },
            SipEvent::CallOnHold { call_id } => SipEventView::CallOnHold { call_id },
            SipEvent::CallResumed { call_id } => SipEventView::CallResumed { call_id },
            SipEvent::RegistrationStatusChanged { status } => {
                SipEventView::RegistrationStatusChanged { status: status@ }
            },
            SipEvent::CallConnected { call_id, codec } => SipEventView::CallConnected {
                call_id,
                codec: codec@,
            },
            SipEvent::DtmfSent { call_id, digits } => SipEventView::DtmfSent {
                call_id,
                digits: digits@,
            },
            SipEvent::Error { message } => SipEventView::Error { message: message@ },
        }
    }
}

impl Clone for SipEvent {
    fn clone(&self) -> (r: Self)
        ensures
            r@ == self@,
    {
        match self {
            SipEvent::IncomingCall { call_id, from, display_name } => SipEvent::IncomingCall {
                call_id: *call_id,
                from: from.clone(),
                display_name: clone_text(display_name),
            },
            SipEvent::CallStateChanged { call_id, new_state } => SipEvent::CallStateChanged {
                call_id: *call_id,
                new_state: *new_state,
            },
            SipEvent::CallEnded { call_id } => SipEvent::CallEnded { call_id: *call_id },
            SipEvent::CallOnHold { call_id } => SipEvent::CallOnHold { call_id: *call_id },
            SipEvent::CallResumed { call_id } => SipEvent::CallResumed { call_id: *call_id },
            SipEvent::RegistrationStatusChanged { status } => SipEvent::RegistrationStatusChanged {
                status: status.clone(),
            },
            SipEvent::CallConnected { call_id, codec } => SipEvent::CallConnected {
                call_id: *call_id,
                codec: codec.clone(),
            },
            SipEvent::DtmfSent { call_id, digits } => SipEvent::DtmfSent {
                call_id: *call_id,
                digits: digits.clone(),
            },
            SipEvent::Error { message } => SipEvent::Error { message: message.clone() },
        }
    }
}

/// Something the presentation layer is told without having asked.
#[derive(Debug, PartialEq, Eq)]
pub enum Notice {
    /// A call from `caller` is offered: show the prompt to answer or ignore it.
    IncomingCall { caller: String },
    /// The registration is active: leave the registration screen.
    Registered,
    /// The engine gave a registration status that is not known: an error of
    /// the engine, to be shown or logged. The registration state is as it was.
    UnknownRegistrationStatus { status: String },
}

/// The mathematical model of a [`Notice`].
#[verifier::ext_equal]
pub enum NoticeView {
    IncomingCall { caller: Seq<char> },
    Registered,
    UnknownRegistrationStatus { status: Seq<char> },
}

impl View for Notice {
    type V = NoticeView;

    open spec fn view(&self) -> NoticeView {
        match *self {
            Notice::IncomingCall { caller } => NoticeView::IncomingCall { caller: caller@ },
            Notice::Registered => NoticeView::Registered,
            Notice::UnknownRegistrationStatus { status } => NoticeView::UnknownRegistrationStatus {
                status: status@,
            },
        }
    }
}

impl Clone for Notice {
    fn clone(&self) -> (r: Self)
        ensures
            r@ == self@,
    {
        match self {
            Notice::IncomingCall { caller } => Notice::IncomingCall { caller: caller.clone() },
            Notice::Registered => Notice::Registered,
            Notice::UnknownRegistrationStatus { status } => Notice::UnknownRegistrationStatus {
                status: status.clone(),
            },
        }
    }
}

/// What one step of a session asks of its surroundings.
#[derive(Debug, PartialEq, Eq)]
pub struct Outcome {
    /// The answer to the command that is now complete.
    pub response: Option<SipResponse>,
    /// What the engine is to do; its reply is handed back to the session.
    pub request: Option<EngineRequest>,
    /// The call whose audio session is to be detached.
    pub stop_audio: Option<String>,
    /// What the presentation layer is told.
    pub notice: Option<Notice>,
}

/// The mathematical model of an [`Outcome`].
#[verifier::ext_equal]
pub struct OutcomeView {
    pub response: Option<SipResponseView>,
    pub request: Option<EngineRequestView>,
    pub stop_audio: Option<Seq<char>>,
    pub notice: Option<NoticeView>,
}

impl View for Outcome {
    type V = OutcomeView;

    open spec fn view(&self) -> OutcomeView {
        OutcomeView {
            response: view_of(self.response),
            request: view_of(self.request),
            stop_audio: view_of(self.stop_audio),
            notice: view_of(self.notice),
        }
    }
}

impl Clone for Outcome {
    fn clone(&self) -> (r: Self)
        ensures
            r@ == self@,
    {
        Outcome {
            response: match &self.response {
                Some(response) => Some(response.clone()),
                None => None,
            },
            request: match &self.request {
                Some(request) => Some(request.clone()),
                None => None,
            },
            stop_audio: clone_text(&self.stop_audio),
            notice: match &self.notice {
                Some(notice) => Some(notice.clone()),
                None => None,
            },
        }
    }
}

/// The outcome of a step that asks for nothing.
pub open spec fn nothing() -> OutcomeView {
    OutcomeView { response: None, request: None, stop_audio: None, notice: None }
}

/// The outcome of a step that only answers.
pub open spec fn answer(response: SipResponseView) -> OutcomeView {
    OutcomeView { response: Some(response), request: None, stop_audio: None, notice: None }
}

/// The outcome of a step that only asks the engine.
pub open spec fn ask(request: EngineRequestView) -> OutcomeView {
    OutcomeView { response: None, request: Some(request), stop_audio: None, notice: None }
}

impl Outcome {
    /// See [`nothing`].
    pub fn none() -> (r: Outcome)
        ensures
            r@ == nothing(),
    {
        Outcome { response: None, request: None, stop_audio: None, notice: None }
    }

    /// See [`answer`].
    pub fn respond(response: SipResponse) -> (r: Outcome)
        ensures
            r@ == answer(response@),
    {
        Outcome { response: Some(response), request: None, stop_audio: None, notice: None }
    }

    /// See [`ask`].
    pub fn perform(request: EngineRequest) -> (r: Outcome)
        ensures
            r@ == ask(request@),
    {
        Outcome { response: None, request: Some(request), stop_audio: None, notice: None }
    }
}

} // verus!
