//! What the presentation layer may ask of a session, and what it is answered.

use crate::call::{clone_call, view_of, CallInfo, CallInfoView, CallState, CallStateView};
use crate::config::clone_text;
use vstd::prelude::*;
use vstd::string::*;

verus! {

/// A user's intent, sent to the session.
#[derive(Debug, PartialEq, Eq)]
pub enum SipCommand {
    /// Start the engine with the connection form's fields.
    Initialize {
        username: String,
        password: String,
        server_uri: String,
        local_ip: Option<String>,
        local_port: u16,
    },
    /// Place an outgoing call.
    MakeCall { target: String },
    /// Answer the incoming call.
    AnswerCall,
    /// End the current call.
    Hangup,
    /// Mute or unmute the microphone.
    ToggleMute,
    /// Put the call on hold.
    Hold,
    /// Take the call off hold.
    Resume,
    /// Hand the call over to another party.
    Transfer { target: String },
    /// Go on or off the hook.
    ToggleHook,
    /// Read the current call record.
    GetCallInfo,
    /// Read the registration state.
    GetRegistrationState,
}

/// The mathematical model of a [`SipCommand`].
#[verifier::ext_equal]
pub enum SipCommandView {
    Initialize {
        username: Seq<char>,
        password: Seq<char>,
        server_uri: Seq<char>,
        local_ip: Option<Seq<char>>,
        local_port: u16,
    },
    MakeCall { target: Seq<char> },
    AnswerCall,
    Hangup,
    ToggleMute,
    Hold,
    Resume,
    Transfer { target: Seq<char> },
    ToggleHook,
    GetCallInfo,
    GetRegistrationState,
}

impl View for SipCommand {
    type V = SipCommandView;

    open spec fn view(&self) -> SipCommandView {
        match *self {
            SipCommand::Initialize { username, password, server_uri, local_ip, local_port } => {
                SipCommandView::Initialize {
                    username: username@,
                    password: password@,
                    server_uri: server_uri@,
                    local_ip: view_of(local_ip),
                    local_port,
                }
            },
            SipCommand::MakeCall { target } => SipCommandView::MakeCall { target: target@ },
            SipCommand::AnswerCall => SipCommandView::AnswerCall,
            SipCommand::Hangup => SipCommandView::Hangup,
            SipCommand::ToggleMute => SipCommandView::ToggleMute,
            SipCommand::Hold => SipCommandView::Hold,
            SipCommand::Resume => SipCommandView::Resume,
            SipCommand::Transfer { target } => SipCommandView::Transfer { target: target@ },
            SipCommand::ToggleHook => SipCommandView::ToggleHook,
            SipCommand::GetCallInfo => SipCommandView::GetCallInfo,
            SipCommand::GetRegistrationState => SipCommandView::GetRegistrationState,
        }
    }
}

impl Clone for SipCommand {
    fn clone(&self) -> (r: Self)
        ensures
            r@ == self@,
    {
        match self {
            SipCommand::Initialize { username, password, server_uri, local_ip, local_port } => {
                SipCommand::Initialize {
                    username: username.clone(),
                    password: password.clone(),
                    server_uri: server_uri.clone(),
                    local_ip: clone_text(local_ip),
                    local_port: *local_port,
                }
            },
            SipCommand::MakeCall { target } => SipCommand::MakeCall { target: target.clone() },
            SipCommand::AnswerCall => SipCommand::AnswerCall,
            SipCommand::Hangup => SipCommand::Hangup,
            SipCommand::ToggleMute => SipCommand::ToggleMute,
            SipCommand::Hold => SipCommand::Hold,
            SipCommand::Resume => SipCommand::Resume,
            SipCommand::Transfer { target } => SipCommand::Transfer { target: target.clone() },
            SipCommand::ToggleHook => SipCommand::ToggleHook,
            SipCommand::GetCallInfo => SipCommand::GetCallInfo,
            SipCommand::GetRegistrationState => SipCommand::GetRegistrationState,
        }
    }
}

/// Why a command was not carried out.
#[derive(Debug, PartialEq, Eq)]
pub enum SipError {
    /// The command came before the engine was started.
    NotInitialized,
    /// The command needs a call and there is none.
    NoActiveCall,
    /// A call was asked for while another is in progress.
    AlreadyInCall,
    /// The destination is malformed.
    InvalidTarget,
    /// The engine reported a failure.
    EngineFailure(String),
    /// The call's identifier is not one the engine could have issued.
    InvalidIdentifier,
}

/// The mathematical model of a [`SipError`].
#[verifier::ext_equal]
pub enum SipErrorView {
    NotInitialized,
    NoActiveCall,
    AlreadyInCall,
    InvalidTarget,
    EngineFailure(Seq<char>),
    InvalidIdentifier,
}

impl View for SipError {
    type V = SipErrorView;

    open spec fn view(&self) -> SipErrorView {
        match *self {
            SipError::NotInitialized => SipErrorView::NotInitialized,
            SipError::NoActiveCall => SipErrorView::NoActiveCall,
            SipError::AlreadyInCall => SipErrorView::AlreadyInCall,
            SipError::InvalidTarget => SipErrorView::InvalidTarget,
            SipError::EngineFailure(message) => SipErrorView::EngineFailure(message@),
            SipError::InvalidIdentifier => SipErrorView::InvalidIdentifier,
        }
    }
}

impl Clone for SipError {
    fn clone(&self) -> (r: Self)
        ensures
            r@ == self@,
    {
        match self {
            SipError::NotInitialized => SipError::NotInitialized,
            SipError::NoActiveCall => SipError::NoActiveCall,
            SipError::AlreadyInCall => SipError::AlreadyInCall,
            SipError::InvalidTarget => SipError::InvalidTarget,
            SipError::EngineFailure(message) => SipError::EngineFailure(message.clone()),
            SipError::InvalidIdentifier => SipError::InvalidIdentifier,
        }
    }
}

/// The message shown to the user for an error.
pub open spec fn error_message(error: SipErrorView) -> Seq<char> {
    match error {
        SipErrorView::NotInitialized => "Client not initialized"@,
        SipErrorView::NoActiveCall => "No active call"@,
        SipErrorView::AlreadyInCall => "Call already in progress"@,
        SipErrorView::InvalidTarget => "Invalid call target"@,
        SipErrorView::EngineFailure(message) => message,
        SipErrorView::InvalidIdentifier => "Invalid call ID format"@,
    }
}

impl SipError {
    /// See [`error_message`].
    pub fn message(&self) -> (r: String)
        ensures
            r@ == error_message(self@),
    {
        match self {
            SipError::NotInitialized => String::from_str("Client not initialized"),
            SipError::NoActiveCall => String::from_str("No active call"),
            SipError::AlreadyInCall => String::from_str("Call already in progress"),
            SipError::InvalidTarget => String::from_str("Invalid call target"),
            SipError::EngineFailure(message) => message.clone(),
            SipError::InvalidIdentifier => String::from_str("Invalid call ID format"),
        }
    }
}

/// What the session answers to a command.
#[derive(Debug, PartialEq, Eq)]
pub enum SipResponse {
    /// The engine is started.
    Initialized,
    /// The call was placed.
    CallStarted { call_id: String },
    /// The incoming call was answered.
    CallAnswered,
    /// The call was ended.
    CallEnded,
    /// The microphone is now muted or not.
    MuteToggled { is_muted: bool },
    /// The call is on hold.
    CallOnHold,
    /// The call is off hold.
    CallResumed,
    /// The call was handed over.
    CallTransferred,
    /// The hook is now on or off.
    HookToggled { is_on_hook: bool },
    /// The current call record.
    CallInfo { call: Option<CallInfo> },
    /// The registration state.
    RegistrationState { state: CallState },
    /// The command failed.
    Error(SipError),
}

/// The mathematical model of a [`SipResponse`].
#[verifier::ext_equal]
pub enum SipResponseView {
    Initialized,
    CallStarted { call_id: Seq<char> },
    CallAnswered,
    CallEnded,
    MuteToggled { is_muted: bool },
    CallOnHold,
    CallResumed,
    CallTransferred,
    HookToggled { is_on_hook: bool },
    CallInfo { call: Option<CallInfoView> },
    RegistrationState { state: CallStateView },
    Error(SipErrorView),
}

impl View for SipResponse {
    type V = SipResponseView;

    open spec fn view(&self) -> SipResponseView {
        match *self {
            SipResponse::Initialized => SipResponseView::Initialized,
            SipResponse::CallStarted { call_id } => SipResponseView::CallStarted {
                call_id: call_id@,
            },
            SipResponse::CallAnswered => SipResponseView::CallAnswered,
            SipResponse::CallEnded => SipResponseView::CallEnded,
            SipResponse::MuteToggled { is_muted } => SipResponseView::MuteToggled { is_muted },
            SipResponse::CallOnHold => SipResponseView::CallOnHold,
            SipResponse::CallResumed => SipResponseView::CallResumed,
            SipResponse::CallTransferred => SipResponseView::CallTransferred,
            SipResponse::HookToggled { is_on_hook } => SipResponseView::HookToggled { is_on_hook },
            SipResponse::CallInfo { call } => SipResponseView::CallInfo { call: view_of(call) },
            SipResponse::RegistrationState { state } => SipResponseView::RegistrationState {
                state: state@,
            },
            SipResponse::Error(error) => SipResponseView::Error(error@),
        }
    }
}

impl Clone for SipResponse {
    fn clone(&self) -> (r: Self)
        ensures
            r@ == self@,
    {
        match self {
            SipResponse::Initialized => SipResponse::Initialized,
            SipResponse::CallStarted { call_id } => SipResponse::CallStarted {
                call_id: call_id.clone(),
            },
            SipResponse::CallAnswered => SipResponse::CallAnswered,
            SipResponse::CallEnded => SipResponse::CallEnded,
            SipResponse::MuteToggled { is_muted } => SipResponse::MuteToggled {
                is_muted: *is_muted,
            },
            SipResponse::CallOnHold => SipResponse::CallOnHold,
            SipResponse::CallResumed => SipResponse::CallResumed,
            SipResponse::CallTransferred => SipResponse::CallTransferred,
            SipResponse::HookToggled { is_on_hook } => SipResponse::HookToggled {
                is_on_hook: *is_on_hook,
            },
            SipResponse::CallInfo { call } => SipResponse::CallInfo { call: clone_call(call) },
            SipResponse::RegistrationState { state } => SipResponse::RegistrationState {
                state: state.clone(),
            },
            SipResponse::Error(error) => SipResponse::Error(error.clone()),
        }
    }
}

} // verus!
