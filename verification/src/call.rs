//! The lifecycle of a call and the record kept of the one live call.

use crate::text::str_eq;
use vstd::prelude::*;
use vstd::string::*;

verus! {

/// Where a call, or the registration with a server, stands.
#[derive(Debug, PartialEq, Eq)]
pub enum CallState {
    Idle,
    Registering,
    Registered,
    Calling,
    Ringing,
    Connected,
    OnHold,
    Transferring,
    Disconnected,
    Error(String),
}

/// The mathematical model of a [`CallState`].
#[verifier::ext_equal]
pub enum CallStateView {
    Idle,
    Registering,
    Registered,
    Calling,
    Ringing,
    Connected,
    OnHold,
    Transferring,
    Disconnected,
    Error(Seq<char>),
}

impl View for CallState {
    type V = CallStateView;

    open spec fn view(&self) -> CallStateView {
        match *self {
            CallState::Idle => CallStateView::Idle,
            CallState::Registering => CallStateView::Registering,
            CallState::Registered => CallStateView::Registered,
            CallState::Calling => CallStateView::Calling,
            CallState::Ringing => CallStateView::Ringing,
            CallState::Connected => CallStateView::Connected,
            CallState::OnHold => CallStateView::OnHold,
            CallState::Transferring => CallStateView::Transferring,
            CallState::Disconnected => CallStateView::Disconnected,
            CallState::Error(message) => CallStateView::Error(message@),
        }
    }
}

impl Clone for CallState {
    fn clone(&self) -> (r: Self)
        ensures
            r@ == self@,
    {
        match self {
            CallState::Idle => CallState::Idle,
            CallState::Registering => CallState::Registering,
            CallState::Registered => CallState::Registered,
            CallState::Calling => CallState::Calling,
            CallState::Ringing => CallState::Ringing,
            CallState::Connected => CallState::Connected,
            CallState::OnHold => CallState::OnHold,
            CallState::Transferring => CallState::Transferring,
            CallState::Disconnected => CallState::Disconnected,
            CallState::Error(message) => CallState::Error(message.clone()),
        }
    }
}

/// The states in which the user is actively engaged in a call, so that the
/// handset has to be off the hook.
pub open spec fn active_engagement(state: CallStateView) -> bool {
    state is Calling || state is Connected || state is OnHold || state is Transferring
}

/// The states in which the elapsed time of a call is counted.
pub open spec fn billable(state: CallStateView) -> bool {
    state is Connected || state is OnHold
}

/// The states a registration can be in.
pub open spec fn registration_phase(state: CallStateView) -> bool {
    state is Idle || state is Registering || state is Registered || state is Error
}

impl CallState {
    /// See [`active_engagement`].
    pub fn is_active_engagement(&self) -> (r: bool)
        ensures
            r == active_engagement(self@),
    {
        match self {
            CallState::Calling => true,
            CallState::Connected => true,
            CallState::OnHold => true,
            CallState::Transferring => true,
            _ => false,
        }
    }

    /// See [`billable`].
    pub fn is_billable(&self) -> (r: bool)
        ensures
            r == billable(self@),
    {
        match self {
            CallState::Connected => true,
            CallState::OnHold => true,
            _ => false,
        }
    }

    /// Whether this is exactly `OnHold`.
    pub fn is_on_hold(&self) -> (r: bool)
        ensures
            r == (self@ is OnHold),
    {
        match self {
            CallState::OnHold => true,
            _ => false,
        }
    }

    /// Whether this is exactly `Ringing`.
    pub fn is_ringing(&self) -> (r: bool)
        ensures
            r == (self@ is Ringing),
    {
        match self {
            CallState::Ringing => true,
            _ => false,
        }
    }

    /// The lifecycle state that stands for a state reported by the engine.
    pub fn from_engine_state(state: EngineCallState) -> (r: CallState)
        ensures
            r@ == lifecycle_of(state),
    {
        match state {
            EngineCallState::Initiating => CallState::Calling,
            EngineCallState::Proceeding => CallState::Calling,
            EngineCallState::Ringing => CallState::Ringing,
            EngineCallState::IncomingPending => CallState::Ringing,
            EngineCallState::Connected => CallState::Connected,
            EngineCallState::OnHold => CallState::OnHold,
            EngineCallState::Transferring => CallState::Transferring,
            EngineCallState::Terminating => CallState::Disconnected,
            EngineCallState::Terminated => CallState::Disconnected,
            EngineCallState::Failed => CallState::Error(String::from_str("Call failed")),
            EngineCallState::Cancelled => CallState::Error(String::from_str("Call cancelled")),
        }
    }

    /// The registration state that an engine status word stands for; `None`
    /// for a word that is not part of the table.
    pub fn from_registration_status(status: &str) -> (r: Option<CallState>)
        ensures
            r is Some <==> registration_of(status@) is Some,
            r is Some ==> r->0@ == registration_of(status@)->0,
    {
        if str_eq(status, "pending") {
            Some(CallState::Registering)
        } else if str_eq(status, "active") {
            Some(CallState::Registered)
        } else if str_eq(status, "failed") {
            Some(CallState::Error(String::from_str("Registration failed")))
        } else {
            None
        }
    }
}

/// The call states that the engine reports.
#[derive(Debug, Clone, Copy, PartialEq, Eq, Structural)]
pub enum EngineCallState {
    Initiating,
    Proceeding,
    Ringing,
    IncomingPending,
    Connected,
    OnHold,
    Transferring,
    Terminating,
    Terminated,
    Failed,
    Cancelled,
}

/// The table from engine states to lifecycle states.
pub open spec fn lifecycle_of(state: EngineCallState) -> CallStateView {
    match state {
        EngineCallState::Initiating | EngineCallState::Proceeding => CallStateView::Calling,
        EngineCallState::Ringing | EngineCallState::IncomingPending => CallStateView::Ringing,
        EngineCallState::Connected => CallStateView::Connected,
        EngineCallState::OnHold => CallStateView::OnHold,
        EngineCallState::Transferring => CallStateView::Transferring,
        EngineCallState::Terminating | EngineCallState::Terminated => CallStateView::Disconnected,
        EngineCallState::Failed => CallStateView::Error("Call failed"@),
        EngineCallState::Cancelled => CallStateView::Error("Call cancelled"@),
    }
}

/// The table from engine registration status words to registration states.
pub open spec fn registration_of(status: Seq<char>) -> Option<CallStateView> {
    if status == "pending"@ {
        Some(CallStateView::Registering)
    } else if status == "active"@ {
        Some(CallStateView::Registered)
    } else if status == "failed"@ {
        Some(CallStateView::Error("Registration failed"@))
    } else {
        None
    }
}

/// The snapshot of one call. Times are in milliseconds: `connected_at` since
/// the Unix epoch, `duration` since `connected_at`.
#[derive(Debug, PartialEq, Eq)]
pub struct CallInfo {
    pub id: String,
    pub remote_uri: String,
    pub state: CallState,
    pub duration: Option<u64>,
    pub is_incoming: bool,
    pub connected_at: Option<i64>,
    pub is_muted: Option<bool>,
}

/// The mathematical model of a [`CallInfo`].
#[verifier::ext_equal]
pub struct CallInfoView {
    pub id: Seq<char>,
    pub remote_uri: Seq<char>,
    pub state: CallStateView,
    pub duration: Option<u64>,
    pub is_incoming: bool,
    pub connected_at: Option<i64>,
    pub is_muted: Option<bool>,
}

impl View for CallInfo {
    type V = CallInfoView;

    open spec fn view(&self) -> CallInfoView {
        CallInfoView {
            id: self.id@,
            remote_uri: self.remote_uri@,
            state: self.state@,
            duration: self.duration,
            is_incoming: self.is_incoming,
            connected_at: self.connected_at,
            is_muted: self.is_muted,
        }
    }
}

impl Clone for CallInfo {
    fn clone(&self) -> (r: Self)
        ensures
            r@ == self@,
    {
        CallInfo {
            id: self.id.clone(),
            remote_uri: self.remote_uri.clone(),
            state: self.state.clone(),
            duration: self.duration,
            is_incoming: self.is_incoming,
            connected_at: self.connected_at,
            is_muted: self.is_muted,
        }
    }
}

/// The record of a call that has just been placed or offered.
pub open spec fn fresh_call(
    id: Seq<char>,
    remote_uri: Seq<char>,
    state: CallStateView,
    is_incoming: bool,
) -> CallInfoView {
    CallInfoView {
        id,
        remote_uri,
        state,
        duration: None,
        is_incoming,
        connected_at: None,
        is_muted: Some(false),
    }
}

/// The model of an optional value that has one.
pub open spec fn view_of<T: View>(value: Option<T>) -> Option<T::V> {
    match value {
        Some(x) => Some(x@),
        None => None,
    }
}

/// A copy of an optional call record.
pub fn clone_call(call: &Option<CallInfo>) -> (r: Option<CallInfo>)
    ensures
        view_of(r) == view_of(*call),
{
    match call {
        Some(c) => Some(c.clone()),
        None => None,
    }
}

} // verus!
