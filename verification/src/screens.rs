//! Which screen the user is shown.

use crate::call::CallStateView;
use crate::commands::SipResponseView;
use crate::engine::{Notice, NoticeView, Outcome, OutcomeView};
use crate::commands::SipResponse;
use crate::model::{offering, SessionView};
use crate::session::SipClientManager;
use vstd::prelude::*;

verus! {

/// The screens.
#[derive(Debug, PartialEq, Eq)]
pub enum AppState {
    /// The connection form.
    Registration,
    /// The call controls.
    CallInterface,
    /// The prompt to answer or ignore the call from `caller_id`.
    IncomingCall { caller_id: String },
}

/// The mathematical model of an [`AppState`].
#[verifier::ext_equal]
pub enum AppStateView {
    Registration,
    CallInterface,
    IncomingCall { caller_id: Seq<char> },
}

impl View for AppState {
    type V = AppStateView;

    open spec fn view(&self) -> AppStateView {
        match *self {
            AppState::Registration => AppStateView::Registration,
            AppState::CallInterface => AppStateView::CallInterface,
            AppState::IncomingCall { caller_id } => AppStateView::IncomingCall {
                caller_id: caller_id@,
            },
        }
    }
}

impl Clone for AppState {
    fn clone(&self) -> (r: Self)
        ensures
            r@ == self@,
    {
        match self {
            AppState::Registration => AppState::Registration,
            AppState::CallInterface => AppState::CallInterface,
            AppState::IncomingCall { caller_id } => AppState::IncomingCall {
                caller_id: caller_id.clone(),
            },
        }
    }
}

/// Whether the session is ready for calls as far as the step that led to
/// `outcome` tells: the registration became active, or the engine started and
/// there is nothing to register.
pub open spec fn became_ready(outcome: OutcomeView, s: SessionView) -> bool {
    outcome.notice == Some(NoticeView::Registered) || (outcome.response == Some(
        SipResponseView::Initialized,
    ) && s.registration_state is Registered)
}

/// The screen shown after a step of the session `s` that led to `outcome`,
/// where `current` was shown before. An offered call brings up the prompt;
/// the prompt gives way to the call controls once no call waits to be
/// answered; the connection form gives way to them once the session is ready.
pub open spec fn screen_after(current: AppStateView, outcome: OutcomeView, s: SessionView) -> AppStateView {
    match outcome.notice {
        Some(NoticeView::IncomingCall { caller }) => AppStateView::IncomingCall {
            caller_id: caller,
        },
        _ => match current {
            AppStateView::IncomingCall { caller_id } => if offering(s) {
                current
            } else {
                AppStateView::CallInterface
            },
            AppStateView::Registration => if became_ready(outcome, s) {
                AppStateView::CallInterface
            } else {
                current
            },
            AppStateView::CallInterface => current,
        },
    }
}

impl AppState {
    /// See [`screen_after`].
    pub fn after(&self, outcome: &Outcome, session: &SipClientManager) -> (r: AppState)
        ensures
            r@ == screen_after(self@, outcome@, session@),
    {
        match &outcome.notice {
            Some(Notice::IncomingCall { caller }) => AppState::IncomingCall {
                caller_id: caller.clone(),
            },
            other => {
                let registered_now = match other {
                    Some(Notice::Registered) => true,
                    _ => false,
                };
                match self {
                    AppState::IncomingCall { caller_id } => {
                        if session.is_offering() {
                            self.clone()
                        } else {
                            AppState::CallInterface
                        }
                    },
                    AppState::Registration => {
                        let started = match &outcome.response {
                            Some(SipResponse::Initialized) => true,
                            _ => false,
                        };
                        if registered_now || (started && session.is_registered()) {
                            AppState::CallInterface
                        } else {
                            AppState::Registration
                        }
                    },
                    AppState::CallInterface => AppState::CallInterface,
                }
            },
        }
    }
}

} // verus!
