//! What the call buttons offer in each state of a call.

use crate::call::{CallState, CallStateView};
use vstd::prelude::*;

verus! {

/// How a button is drawn.
#[derive(Debug, Clone, Copy, PartialEq, Eq, Structural)]
pub enum ButtonStyle {
    Normal,
    Highlighted,
    Danger,
    Warning,
    Disabled,
}

/// What each call button shows and whether it can be pressed.
#[derive(Debug, Clone, Copy, PartialEq, Eq)]
pub struct CallControlState {
    pub make_call_enabled: bool,
    pub make_call_visible: bool,
    pub mute_enabled: bool,
    pub mute_label: &'static str,
    pub mute_style: ButtonStyle,
    pub hold_enabled: bool,
    pub hold_label: &'static str,
    pub hold_style: ButtonStyle,
    pub transfer_enabled: bool,
    pub end_call_visible: bool,
    pub end_call_label: &'static str,
    pub end_call_style: ButtonStyle,
    pub hook_enabled: bool,
    /// Whether the handset belongs on the hook in this state.
    pub hook_should_be_on: bool,
    pub hook_style: ButtonStyle,
}

/// The mathematical model of a [`CallControlState`].
#[verifier::ext_equal]
pub struct CallControlStateView {
    pub make_call_enabled: bool,
    pub make_call_visible: bool,
    pub mute_enabled: bool,
    pub mute_label: Seq<char>,
    pub mute_style: ButtonStyle,
    pub hold_enabled: bool,
    pub hold_label: Seq<char>,
    pub hold_style: ButtonStyle,
    pub transfer_enabled: bool,
    pub end_call_visible: bool,
    pub end_call_label: Seq<char>,
    pub end_call_style: ButtonStyle,
    pub hook_enabled: bool,
    pub hook_should_be_on: bool,
    pub hook_style: ButtonStyle,
}

impl View for CallControlState {
    type V = CallControlStateView;

    open spec fn view(&self) -> CallControlStateView {
        CallControlStateView {
            make_call_enabled: self.make_call_enabled,
            make_call_visible: self.make_call_visible,
            mute_enabled: self.mute_enabled,
            mute_label: self.mute_label@,
            mute_style: self.mute_style,
            hold_enabled: self.hold_enabled,
            hold_label: self.hold_label@,
            hold_style: self.hold_style,
            transfer_enabled: self.transfer_enabled,
            end_call_visible: self.end_call_visible,
            end_call_label: self.end_call_label@,
            end_call_style: self.end_call_style,
            hook_enabled: self.hook_enabled,
            hook_should_be_on: self.hook_should_be_on,
            hook_style: self.hook_style,
        }
    }
}

/// No call is under way: there is no record, or the call is idle or over.
pub open spec fn at_rest(state: Option<CallStateView>) -> bool {
    state is None || state->0 is Idle || state->0 is Disconnected
}

/// A call is under way, from its first ring to its end.
pub open spec fn in_call(state: Option<CallStateView>) -> bool {
    state is Some && (state->0 is Calling || state->0 is Ringing || state->0 is Connected
        || state->0 is OnHold || state->0 is Transferring)
}

/// The call is connected.
pub open spec fn talking(state: Option<CallStateView>) -> bool {
    state is Some && state->0 is Connected
}

/// The call is on hold.
pub open spec fn holding(state: Option<CallStateView>) -> bool {
    state is Some && state->0 is OnHold
}

/// The buttons for a call in `state`, with the microphone muted or not. A call
/// can be placed only at rest; it can be muted while connected, held,
/// resumed and transferred while connected or on hold, and ended while under
/// way; the hook can be toggled only while no call is under way.
pub open spec fn controls_for(state: Option<CallStateView>, is_muted: bool) -> CallControlStateView {
    CallControlStateView {
        make_call_enabled: at_rest(state),
        make_call_visible: !in_call(state),
        mute_enabled: talking(state),
        mute_label: if talking(state) && is_muted {
            "Unmute 🔊"@
        } else {
            "Mute 🔇"@
        },
        mute_style: if !talking(state) {
            ButtonStyle::Disabled
        } else if is_muted {
            ButtonStyle::Danger
        } else {
            ButtonStyle::Normal
        },
        hold_enabled: talking(state) || holding(state),
        hold_label: if holding(state) {
            "Resume ▶️"@
        } else {
            "Hold ⏸️"@
        },
        hold_style: if talking(state) {
            ButtonStyle::Normal
        } else if holding(state) {
            ButtonStyle::Highlighted
        } else {
            ButtonStyle::Disabled
        },
        transfer_enabled: talking(state) || holding(state),
        end_call_visible: in_call(state),
        end_call_label: if state is Some && state->0 is Calling {
            "Cancel Call"@
        } else if state is Some && state->0 is Ringing {
            "Reject"@
        } else if state is Some && state->0 is Transferring {
            "Cancel Transfer"@
        } else {
            "End Call"@
        },
        end_call_style: if state is Some && state->0 is Transferring {
            ButtonStyle::Warning
        } else {
            ButtonStyle::Danger
        },
        hook_enabled: !in_call(state),
        hook_should_be_on: !in_call(state),
        hook_style: if in_call(state) {
            ButtonStyle::Disabled
        } else {
            ButtonStyle::Normal
        },
    }
}

/// The style classes a button is drawn with.
pub open spec fn button_class(style: ButtonStyle) -> Seq<char> {
    match style {
        ButtonStyle::Normal => "px-6 py-3 bg-gray-200 hover:bg-gray-300 text-gray-800 rounded-lg font-medium transition-all duration-200 shadow-sm hover:shadow-md"@,
        ButtonStyle::Highlighted => "px-6 py-3 bg-blue-600 hover:bg-blue-700 text-white rounded-lg font-medium transition-all duration-200 shadow-sm hover:shadow-md"@,
        ButtonStyle::Danger => "px-6 py-3 bg-red-600 hover:bg-red-700 text-white rounded-lg font-medium transition-all duration-200 shadow-md hover:shadow-lg"@,
        ButtonStyle::Warning => "px-6 py-3 bg-orange-600 hover:bg-orange-700 text-white rounded-lg font-medium transition-all duration-200 shadow-md hover:shadow-lg"@,
        ButtonStyle::Disabled => "px-6 py-3 bg-gray-100 text-gray-400 rounded-lg font-medium cursor-not-allowed"@,
    }
}

impl CallControlState {
    /// The buttons while no call is under way; a call can be placed if
    /// `make_call_enabled`.
    fn without_call(make_call_enabled: bool) -> (r: Self)
        ensures
            r@ == (CallControlStateView {
                make_call_enabled,
                ..controls_for(None, false)
            }),
    {
        CallControlState {
            make_call_enabled,
            make_call_visible: true,
            mute_enabled: false,
            mute_label: "Mute 🔇",
            mute_style: ButtonStyle::Disabled,
            hold_enabled: false,
            hold_label: "Hold ⏸️",
            hold_style: ButtonStyle::Disabled,
            transfer_enabled: false,
            end_call_visible: false,
            end_call_label: "End Call",
            end_call_style: ButtonStyle::Danger,
            hook_enabled: true,
            hook_should_be_on: true,
            hook_style: ButtonStyle::Normal,
        }
    }

    /// The buttons while a call is under way and can only be ended, under the
    /// label `end_call_label`.
    fn only_ending(end_call_label: &'static str, end_call_style: ButtonStyle) -> (r: Self)
        ensures
            r@ == (CallControlStateView {
                end_call_label: end_call_label@,
                end_call_style,
                ..controls_for(Some(CallStateView::Calling), false)
            }),
    {
        CallControlState {
            make_call_enabled: false,
            make_call_visible: false,
            mute_enabled: false,
            mute_label: "Mute 🔇",
            mute_style: ButtonStyle::Disabled,
            hold_enabled: false,
            hold_label: "Hold ⏸️",
            hold_style: ButtonStyle::Disabled,
            transfer_enabled: false,
            end_call_visible: true,
            end_call_label,
            end_call_style,
            hook_enabled: false,
            hook_should_be_on: false,
            hook_style: ButtonStyle::Disabled,
        }
    }

    /// See [`controls_for`].
    pub fn from_call_state(call_state: Option<&CallState>, is_muted: bool) -> (r: Self)
        ensures
            r@ == controls_for(
                match call_state {
                    Some(state) => Some(state@),
                    None => None,
                },
                is_muted,
            ),
    {
        match call_state {
            None => Self::without_call(true),
            Some(CallState::Idle) => Self::without_call(true),
            Some(CallState::Disconnected) => Self::without_call(true),
            Some(CallState::Calling) => Self::only_ending("Cancel Call", ButtonStyle::Danger),
            Some(CallState::Ringing) => Self::only_ending("Reject", ButtonStyle::Danger),
            Some(CallState::Transferring) => Self::only_ending(
                "Cancel Transfer",
                ButtonStyle::Warning,
            ),
            Some(CallState::Connected) => CallControlState {
                make_call_enabled: false,
                make_call_visible: false,
                mute_enabled: true,
                mute_label: if is_muted {
                    "Unmute 🔊"
                } else {
                    "Mute 🔇"
                },
                mute_style: if is_muted {
                    ButtonStyle::Danger
                } else {
                    ButtonStyle::Normal
                },
                hold_enabled: true,
                hold_label: "Hold ⏸️",
                hold_style: ButtonStyle::Normal,
                transfer_enabled: true,
                end_call_visible: true,
                end_call_label: "End Call",
                end_call_style: ButtonStyle::Danger,
                hook_enabled: false,
                hook_should_be_on: false,
                hook_style: ButtonStyle::Disabled,
            },
            Some(CallState::OnHold) => CallControlState {
                make_call_enabled: false,
                make_call_visible: false,
                mute_enabled: false,
                mute_label: "Mute 🔇",
                mute_style: ButtonStyle::Disabled,
                hold_enabled: true,
                hold_label: "Resume ▶️",
                hold_style: ButtonStyle::Highlighted,
                transfer_enabled: true,
                end_call_visible: true,
                end_call_label: "End Call",
                end_call_style: ButtonStyle::Danger,
                hook_enabled: false,
                hook_should_be_on: false,
                hook_style: ButtonStyle::Disabled,
            },
            Some(_) => Self::without_call(false),
        }
    }

    /// See [`button_class`].
    pub fn get_button_class(&self, style: &ButtonStyle) -> (r: &'static str)
        ensures
            r@ == button_class(*style),
    {
        match style {
            ButtonStyle::Normal => "px-6 py-3 bg-gray-200 hover:bg-gray-300 text-gray-800 rounded-lg font-medium transition-all duration-200 shadow-sm hover:shadow-md",
            ButtonStyle::Highlighted => "px-6 py-3 bg-blue-600 hover:bg-blue-700 text-white rounded-lg font-medium transition-all duration-200 shadow-sm hover:shadow-md",
            ButtonStyle::Danger => "px-6 py-3 bg-red-600 hover:bg-red-700 text-white rounded-lg font-medium transition-all duration-200 shadow-md hover:shadow-lg",
            ButtonStyle::Warning => "px-6 py-3 bg-orange-600 hover:bg-orange-700 text-white rounded-lg font-medium transition-all duration-200 shadow-md hover:shadow-lg",
            ButtonStyle::Disabled => "px-6 py-3 bg-gray-100 text-gray-400 rounded-lg font-medium cursor-not-allowed",
        }
    }
}

} // verus!
