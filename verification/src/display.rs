//! The words the screens show for the state of a session.

use crate::call::{CallState, CallStateView};
use crate::clock::{minutes_seconds, timer_parts};
use crate::text::{concat2, contains_char, decimal, decimal_text};
use vstd::prelude::*;
use vstd::string::*;

verus! {

/// A number in at least two decimal digits.
pub open spec fn two_digits(n: nat) -> Seq<char> {
    if n < 10 {
        seq!['0'] + decimal(n)
    } else {
        decimal(n)
    }
}

/// The elapsed time of a call as its timer shows it: minutes and seconds,
/// each in at least two digits.
pub open spec fn timer_text_of(duration: u64) -> Seq<char> {
    two_digits(minutes_seconds(duration).0 as nat) + seq![':'] + two_digits(
        minutes_seconds(duration).1 as nat,
    )
}

/// What the call panel says of a call's state.
pub open spec fn call_status_of(state: CallStateView) -> Seq<char> {
    match state {
        CallStateView::Calling => "Calling..."@,
        CallStateView::Ringing => "Ringing..."@,
        CallStateView::Connected => "Connected"@,
        CallStateView::Disconnected => "Ended"@,
        _ => "Unknown"@,
    }
}

/// What the connection form says of the registration, for the text entered
/// as server: nothing entered means listening only, an address with a user
/// part means one peer.
pub open spec fn registration_status_of(state: CallStateView, server_uri: Seq<char>) -> Seq<char> {
    match state {
        CallStateView::Idle => if server_uri.len() == 0 {
            "Ready to receive incoming calls"@
        } else if server_uri.contains('@') {
            "Enter peer address to connect directly"@
        } else {
            "Enter server details to connect"@
        },
        CallStateView::Registering => if server_uri.len() == 0 {
            "Starting receiver mode..."@
        } else if server_uri.contains('@') {
            "Connecting to peer..."@
        } else {
            "Registering with server..."@
        },
        CallStateView::Registered => if server_uri.len() == 0 {
            "Listening for incoming calls"@
        } else {
            "Connected successfully"@
        },
        CallStateView::Error(message) => message,
        _ => "Unknown status"@,
    }
}

/// What the call screen says of the connection, for the text entered as
/// server.
pub open spec fn connection_status_of(server_uri: Seq<char>) -> Seq<char> {
    if server_uri.contains('@') {
        "P2P: "@ + server_uri
    } else if server_uri.len() > 0 {
        "Server: "@ + server_uri
    } else {
        "No server configured"@
    }
}

/// What the hook indicator says.
pub open spec fn hook_status_of(is_on_hook: bool) -> Seq<char> {
    if is_on_hook {
        "Ready to receive calls"@
    } else {
        "Not receiving calls"@
    }
}

fn two_digit_text(n: u64) -> (r: String)
    ensures
        r@ == two_digits(n as nat),
{
    proof {
        reveal_strlit("0");
        assert("0"@ =~= seq!['0']);
    }
    let digits = decimal_text(n);
    if n < 10 {
        concat2("0", digits.as_str())
    } else {
        digits
    }
}

/// See [`timer_text_of`].
pub fn timer_text(duration: u64) -> (r: String)
    ensures
        r@ == timer_text_of(duration),
{
    proof {
        reveal_strlit(":");
        assert(":"@ =~= seq![':']);
    }
    let parts = timer_parts(duration);
    let mut text = two_digit_text(parts.0);
    text.append(":");
    let seconds = two_digit_text(parts.1);
    text.append(seconds.as_str());
    text
}

/// See [`call_status_of`].
pub fn call_status_text(state: &CallState) -> (r: &'static str)
    ensures
        r@ == call_status_of(state@),
{
    match state {
        CallState::Calling => "Calling...",
        CallState::Ringing => "Ringing...",
        CallState::Connected => "Connected",
        CallState::Disconnected => "Ended",
        _ => "Unknown",
    }
}

/// See [`registration_status_of`].
pub fn registration_status_text(state: &CallState, server_uri: &str) -> (r: String)
    ensures
        r@ == registration_status_of(state@, server_uri@),
{
    let listening = server_uri.unicode_len() == 0;
    let peer = contains_char(server_uri, '@');
    match state {
        CallState::Idle => if listening {
            String::from_str("Ready to receive incoming calls")
        } else if peer {
            String::from_str("Enter peer address to connect directly")
        } else {
            String::from_str("Enter server details to connect")
        },
        CallState::Registering => if listening {
            String::from_str("Starting receiver mode...")
        } else if peer {
            String::from_str("Connecting to peer...")
        } else {
            String::from_str("Registering with server...")
        },
        CallState::Registered => if listening {
            String::from_str("Listening for incoming calls")
        } else {
            String::from_str("Connected successfully")
        },
        CallState::Error(message) => message.clone(),
        _ => String::from_str("Unknown status"),
    }
}

/// See [`connection_status_of`].
pub fn connection_status_text(server_uri: &str) -> (r: String)
    ensures
        r@ == connection_status_of(server_uri@),
{
    if contains_char(server_uri, '@') {
        concat2("P2P: ", server_uri)
    } else if server_uri.unicode_len() > 0 {
        concat2("Server: ", server_uri)
    } else {
        String::from_str("No server configured")
    }
}

/// See [`hook_status_of`].
pub fn hook_status_text(is_on_hook: bool) -> (r: &'static str)
    ensures
        r@ == hook_status_of(is_on_hook),
{
    if is_on_hook {
        "Ready to receive calls"
    } else {
        "Not receiving calls"
    }
}

} // verus!
