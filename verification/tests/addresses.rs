use softphone::clock::{elapsed, timer_parts};
use softphone::commands::SipError;
use softphone::config::{ensure_scheme, ConnectionMode, SipConfig};
use softphone::display::{
    call_status_text, connection_status_text, hook_status_text, registration_status_text,
    timer_text,
};
use softphone::call::CallState;
use softphone::ident::{engine_call_id, local_call_id};
use softphone::session::SipClientManager;
use softphone::text::{
    concat2, contains_char, contains_str, decimal_text, skip_chars, starts_with, str_eq,
    text_after_first,
};

fn server() -> ConnectionMode {
    ConnectionMode::Server {
        server_uri: "sip:pbx.example.com".to_string(),
        username: "alice".to_string(),
        password: "secret".to_string(),
    }
}

fn peer(target: &str) -> ConnectionMode {
    ConnectionMode::PeerToPeer { target_uri: target.to_string() }
}

fn config(mode: ConnectionMode, local_ip: Option<&str>, port: u16) -> SipConfig {
    SipConfig {
        display_name: "alice".to_string(),
        connection_mode: mode,
        local_port: port,
        local_ip: local_ip.map(|ip| ip.to_string()),
    }
}

#[test]
fn text_helpers() {
    assert!(str_eq("abc", "abc"));
    assert!(!str_eq("abc", "abd"));
    assert!(!str_eq("abc", "ab"));
    assert!(contains_char("alice@host", '@'));
    assert!(!contains_char("alice", '@'));
    assert!(!contains_char("", '@'));
    assert!(starts_with("sip:bob", "sip:"));
    assert!(!starts_with("sip", "sip:"));
    assert!(!starts_with("tel:bob", "sip:"));
    assert!(starts_with("anything", ""));
    assert_eq!(skip_chars("sip:bob", 4), "bob");
    assert_eq!(skip_chars("sip:", 4), "");
    assert_eq!(text_after_first("alice@192.168.1.100", '@'), Some("192.168.1.100".to_string()));
    assert_eq!(text_after_first("a@b@c", '@'), Some("b@c".to_string()));
    assert_eq!(text_after_first("alice@", '@'), Some(String::new()));
    assert_eq!(text_after_first("alice", '@'), None);
    assert_eq!(concat2("sip:", "bob"), "sip:bob");
    assert!(contains_str("docker0", "docker"));
    assert!(contains_str("br-docker", "docker"));
    assert!(contains_str("tap", "tap"));
    assert!(contains_str("abc", ""));
    assert!(!contains_str("dock", "docker"));
    assert!(!contains_str("", "x"));
    assert!(contains_char("grüße@host", '@'));
    assert_eq!(text_after_first("grüße@höst", '@'), Some("höst".to_string()));
}

#[test]
fn decimal_numerals() {
    assert_eq!(decimal_text(0), "0");
    assert_eq!(decimal_text(7), "7");
    assert_eq!(decimal_text(10), "10");
    assert_eq!(decimal_text(5060), "5060");
    assert_eq!(decimal_text(65535), "65535");
    assert_eq!(decimal_text(u64::MAX), "18446744073709551615");
}

#[test]
fn connection_mode_from_the_form() {
    assert_eq!(ConnectionMode::from_form("alice", "secret", ""), ConnectionMode::Receiver);
    assert_eq!(
        ConnectionMode::from_form("alice", "secret", "bob@192.168.1.20"),
        peer("bob@192.168.1.20")
    );
    assert_eq!(ConnectionMode::from_form("alice", "secret", "sip:pbx.example.com"), server());
    let profile =
        SipConfig::from_form("alice", "secret", "sip:pbx.example.com", &Some("10.0.0.1".to_string()), 5080);
    assert_eq!(profile, config(server(), Some("10.0.0.1"), 5080));
}

#[test]
fn default_profile() {
    let profile = SipConfig::default();
    assert_eq!(profile.display_name, "User");
    assert_eq!(
        profile.connection_mode,
        ConnectionMode::Server {
            server_uri: "sip:127.0.0.1:5060".to_string(),
            username: "user".to_string(),
            password: "password".to_string(),
        }
    );
    assert_eq!(profile.local_port, 5060);
    assert_eq!(profile.local_ip, None);
    assert_eq!(profile.clone(), profile);
}

#[test]
fn identity_of_each_mode() {
    assert_eq!(config(server(), None, 5060).identity(&None), "sip:alice@pbx.example.com");
    let bare = ConnectionMode::Server {
        server_uri: "pbx.example.com:5061".to_string(),
        username: "alice".to_string(),
        password: "secret".to_string(),
    };
    assert_eq!(config(bare, None, 5060).identity(&None), "sip:alice@pbx.example.com:5061");
    let detected = Some("10.1.2.3".to_string());
    assert_eq!(config(peer("bob@host"), None, 5062).identity(&detected), "sip:alice@127.0.0.1:5062");
    assert_eq!(
        config(peer("bob@host"), Some("192.168.1.10"), 5062).identity(&detected),
        "sip:alice@192.168.1.10:5062"
    );
    assert_eq!(
        config(ConnectionMode::Receiver, None, 5062).identity(&detected),
        "sip:alice@10.1.2.3:5062"
    );
    assert_eq!(
        config(ConnectionMode::Receiver, None, 5062).identity(&None),
        "sip:alice@127.0.0.1:5062"
    );
    assert_eq!(
        config(ConnectionMode::Receiver, Some("192.168.1.10"), 5062).identity(&detected),
        "sip:alice@192.168.1.10:5062"
    );
}

#[test]
fn local_address_of_a_profile() {
    assert_eq!(config(server(), None, 5060).local_address(), "0.0.0.0:5060");
    assert_eq!(config(server(), Some("192.168.1.10"), 0).local_address(), "192.168.1.10:0");
    assert_eq!(config(server(), Some("::1"), 65535).local_address(), "::1:65535");
}

#[test]
fn listening_address_of_a_profile() {
    let detected = Some("10.1.2.3".to_string());
    assert_eq!(config(server(), None, 5060).listening_address(&detected), None);
    assert_eq!(config(peer("bob@host"), None, 5060).listening_address(&detected), None);
    assert_eq!(
        config(ConnectionMode::Receiver, None, 5060).listening_address(&detected),
        Some("alice@10.1.2.3:5060".to_string())
    );
    assert_eq!(
        config(ConnectionMode::Receiver, None, 5060).listening_address(&None),
        Some("alice@127.0.0.1:5060".to_string())
    );
    assert_eq!(
        config(ConnectionMode::Receiver, Some("192.168.1.10"), 5060).listening_address(&detected),
        Some("alice@192.168.1.10:5060".to_string())
    );
    let session = SipClientManager::new(config(ConnectionMode::Receiver, Some("192.168.1.10"), 5060));
    assert_eq!(session.get_listening_address(), Some("alice@192.168.1.10:5060".to_string()));
    let session = SipClientManager::new(config(server(), None, 5060));
    assert_eq!(session.get_listening_address(), None);
    let session = SipClientManager::new(config(ConnectionMode::Receiver, None, 5060));
    let address = session.get_listening_address().expect("a listening address");
    assert!(address.starts_with("alice@"));
    assert!(address.ends_with(":5060"));
}

#[test]
fn call_uri_of_each_mode() {
    assert_eq!(server().call_uri("bob"), "sip:bob");
    assert_eq!(server().call_uri("sip:bob@example.com"), "sip:bob@example.com");
    assert_eq!(server().call_uri("bob@example.com"), "sip:bob@example.com");
    assert_eq!(ConnectionMode::Receiver.call_uri("alice@192.168.1.100"), "alice@192.168.1.100");
    assert_eq!(ConnectionMode::Receiver.call_uri("sip:bob"), "sip:bob");
    let p2p = peer("alice@192.168.1.100");
    assert_eq!(p2p.call_uri("bob"), "sip:bob@192.168.1.100");
    assert_eq!(p2p.call_uri("bob@10.0.0.5"), "bob@10.0.0.5");
    assert_eq!(p2p.call_uri("sip:bob"), "sip:bob");
    assert_eq!(peer("nohost").call_uri("bob"), "sip:bob");
    assert_eq!(ensure_scheme("1001"), "sip:1001");
    assert_eq!(ensure_scheme("sip:1001"), "sip:1001");
}

#[test]
fn call_identifiers_round_trip() {
    let number = 0x67e55044_10b1_426f_9247_bb680e5fe0c8u128;
    let text = local_call_id(number);
    assert_eq!(text, "67e55044-10b1-426f-9247-bb680e5fe0c8");
    assert_eq!(engine_call_id(&text), Ok(number));
    assert_eq!(engine_call_id("67E5504410B1426F9247BB680E5FE0C8"), Ok(number));
    assert_eq!(local_call_id(0), "00000000-0000-0000-0000-000000000000");
    assert_eq!(engine_call_id("00000000-0000-0000-0000-000000000001"), Ok(1));
    assert_eq!(engine_call_id("not-a-call"), Err(SipError::InvalidIdentifier));
    assert_eq!(engine_call_id(""), Err(SipError::InvalidIdentifier));
}

#[test]
fn error_messages() {
    assert_eq!(SipError::NotInitialized.message(), "Client not initialized");
    assert_eq!(SipError::NoActiveCall.message(), "No active call");
    assert_eq!(SipError::AlreadyInCall.message(), "Call already in progress");
    assert_eq!(SipError::InvalidTarget.message(), "Invalid call target");
    assert_eq!(SipError::EngineFailure("no route".to_string()).message(), "no route");
    assert_eq!(SipError::InvalidIdentifier.message(), "Invalid call ID format");
}

#[test]
fn elapsed_time() {
    assert_eq!(elapsed(1_000, 76_500), Some(75_500));
    assert_eq!(elapsed(5, 5), Some(0));
    assert_eq!(elapsed(6, 5), None);
    assert_eq!(elapsed(i64::MIN, i64::MAX), Some(u64::MAX));
    assert_eq!(timer_parts(75_500), (1, 15));
    assert_eq!(timer_parts(999), (0, 0));
    assert_eq!(timer_parts(3_600_000), (60, 0));
}

#[test]
fn timer_texts() {
    assert_eq!(timer_text(0), "00:00");
    assert_eq!(timer_text(75_500), "01:15");
    assert_eq!(timer_text(599_999), "09:59");
    assert_eq!(timer_text(600_000), "10:00");
    assert_eq!(timer_text(6_000_000), "100:00");
}

#[test]
fn status_texts() {
    assert_eq!(call_status_text(&CallState::Calling), "Calling...");
    assert_eq!(call_status_text(&CallState::Ringing), "Ringing...");
    assert_eq!(call_status_text(&CallState::Connected), "Connected");
    assert_eq!(call_status_text(&CallState::Disconnected), "Ended");
    assert_eq!(call_status_text(&CallState::OnHold), "Unknown");
    assert_eq!(registration_status_text(&CallState::Idle, ""), "Ready to receive incoming calls");
    assert_eq!(
        registration_status_text(&CallState::Idle, "bob@host"),
        "Enter peer address to connect directly"
    );
    assert_eq!(
        registration_status_text(&CallState::Idle, "sip:pbx"),
        "Enter server details to connect"
    );
    assert_eq!(registration_status_text(&CallState::Registering, ""), "Starting receiver mode...");
    assert_eq!(registration_status_text(&CallState::Registering, "bob@host"), "Connecting to peer...");
    assert_eq!(
        registration_status_text(&CallState::Registering, "sip:pbx"),
        "Registering with server..."
    );
    assert_eq!(registration_status_text(&CallState::Registered, ""), "Listening for incoming calls");
    assert_eq!(registration_status_text(&CallState::Registered, "sip:pbx"), "Connected successfully");
    assert_eq!(
        registration_status_text(&CallState::Error("no route".to_string()), "sip:pbx"),
        "no route"
    );
    assert_eq!(registration_status_text(&CallState::Connected, "sip:pbx"), "Unknown status");
    assert_eq!(connection_status_text("bob@host"), "P2P: bob@host");
    assert_eq!(connection_status_text("sip:pbx"), "Server: sip:pbx");
    assert_eq!(connection_status_text(""), "No server configured");
    assert_eq!(hook_status_text(true), "Ready to receive calls");
    assert_eq!(hook_status_text(false), "Not receiving calls");
}
