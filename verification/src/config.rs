//! The connection profile of a session and the addresses derived from it.

use crate::call::view_of;
use crate::text::{
    after_first, concat2, contains_char, decimal, decimal_text, has_prefix, sip_scheme,
    skip_chars, starts_with, text_after_first,
};
use vstd::prelude::*;
use vstd::string::*;

verus! {

/// How the remote party is reached.
#[derive(Debug, PartialEq, Eq)]
pub enum ConnectionMode {
    /// Registration with a server.
    Server { server_uri: String, username: String, password: String },
    /// A direct connection to one peer.
    PeerToPeer { target_uri: String },
    /// Listening for incoming calls only.
    Receiver,
}

/// The mathematical model of a [`ConnectionMode`].
#[verifier::ext_equal]
pub enum ConnectionModeView {
    Server { server_uri: Seq<char>, username: Seq<char>, password: Seq<char> },
    PeerToPeer { target_uri: Seq<char> },
    Receiver,
}

impl View for ConnectionMode {
    type V = ConnectionModeView;

    open spec fn view(&self) -> ConnectionModeView {
        match *self {
            ConnectionMode::Server { server_uri, username, password } => ConnectionModeView::Server {
                server_uri: server_uri@,
                username: username@,
                password: password@,
            },
            ConnectionMode::PeerToPeer { target_uri } => ConnectionModeView::PeerToPeer {
                target_uri: target_uri@,
            },
            ConnectionMode::Receiver => ConnectionModeView::Receiver,
        }
    }
}

impl Clone for ConnectionMode {
    fn clone(&self) -> (r: Self)
        ensures
            r@ == self@,
    {
        match self {
            ConnectionMode::Server { server_uri, username, password } => ConnectionMode::Server {
                server_uri: server_uri.clone(),
                username: username.clone(),
                password: password.clone(),
            },
            ConnectionMode::PeerToPeer { target_uri } => ConnectionMode::PeerToPeer {
                target_uri: target_uri.clone(),
            },
            ConnectionMode::Receiver => ConnectionMode::Receiver,
        }
    }
}

/// The connection profile of one session.
#[derive(Debug, PartialEq, Eq)]
pub struct SipConfig {
    /// The user's display name.
    pub display_name: String,
    pub connection_mode: ConnectionMode,
    pub local_port: u16,
    /// The local address to bind to, if one was chosen.
    pub local_ip: Option<String>,
}

/// The mathematical model of a [`SipConfig`].
#[verifier::ext_equal]
pub struct SipConfigView {
    pub display_name: Seq<char>,
    pub connection_mode: ConnectionModeView,
    pub local_port: u16,
    pub local_ip: Option<Seq<char>>,
}

impl View for SipConfig {
    type V = SipConfigView;

    open spec fn view(&self) -> SipConfigView {
        SipConfigView {
            display_name: self.display_name@,
            connection_mode: self.connection_mode@,
            local_port: self.local_port,
            local_ip: view_of(self.local_ip),
        }
    }
}

/// A copy of an optional text.
pub fn clone_text(text: &Option<String>) -> (r: Option<String>)
    ensures
        view_of(r) == view_of(*text),
{
    match text {
        Some(t) => Some(t.clone()),
        None => None,
    }
}

impl Clone for SipConfig {
    fn clone(&self) -> (r: Self)
        ensures
            r@ == self@,
    {
        SipConfig {
            display_name: self.display_name.clone(),
            connection_mode: self.connection_mode.clone(),
            local_port: self.local_port,
            local_ip: clone_text(&self.local_ip),
        }
    }
}

/// The profile that a session starts with before the user has entered one.
pub open spec fn default_profile() -> SipConfigView {
    SipConfigView {
        display_name: "User"@,
        connection_mode: ConnectionModeView::Server {
            server_uri: "sip:127.0.0.1:5060"@,
            username: "user"@,
            password: "password"@,
        },
        local_port: 5060,
        local_ip: None,
    }
}

impl Default for SipConfig {
    fn default() -> (r: Self)
        ensures
            r@ == default_profile(),
    {
        SipConfig {
            display_name: String::from_str("User"),
            connection_mode: ConnectionMode::Server {
                server_uri: String::from_str("sip:127.0.0.1:5060"),
                username: String::from_str("user"),
                password: String::from_str("password"),
            },
            local_port: 5060,
            local_ip: None,
        }
    }
}

/// The mode that the text entered as server stands for: nothing entered means
/// listening only, an address with a user part means one peer, anything else
/// is a server to register with.
pub open spec fn mode_of(
    username: Seq<char>,
    password: Seq<char>,
    server_uri: Seq<char>,
) -> ConnectionModeView {
    if server_uri.len() == 0 {
        ConnectionModeView::Receiver
    } else if server_uri.contains('@') {
        ConnectionModeView::PeerToPeer { target_uri: server_uri }
    } else {
        ConnectionModeView::Server { server_uri, username, password }
    }
}

/// The profile that the fields of the connection form stand for.
pub open spec fn profile_of(
    username: Seq<char>,
    password: Seq<char>,
    server_uri: Seq<char>,
    local_ip: Option<Seq<char>>,
    local_port: u16,
) -> SipConfigView {
    SipConfigView {
        display_name: username,
        connection_mode: mode_of(username, password, server_uri),
        local_port,
        local_ip,
    }
}

/// The host part of a server address: the address without its scheme.
pub open spec fn server_host(server_uri: Seq<char>) -> Seq<char> {
    if has_prefix(server_uri, sip_scheme()) {
        server_uri.skip(4)
    } else {
        server_uri
    }
}

/// The address another party is told to call back: for a server account the
/// user at the server's host, else the display name at the local address,
/// where `detected` is what the machine reported as its own address.
pub open spec fn identity_of(config: SipConfigView, detected: Option<Seq<char>>) -> Seq<char> {
    match config.connection_mode {
        ConnectionModeView::Server { server_uri, username, password } => sip_scheme() + username
            + seq!['@'] + server_host(server_uri),
        _ => sip_scheme() + config.display_name + seq!['@'] + identity_host(config, detected)
            + seq![':'] + decimal(config.local_port as nat),
    }
}

/// The host named in the identity of a session without a server.
pub open spec fn identity_host(config: SipConfigView, detected: Option<Seq<char>>) -> Seq<char> {
    match config.local_ip {
        Some(ip) => ip,
        None => if config.connection_mode is Receiver && detected is Some {
            detected->0
        } else {
            "127.0.0.1"@
        },
    }
}

/// The host that the engine binds to.
pub open spec fn bind_host(config: SipConfigView) -> Seq<char> {
    match config.local_ip {
        Some(ip) => ip,
        None => "0.0.0.0"@,
    }
}

/// The socket address that the engine binds to.
pub open spec fn local_address_of(config: SipConfigView) -> Seq<char> {
    bind_host(config) + seq![':'] + decimal(config.local_port as nat)
}

/// The address shown to the user of a listening session.
pub open spec fn listening_address_of(
    config: SipConfigView,
    detected: Option<Seq<char>>,
) -> Option<Seq<char>> {
    if config.connection_mode is Receiver {
        Some(
            config.display_name + seq!['@'] + match config.local_ip {
                Some(ip) => ip,
                None => match detected {
                    Some(ip) => ip,
                    None => "127.0.0.1"@,
                },
            } + seq![':'] + decimal(config.local_port as nat),
        )
    } else {
        None
    }
}

/// The address a call is placed to. With a server, and when listening only, the
/// target passes through, with a server after the scheme has been put in front
/// where it was missing. With one peer, a bare name is resolved against the
/// peer's domain.
pub open spec fn call_uri_of(mode: ConnectionModeView, target: Seq<char>) -> Seq<char> {
    match mode {
        ConnectionModeView::Server { .. } => with_scheme(target),
        ConnectionModeView::PeerToPeer { target_uri } => {
            if target.contains('@') || has_prefix(target, sip_scheme()) {
                target
            } else {
                match after_first(target_uri, '@') {
                    Some(domain) => sip_scheme() + target + seq!['@'] + domain,
                    None => sip_scheme() + target,
                }
            }
        },
        ConnectionModeView::Receiver => target,
    }
}

/// `target` with the SIP scheme in front, unless it is there already.
pub open spec fn with_scheme(target: Seq<char>) -> Seq<char> {
    if has_prefix(target, sip_scheme()) {
        target
    } else {
        sip_scheme() + target
    }
}

/// See [`with_scheme`].
pub fn ensure_scheme(target: &str) -> (r: String)
    ensures
        r@ == with_scheme(target@),
{
    proof {
        reveal_strlit("sip:");
        assert("sip:"@ =~= sip_scheme());
    }
    if starts_with(target, "sip:") {
        String::from_str(target)
    } else {
        concat2("sip:", target)
    }
}

impl ConnectionMode {
    /// See [`mode_of`].
    pub fn from_form(username: &str, password: &str, server_uri: &str) -> (r: ConnectionMode)
        ensures
            r@ == mode_of(username@, password@, server_uri@),
    {
        if server_uri.unicode_len() == 0 {
            ConnectionMode::Receiver
        } else if contains_char(server_uri, '@') {
            ConnectionMode::PeerToPeer { target_uri: String::from_str(server_uri) }
        } else {
            ConnectionMode::Server {
                server_uri: String::from_str(server_uri),
                username: String::from_str(username),
                password: String::from_str(password),
            }
        }
    }

    /// Whether this is the listening mode.
    pub fn is_receiver(&self) -> (r: bool)
        ensures
            r == (self@ is Receiver),
    {
        match self {
            ConnectionMode::Receiver => true,
            _ => false,
        }
    }

    /// See [`call_uri_of`].
    pub fn call_uri(&self, target: &str) -> (r: String)
        ensures
            r@ == call_uri_of(self@, target@),
    {
        proof {
            reveal_strlit("sip:");
            reveal_strlit("@");
            assert("sip:"@ =~= sip_scheme());
            assert("@"@ =~= seq!['@']);
        }
        match self {
            ConnectionMode::Server { .. } => ensure_scheme(target),
            ConnectionMode::PeerToPeer { target_uri } => {
                if contains_char(target, '@') || starts_with(target, "sip:") {
                    String::from_str(target)
                } else {
                    let mut uri = concat2("sip:", target);
                    match text_after_first(target_uri.as_str(), '@') {
                        Some(domain) => {
                            uri.append("@");
                            uri.append(domain.as_str());
                            uri
                        },
                        None => uri,
                    }
                }
            },
            ConnectionMode::Receiver => String::from_str(target),
        }
    }
}

impl SipConfig {
    /// See [`profile_of`].
    pub fn from_form(
        username: &str,
        password: &str,
        server_uri: &str,
        local_ip: &Option<String>,
        local_port: u16,
    ) -> (r: SipConfig)
        ensures
            r@ == profile_of(username@, password@, server_uri@, view_of(*local_ip), local_port),
    {
        SipConfig {
            display_name: String::from_str(username),
            connection_mode: ConnectionMode::from_form(username, password, server_uri),
            local_port,
            local_ip: clone_text(local_ip),
        }
    }

    /// See [`identity_of`].
    pub fn identity(&self, detected: &Option<String>) -> (r: String)
        ensures
            r@ == identity_of(self@, view_of(*detected)),
    {
        proof {
            reveal_strlit("sip:");
            reveal_strlit("@");
            reveal_strlit(":");
            assert("sip:"@ =~= sip_scheme());
            assert("@"@ =~= seq!['@']);
            assert(":"@ =~= seq![':']);
        }
        match &self.connection_mode {
            ConnectionMode::Server { server_uri, username, password } => {
                let mut id = concat2("sip:", username.as_str());
                id.append("@");
                if starts_with(server_uri.as_str(), "sip:") {
                    let host = skip_chars(server_uri.as_str(), 4);
                    id.append(host.as_str());
                } else {
                    id.append(server_uri.as_str());
                }
                id
            },
            _ => {
                let mut id = concat2("sip:", self.display_name.as_str());
                id.append("@");
                match &self.local_ip {
                    Some(ip) => {
                        id.append(ip.as_str());
                    },
                    None => {
                        let listening = self.connection_mode.is_receiver();
                        match detected {
                            Some(ip) => {
                                if listening {
                                    id.append(ip.as_str());
                                } else {
                                    id.append("127.0.0.1");
                                }
                            },
                            None => {
                                id.append("127.0.0.1");
                            },
                        }
                    },
                }
                id.append(":");
                let port = decimal_text(self.local_port as u64);
                id.append(port.as_str());
                id
            },
        }
    }

    /// See [`local_address_of`].
    pub fn local_address(&self) -> (r: String)
        ensures
            r@ == local_address_of(self@),
    {
        proof {
            reveal_strlit(":");
            assert(":"@ =~= seq![':']);
        }
        let mut address = match &self.local_ip {
            Some(ip) => ip.clone(),
            None => String::from_str("0.0.0.0"),
        };
        address.append(":");
        let port = decimal_text(self.local_port as u64);
        address.append(port.as_str());
        address
    }

    /// See [`listening_address_of`].
    pub fn listening_address(&self, detected: &Option<String>) -> (r: Option<String>)
        ensures
            view_of(r) == listening_address_of(self@, view_of(*detected)),
    {
        proof {
            reveal_strlit(":");
            reveal_strlit("@");
            assert(":"@ =~= seq![':']);
            assert("@"@ =~= seq!['@']);
        }
        if self.connection_mode.is_receiver() {
            let mut address = concat2(self.display_name.as_str(), "@");
            match &self.local_ip {
                Some(ip) => {
                    address.append(ip.as_str());
                },
                None => match detected {
                    Some(ip) => {
                        address.append(ip.as_str());
                    },
                    None => {
                        address.append("127.0.0.1");
                    },
                },
            }
            address.append(":");
            let port = decimal_text(self.local_port as u64);
            address.append(port.as_str());
            Some(address)
        } else {
            None
        }
    }
}

} // verus!
