//! The machine's network interfaces, as offered to the user to bind to.

use crate::text::{
    contains_char, contains_str, contains_text, has_prefix, starts_with, str_eq,
};
use vstd::prelude::*;
use vstd::string::*;
use vstd::utf8::encode_utf8;

verus! {

/// Whether the text of an address is that of an IPv4 address: those of IPv6
/// addresses hold a colon, and no other does.
pub open spec fn is_ipv4_text(address: Seq<char>) -> bool {
    !address.contains(':')
}

/// Whether the text of an IPv4 address is that of a loopback address: one in
/// the network 127.
pub open spec fn is_loopback_text(address: Seq<char>) -> bool {
    has_prefix(address, "127."@)
}

/// See [`is_ipv4_text`].
pub fn is_ipv4(address: &str) -> (r: bool)
    ensures
        r == is_ipv4_text(address@),
{
    !contains_char(address, ':')
}

/// See [`is_loopback_text`].
pub fn is_loopback(address: &str) -> (r: bool)
    ensures
        r == is_loopback_text(address@),
{
    starts_with(address, "127.")
}

/// One interface the user can bind to.
#[derive(Debug, PartialEq, Eq)]
pub struct NetworkInterface {
    pub name: String,
    /// The interface's address, as text.
    pub ip: String,
    /// The name as shown: the kind of interface and its address.
    pub display_name: String,
}

/// The mathematical model of a [`NetworkInterface`].
#[verifier::ext_equal]
pub struct NetworkInterfaceView {
    pub name: Seq<char>,
    pub ip: Seq<char>,
    pub display_name: Seq<char>,
}

impl View for NetworkInterface {
    type V = NetworkInterfaceView;

    open spec fn view(&self) -> NetworkInterfaceView {
        NetworkInterfaceView {
            name: self.name@,
            ip: self.ip@,
            display_name: self.display_name@,
        }
    }
}

impl Clone for NetworkInterface {
    fn clone(&self) -> (r: Self)
        ensures
            r@ == self@,
    {
        NetworkInterface {
            name: self.name.clone(),
            ip: self.ip.clone(),
            display_name: self.display_name.clone(),
        }
    }
}

/// The kind of interface that a system name stands for; the name itself where
/// it is of no known kind. The first rule that applies decides.
pub open spec fn friendly_name_of(name: Seq<char>) -> Seq<char> {
    if has_prefix(name, "en"@) && encode_utf8(name).len() <= 4 {
        "Ethernet"@
    } else if has_prefix(name, "eth"@) {
        "Ethernet"@
    } else if has_prefix(name, "wl"@) || has_prefix(name, "wi"@) {
        "Wi-Fi"@
    } else if name == "lo"@ || name == "lo0"@ {
        "Loopback"@
    } else if contains_text(name, "docker"@) {
        "Docker"@
    } else if contains_text(name, "vmnet"@) {
        "VMware"@
    } else if contains_text(name, "vbox"@) {
        "VirtualBox"@
    } else if contains_text(name, "bridge"@) {
        "Bridge"@
    } else if contains_text(name, "tap"@) {
        "TAP"@
    } else if contains_text(name, "tun"@) {
        "TUN"@
    } else {
        name
    }
}

/// The interface `name` with the address `ip`.
pub open spec fn interface_of(name: Seq<char>, ip: Seq<char>) -> NetworkInterfaceView {
    NetworkInterfaceView { name, ip, display_name: friendly_name_of(name) + " ("@ + ip + ")"@ }
}

/// The rank of an interface in the list: wired first, then wireless, then
/// the rest, and loopback last.
pub open spec fn priority_of(interface: NetworkInterfaceView) -> nat {
    if is_loopback_text(interface.ip) {
        3
    } else if friendly_name_of(interface.name) == "Ethernet"@ {
        0
    } else if friendly_name_of(interface.name) == "Wi-Fi"@ {
        1
    } else {
        2
    }
}

/// The interfaces kept of those the machine reports, in their order: the
/// IPv4 ones, and of the loopback ones only one that comes before all others.
pub open spec fn selected(raw: Seq<(Seq<char>, Seq<char>)>) -> Seq<NetworkInterfaceView>
    decreases raw.len(),
{
    if raw.len() == 0 {
        Seq::empty()
    } else {
        let before = selected(raw.drop_last());
        let ip = raw.last().1;
        if is_ipv4_text(ip) && (!is_loopback_text(ip) || before.len() == 0) {
            before.push(interface_of(raw.last().0, ip))
        } else {
            before
        }
    }
}

/// The interfaces of rank `priority` among `interfaces`, in their order.
pub open spec fn of_priority(interfaces: Seq<NetworkInterfaceView>, priority: nat) -> Seq<
    NetworkInterfaceView,
>
    decreases interfaces.len(),
{
    if interfaces.len() == 0 {
        Seq::empty()
    } else {
        let before = of_priority(interfaces.drop_last(), priority);
        if priority_of(interfaces.last()) == priority {
            before.push(interfaces.last())
        } else {
            before
        }
    }
}

/// `interfaces` by rank, those of one rank in the order they had.
pub open spec fn arranged(interfaces: Seq<NetworkInterfaceView>) -> Seq<NetworkInterfaceView> {
    of_priority(interfaces, 0) + of_priority(interfaces, 1) + of_priority(interfaces, 2)
        + of_priority(interfaces, 3)
}

/// The list offered to the user for what the machine reports, `None` standing
/// for a machine that could not be asked: the interfaces kept, or loopback
/// alone where none is, by rank.
pub open spec fn available_from(raw: Option<Seq<(Seq<char>, Seq<char>)>>) -> Seq<
    NetworkInterfaceView,
> {
    let kept = match raw {
        Some(reported) => selected(reported),
        None => Seq::empty(),
    };
    arranged(
        if kept.len() == 0 {
            seq![interface_of("lo"@, "127.0.0.1"@)]
        } else {
            kept
        },
    )
}

/// The models of the interfaces in a list.
pub open spec fn views(interfaces: Seq<NetworkInterface>) -> Seq<NetworkInterfaceView> {
    Seq::new(interfaces.len(), |i: int| interfaces[i]@)
}

/// The models of the entries that the machine reports.
pub open spec fn reported_views(raw: Seq<(String, String)>) -> Seq<(Seq<char>, Seq<char>)> {
    Seq::new(raw.len(), |i: int| (raw[i].0@, raw[i].1@))
}

/// See [`friendly_name_of`].
pub fn friendly_name(name: &str) -> (r: String)
    ensures
        r@ == friendly_name_of(name@),
{
    if starts_with(name, "en") && name.as_bytes().len() <= 4 {
        String::from_str("Ethernet")
    } else if starts_with(name, "eth") {
        String::from_str("Ethernet")
    } else if starts_with(name, "wl") || starts_with(name, "wi") {
        String::from_str("Wi-Fi")
    } else if str_eq(name, "lo") || str_eq(name, "lo0") {
        String::from_str("Loopback")
    } else if contains_str(name, "docker") {
        String::from_str("Docker")
    } else if contains_str(name, "vmnet") {
        String::from_str("VMware")
    } else if contains_str(name, "vbox") {
        String::from_str("VirtualBox")
    } else if contains_str(name, "bridge") {
        String::from_str("Bridge")
    } else if contains_str(name, "tap") {
        String::from_str("TAP")
    } else if contains_str(name, "tun") {
        String::from_str("TUN")
    } else {
        String::from_str(name)
    }
}

impl NetworkInterface {
    /// See [`interface_of`].
    pub fn new(name: String, ip: String) -> (r: Self)
        ensures
            r@ == interface_of(name@, ip@),
    {
        let mut display_name = friendly_name(name.as_str());
        display_name.append(" (");
        display_name.append(ip.as_str());
        display_name.append(")");
        NetworkInterface { name, ip, display_name }
    }

    /// See [`priority_of`].
    pub fn priority(&self) -> (r: u8)
        ensures
            r == priority_of(self@),
    {
        if is_loopback(self.ip.as_str()) {
            3
        } else {
            let kind = friendly_name(self.name.as_str());
            if str_eq(kind.as_str(), "Ethernet") {
                0
            } else if str_eq(kind.as_str(), "Wi-Fi") {
                1
            } else {
                2
            }
        }
    }
}

/// Appends to `out` the interfaces of rank `priority` among `interfaces`.
fn append_of_priority(
    interfaces: &Vec<NetworkInterface>,
    priority: u8,
    out: &mut Vec<NetworkInterface>,
)
    ensures
        views(final(out)@) == views(old(out)@) + of_priority(views(interfaces@), priority as nat),
{
    let ghost all = views(interfaces@);
    let ghost start = views(out@);
    let mut i: usize = 0;
    assert(all.take(0) =~= Seq::empty());
    assert(start + of_priority(all.take(0), priority as nat) =~= start);
    while i < interfaces.len()
        invariant
            i <= interfaces.len(),
            all == views(interfaces@),
            views(out@) == start + of_priority(all.take(i as int), priority as nat),
        decreases interfaces.len() - i,
    {
        let ghost before = views(out@);
        proof {
            assert(all.take(i + 1).drop_last() =~= all.take(i as int));
            assert(all.take(i + 1).last() == interfaces@[i as int]@);
        }
        if interfaces[i].priority() == priority {
            out.push(interfaces[i].clone());
            assert(views(out@) =~= before.push(interfaces@[i as int]@));
            assert(views(out@) =~= start + of_priority(all.take(i + 1), priority as nat));
        }
        i = i + 1;
    }
    assert(all.take(interfaces.len() as int) =~= all);
}

/// `interfaces` by rank, those of one rank in the order they had.
pub fn arrange(interfaces: &Vec<NetworkInterface>) -> (r: Vec<NetworkInterface>)
    ensures
        views(r@) == arranged(views(interfaces@)),
{
    let mut out: Vec<NetworkInterface> = Vec::new();
    assert(views(out@) =~= Seq::empty());
    append_of_priority(interfaces, 0, &mut out);
    append_of_priority(interfaces, 1, &mut out);
    append_of_priority(interfaces, 2, &mut out);
    append_of_priority(interfaces, 3, &mut out);
    assert(views(out@) =~= arranged(views(interfaces@)));
    out
}

/// See [`available_from`].
pub fn get_available_interfaces_from(raw: &Option<Vec<(String, String)>>) -> (r: Vec<
    NetworkInterface,
>)
    ensures
        views(r@) == available_from(
            match *raw {
                Some(reported) => Some(reported_views(reported@)),
                None => None,
            },
        ),
{
    let mut kept: Vec<NetworkInterface> = Vec::new();
    assert(views(kept@) =~= Seq::empty());
    match raw {
        Some(reported) => {
            let ghost all = reported_views(reported@);
            let mut i: usize = 0;
            assert(all.take(0) =~= Seq::empty());
            while i < reported.len()
                invariant
                    i <= reported.len(),
                    all == reported_views(reported@),
                    views(kept@) == selected(all.take(i as int)),
                decreases reported.len() - i,
            {
                let ghost before = views(kept@);
                proof {
                    assert(all.take(i + 1).drop_last() =~= all.take(i as int));
                    assert(all.take(i + 1).last() == (reported@[i as int].0@, reported@[i as int].1@));
                }
                let entry = &reported[i];
                if is_ipv4(entry.1.as_str()) && (!is_loopback(entry.1.as_str()) || kept.len() == 0) {
                    kept.push(NetworkInterface::new(entry.0.clone(), entry.1.clone()));
                    assert(views(kept@) =~= before.push(interface_of(entry.0@, entry.1@)));
                }
                i = i + 1;
            }
            assert(all.take(reported.len() as int) =~= all);
        },
        None => {},
    }
    if kept.len() == 0 {
        let ghost before = views(kept@);
        kept.push(NetworkInterface::new(String::from_str("lo"), String::from_str("127.0.0.1")));
        assert(views(kept@) =~= seq![interface_of("lo"@, "127.0.0.1"@)]);
    }
    arrange(&kept)
}

/// `local_ip_address::list_afinet_netifas`, each address written as text;
/// `None` where the crate could not ask the machine. Nothing is claimed of the
/// value: it depends on the machine's network interfaces at the time of the
/// call.
#[verifier::external_body]
fn list_interfaces() -> (r: Option<Vec<(String, String)>>) {
    match local_ip_address::list_afinet_netifas() {
        Ok(found) => Some(found.into_iter().map(|(name, ip)| (name, ip.to_string())).collect()),
        Err(_) => None,
    }
}

/// `local_ip_address::local_ip`, with the address written as text; `None`
/// where the crate found none. Nothing is claimed of the value: it depends on
/// the machine's network interfaces at the time of the call.
#[verifier::external_body]
pub fn get_default_interface() -> (r: Option<String>) {
    match local_ip_address::local_ip() {
        Ok(ip) => Some(ip.to_string()),
        Err(_) => None,
    }
}

/// The interfaces offered to the user, for what the machine reports now.
pub fn get_available_interfaces() -> (r: Vec<NetworkInterface>)
    ensures
        exists|raw: Option<Seq<(Seq<char>, Seq<char>)>>| views(r@) == available_from(raw),
        r@.len() > 0,
{
    let raw = list_interfaces();
    let r = get_available_interfaces_from(&raw);
    proof {
        let reported = match raw {
            Some(reported) => Some(reported_views(reported@)),
            None => None,
        };
        assert(views(r@) == available_from(reported));
        lemma_available_is_not_empty(reported);
        assert(views(r@).len() == r@.len());
    }
    r
}

/// Arranging keeps every interface: the ranks are four.
pub proof fn lemma_arranged_len(interfaces: Seq<NetworkInterfaceView>)
    ensures
        arranged(interfaces).len() == interfaces.len(),
    decreases interfaces.len(),
{
    if interfaces.len() > 0 {
        lemma_arranged_len(interfaces.drop_last());
    }
}

/// The list offered to the user is never empty.
pub proof fn lemma_available_is_not_empty(raw: Option<Seq<(Seq<char>, Seq<char>)>>)
    ensures
        available_from(raw).len() > 0,
{
    let kept = match raw {
        Some(reported) => selected(reported),
        None => Seq::empty(),
    };
    if kept.len() == 0 {
        lemma_arranged_len(seq![interface_of("lo"@, "127.0.0.1"@)]);
    } else {
        lemma_arranged_len(kept);
    }
}

} // verus!
