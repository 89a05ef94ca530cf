use softphone::network::{
    arrange, friendly_name, get_available_interfaces, get_available_interfaces_from,
    get_default_interface, is_ipv4, is_loopback, NetworkInterface,
};

fn v4(text: &str) -> String {
    text.to_string()
}

fn v6(text: &str) -> String {
    text.to_string()
}

fn names(interfaces: &Vec<NetworkInterface>) -> Vec<String> {
    interfaces.iter().map(|i| i.name.clone()).collect()
}

#[test]
fn friendly_names() {
    assert_eq!(friendly_name("en0"), "Ethernet");
    assert_eq!(friendly_name("en12"), "Ethernet");
    assert_eq!(friendly_name("enp3s0"), "enp3s0");
    assert_eq!(friendly_name("eth0"), "Ethernet");
    assert_eq!(friendly_name("wlan0"), "Wi-Fi");
    assert_eq!(friendly_name("wifi0"), "Wi-Fi");
    assert_eq!(friendly_name("lo"), "Loopback");
    assert_eq!(friendly_name("lo0"), "Loopback");
    assert_eq!(friendly_name("lo1"), "lo1");
    assert_eq!(friendly_name("docker0"), "Docker");
    assert_eq!(friendly_name("vmnet8"), "VMware");
    assert_eq!(friendly_name("vboxnet0"), "VirtualBox");
    assert_eq!(friendly_name("bridge100"), "Bridge");
    assert_eq!(friendly_name("tap0"), "TAP");
    assert_eq!(friendly_name("utun3"), "TUN");
    assert_eq!(friendly_name("ppp0"), "ppp0");
    assert_eq!(friendly_name("enx\u{e9}"), "enx\u{e9}");
}

#[test]
fn kinds_of_addresses() {
    assert!(is_ipv4("192.168.1.10"));
    assert!(is_ipv4("127.0.0.1"));
    assert!(!is_ipv4("fe80::1"));
    assert!(!is_ipv4("::ffff:192.168.1.10"));
    assert!(is_loopback("127.0.0.1"));
    assert!(is_loopback("127.255.0.3"));
    assert!(!is_loopback("12.7.0.1"));
    assert!(!is_loopback("192.168.127.1"));
}

#[test]
fn interface_display_name() {
    let interface = NetworkInterface::new("eth0".to_string(), v4("192.168.1.10"));
    assert_eq!(interface.name, "eth0");
    assert_eq!(interface.ip, v4("192.168.1.10"));
    assert_eq!(interface.display_name, "Ethernet (192.168.1.10)");
    assert_eq!(interface.priority(), 0);
    assert_eq!(NetworkInterface::new("wlan0".to_string(), v4("10.0.0.2")).priority(), 1);
    assert_eq!(NetworkInterface::new("ppp0".to_string(), v4("10.0.0.3")).priority(), 2);
    assert_eq!(NetworkInterface::new("eth1".to_string(), v4("127.0.0.1")).priority(), 3);
}

#[test]
fn available_interfaces_are_kept_and_arranged() {
    let raw = Some(vec![
        ("docker0".to_string(), v4("172.17.0.1")),
        ("lo".to_string(), v4("127.0.0.1")),
        ("wlan0".to_string(), v4("192.168.1.20")),
        ("eth0".to_string(), v6("fe80::1")),
        ("eth0".to_string(), v4("192.168.1.10")),
        ("tun0".to_string(), v4("10.8.0.2")),
        ("en0".to_string(), v4("192.168.1.11")),
    ]);
    let interfaces = get_available_interfaces_from(&raw);
    assert_eq!(names(&interfaces), vec!["eth0", "en0", "wlan0", "docker0", "tun0"]);
    assert_eq!(interfaces[0].display_name, "Ethernet (192.168.1.10)");
    assert_eq!(interfaces[3].display_name, "Docker (172.17.0.1)");
}

#[test]
fn loopback_is_kept_only_in_front() {
    let raw = Some(vec![
        ("lo".to_string(), v4("127.0.0.1")),
        ("lo".to_string(), v4("127.0.0.2")),
        ("eth0".to_string(), v4("192.168.1.10")),
    ]);
    let interfaces = get_available_interfaces_from(&raw);
    assert_eq!(names(&interfaces), vec!["eth0", "lo"]);
    assert_eq!(interfaces[1].ip, "127.0.0.1");
}

#[test]
fn loopback_stands_in_where_nothing_is_reported() {
    for raw in [
        None,
        Some(vec![]),
        Some(vec![("eth0".to_string(), v6("fe80::1")), ("lo".to_string(), v6("::1"))]),
    ] {
        let interfaces = get_available_interfaces_from(&raw);
        assert_eq!(interfaces.len(), 1);
        assert_eq!(interfaces[0].name, "lo");
        assert_eq!(interfaces[0].ip, v4("127.0.0.1"));
        assert_eq!(interfaces[0].display_name, "Loopback (127.0.0.1)");
    }
}

#[test]
fn arranging_is_stable() {
    let interfaces = vec![
        NetworkInterface::new("ppp1".to_string(), v4("10.0.0.1")),
        NetworkInterface::new("wlan1".to_string(), v4("10.0.0.2")),
        NetworkInterface::new("ppp0".to_string(), v4("10.0.0.3")),
        NetworkInterface::new("wlan0".to_string(), v4("10.0.0.4")),
        NetworkInterface::new("eth1".to_string(), v4("10.0.0.5")),
    ];
    assert_eq!(names(&arrange(&interfaces)), vec!["eth1", "wlan1", "wlan0", "ppp1", "ppp0"]);
    assert_eq!(arrange(&Vec::new()), Vec::new());
}

#[test]
fn the_machine_can_be_asked() {
    let interfaces = get_available_interfaces();
    assert!(!interfaces.is_empty());
    for interface in &interfaces {
        assert!(is_ipv4(&interface.ip));
        assert!(interface.display_name.ends_with(&format!("({})", interface.ip)));
    }
    if let Some(address) = get_default_interface() {
        assert!(!address.is_empty());
    }
}
