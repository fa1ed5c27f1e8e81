use inapi::posix::{
    apply_netif_entry, default_fs_fields, fs_mount, fs_pattern, set_mode_args, set_owner_args, stat_args,
    tool_output, FsFieldOrder, Ipv6Fields, Tool,
};
use inapi::telemetry::{Netif, NetifIPv4, NetifStatus};
use inapi::Error;

#[test]
fn tool_arguments() {
    assert_eq!(set_owner_args("/etc/motd", "root", "wheel"), vec!["root:wheel", "/etc/motd"]);
    assert_eq!(set_mode_args("/tmp/x", 644), vec!["644", "/tmp/x"]);
    assert_eq!(stat_args("/tmp/x", &vec!["-c".to_string(), "%a".to_string()]), vec!["-c", "%a", "/tmp/x"]);
    assert_eq!(Tool::Chown.name(), "chown");
}

#[test]
fn tool_results() {
    assert_eq!(tool_output(Tool::Hostname, true, "  box.local\n", "").unwrap(), "box.local");
    match tool_output(Tool::Chmod, false, "", "no such file") {
        Err(Error::Generic(m)) => assert_eq!(m, "Could not chmod file with error: no such file"),
        _ => panic!("expected a failure"),
    }
    match tool_output(Tool::Stat, false, "", "x") {
        Err(Error::Generic(m)) => assert_eq!(m, "Could not stat file with error: x"),
        _ => panic!("expected a failure"),
    }
}

#[test]
fn df_pattern() {
    assert_eq!(
        fs_pattern(&default_fs_fields()),
        "(?m)^(?P<fs>.+?)[\\s]*(?P<size>[0-9]+)[\\s]*(?P<used>[0-9]+)[\\s]*(?P<available>[0-9]+)[\\s]*(?P<capacity>[0-9]{1,3})%[\\s]*(?P<mount>/.*)[\\s]*$"
    );
    assert_eq!(fs_pattern(&vec![FsFieldOrder::Blank]), "(?m)^[^\\s]+[\\s]*$");
    assert_eq!(fs_pattern(&vec![]), "(?m)^$");
}

#[test]
fn df_line_fields() {
    let m = fs_mount("/dev/sda1", "/", "41152736", "1234", "39918502", "3").unwrap();
    assert_eq!(m.filesystem, "/dev/sda1");
    assert_eq!(m.size, 41152736);
    assert_eq!(m.used, 1234);
    assert_eq!(m.available, 39918502);
    assert_eq!(m.capacity, 3);
    match fs_mount("a", "/", "1", "x", "2", "3") {
        Err(Error::ParseInt(t)) => assert_eq!(t, "x"),
        _ => panic!("expected a parse error"),
    }
    assert!(matches!(fs_mount("a", "/", "18446744073709551616", "1", "2", "3"), Err(Error::ParseInt(_))));
    assert_eq!(fs_mount("a", "/", "18446744073709551615", "1", "2", "100").unwrap().size, u64::MAX);
}

#[test]
fn interface_entries() {
    let mut n = Netif::named("eth0");
    apply_netif_entry(&mut n, "ether", "00:11:22:33:44:55", None, None).unwrap();
    assert_eq!(n.mac.as_deref(), Some("00:11:22:33:44:55"));
    let v4 = NetifIPv4 { address: "10.0.0.2".to_string(), netmask: "0xffffff00".to_string() };
    apply_netif_entry(&mut n, "inet", "10.0.0.2 netmask 0xffffff00", Some(v4), None).unwrap();
    assert_eq!(n.inet.as_ref().unwrap().address, "10.0.0.2");
    let v6 = Ipv6Fields { address: "fe80::1".to_string(), prefix: "64".to_string(), scope: Some("0x2".to_string()) };
    apply_netif_entry(&mut n, "inet6", "fe80::1%eth0 prefixlen 64 scopeid 0x2", None, Some(v6)).unwrap();
    assert_eq!(n.inet6.as_ref().unwrap().prefixlen, 64);
    assert_eq!(n.inet6.as_ref().unwrap().scopeid.as_deref(), Some("0x2"));
    let bad = Ipv6Fields { address: "fe80::1".to_string(), prefix: "256".to_string(), scope: None };
    assert!(matches!(apply_netif_entry(&mut n, "inet6", "", None, Some(bad)), Err(Error::ParseInt(_))));
    apply_netif_entry(&mut n, "status", "active", None, None).unwrap();
    assert_eq!(n.status, Some(NetifStatus::Active));
    assert!(matches!(apply_netif_entry(&mut n, "status", "dormant", None, None), Err(Error::Generic(_))));
    assert_eq!(n.status, Some(NetifStatus::Active));
    apply_netif_entry(&mut n, "mtu", "1500", None, None).unwrap();
    assert_eq!(n.interface, "eth0");
}
