use inapi::posix::{default_fs_fields, parse_fs, parse_nettools_net, FsFieldOrder};
use inapi::telemetry::NetifStatus;
use inapi::pattern::Pattern;
use inapi::text::split_lines;
use inapi::Error;

const DF: &str = "Filesystem     1024-blocks     Used Available Capacity Mounted on\n/dev/sda1         41152736 12345678  26710634      32% /\ntmpfs               817812        0    817812       0% /dev/shm\n";

#[test]
fn lines_of_text() {
    assert_eq!(split_lines("a\nb\r\n\nc"), vec!["a", "b", "", "c"]);
    assert_eq!(split_lines("a\n"), vec!["a"]);
    assert_eq!(split_lines(""), Vec::<String>::new());
    assert_eq!(split_lines("\n"), vec![""]);
    assert_eq!(split_lines("x\r"), vec!["x\r"]);
}

#[test]
fn df_listing() {
    let mounts = parse_fs(DF, &default_fs_fields()).unwrap();
    assert_eq!(mounts.len(), 2);
    assert_eq!(mounts[0].filesystem, "/dev/sda1");
    assert_eq!(mounts[0].mountpoint, "/");
    assert_eq!(mounts[0].size, 41152736);
    assert_eq!(mounts[0].used, 12345678);
    assert_eq!(mounts[0].available, 26710634);
    assert_eq!(mounts[0].capacity, 32);
    assert_eq!(mounts[1].mountpoint, "/dev/shm");
    assert_eq!(mounts[1].capacity, 0);
    let blank_first = vec![FsFieldOrder::Blank, FsFieldOrder::Filesystem];
    assert!(matches!(parse_fs(DF, &blank_first), Ok(_) | Err(Error::ParseInt(_))));
    assert_eq!(parse_fs("", &default_fs_fields()).unwrap().len(), 0);
}

#[test]
fn patterns_compile_or_fail() {
    assert!(Pattern::new("(a").is_err());
    assert!(matches!(Pattern::new("(a"), Err(Error::Regex(_))));
    let p = Pattern::new("(?P<x>[0-9]+)-(?P<y>[a-z]+)?").unwrap();
    let g = p.captures("ab 12- cd", &vec!["x", "y", "z"]).unwrap();
    assert_eq!(g, vec![Some("12".to_string()), None, None]);
    assert!(p.captures("none here", &vec!["x"]).is_none());
    let all = p.captures_all("1-a 2- 3-c", &vec!["x", "y"]);
    assert_eq!(all.len(), 3);
    assert_eq!(all[2], vec![Some("3".to_string()), Some("c".to_string())]);
}

const IFCONFIG: &str = "em0: flags=8843<UP,BROADCAST,RUNNING> mtu 1500\n\tether 00:11:22:33:44:55\n\tinet 10.0.0.2 netmask 0xffffff00 broadcast 10.0.0.255\n\tinet6 fe80::1%em0 prefixlen 64 scopeid 0x1\n\tstatus: active\nlo0: flags=8049<UP,LOOPBACK,RUNNING> mtu 16384\n\tinet 127.0.0.1 netmask 0xff000000\n";

const IF_PATTERN: &str = r"(?m)^(?P<if>[a-z]+[0-9]+): (?P<content>.+(?:\n\t.+)*)";
const KV_PATTERN: &str = r"^\s*(?P<key>[a-zA-Z0-9]+):?\s+(?P<value>.+)$";
const V4_PATTERN: &str = r"^(?P<ip>[0-9.]+) netmask (?P<mask>0x[0-9a-f]+)";
const V6_PATTERN: &str = r"^(?P<ip>[0-9a-f:]+)(?:%[a-z0-9]+)? prefixlen (?P<prefix>[0-9]+)(?: scopeid (?P<scope>0x[0-9a-f]+))?";

#[test]
fn ifconfig_listing() {
    let net = parse_nettools_net(IFCONFIG, IF_PATTERN, KV_PATTERN, V4_PATTERN, V6_PATTERN).unwrap();
    assert_eq!(net.len(), 2);
    assert_eq!(net[0].interface, "em0");
    assert_eq!(net[0].mac.as_deref(), Some("00:11:22:33:44:55"));
    assert_eq!(net[0].inet.as_ref().unwrap().address, "10.0.0.2");
    assert_eq!(net[0].inet.as_ref().unwrap().netmask, "0xffffff00");
    let v6 = net[0].inet6.as_ref().unwrap();
    assert_eq!(v6.address, "fe80::1");
    assert_eq!(v6.prefixlen, 64);
    assert_eq!(v6.scopeid.as_deref(), Some("0x1"));
    assert_eq!(net[0].status, Some(NetifStatus::Active));
    assert_eq!(net[1].interface, "lo0");
    assert!(net[1].mac.is_none());
    assert_eq!(net[1].inet.as_ref().unwrap().address, "127.0.0.1");
    assert!(net[1].status.is_none());
    assert!(matches!(parse_nettools_net(IFCONFIG, "(", KV_PATTERN, V4_PATTERN, V6_PATTERN), Err(Error::Regex(_))));
    let bad = "em0: x\n\tstatus: dormant\n";
    assert!(matches!(parse_nettools_net(bad, IF_PATTERN, KV_PATTERN, V4_PATTERN, V6_PATTERN), Err(Error::Generic(_))));
}
