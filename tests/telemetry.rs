use inapi::telemetry::{Cpu, FactValue, FsMount, Netif, NetifIPv4, NetifIPv6, NetifStatus, Os, Telemetry};
use inapi::Host;

fn keys(v: &FactValue) -> Vec<String> {
    match v {
        FactValue::Object(e) => e.iter().map(|(k, _)| k.clone()).collect(),
        _ => panic!("expected an object"),
    }
}

fn get<'a>(v: &'a FactValue, key: &str) -> &'a FactValue {
    match v {
        FactValue::Object(e) => &e.iter().find(|(k, _)| k == key).unwrap().1,
        _ => panic!("expected an object"),
    }
}

fn text(v: &FactValue) -> &str {
    match v {
        FactValue::Text(s) => s,
        _ => panic!("expected text"),
    }
}

fn sample() -> Telemetry {
    Telemetry::new(
        Cpu::new("GenuineIntel", "Intel(R) Xeon(R)", 4),
        vec![FsMount {
            filesystem: "/dev/sda1".to_string(),
            mountpoint: "/".to_string(),
            size: 1000,
            used: 250,
            available: 750,
            capacity: 25,
        }],
        "host.example.com",
        8_000_000,
        vec![
            Netif {
                interface: "eth0".to_string(),
                mac: Some("00:11:22:33:44:55".to_string()),
                inet: Some(NetifIPv4 { address: "10.0.0.2".to_string(), netmask: "255.255.255.0".to_string() }),
                inet6: Some(NetifIPv6 { address: "fe80::1".to_string(), prefixlen: 64, scopeid: None }),
                status: Some(NetifStatus::Active),
            },
            Netif { interface: "lo".to_string(), mac: None, inet: None, inet6: None, status: Some(NetifStatus::Inactive) },
        ],
        Os::new("x86_64", "redhat", "centos", "7.2.1511", 7, 2, 1511),
    )
}

#[test]
fn test_telemetry_init() {
    let host: Result<Host<()>, _> = Host::local("linux", "redhat");
    assert!(host.is_ok());
    let v = sample().init();
    assert_eq!(keys(&v), vec!["_telemetry"]);
    assert_eq!(keys(get(&v, "_telemetry")), vec!["cpu", "fs", "hostname", "memory", "net", "os"]);
}

#[test]
fn telemetry_document_fields() {
    let v = sample().into_value();
    assert_eq!(text(get(get(&v, "cpu"), "vendor")), "GenuineIntel");
    assert!(matches!(get(get(&v, "cpu"), "cores"), FactValue::Number(4)));
    assert_eq!(text(get(&v, "hostname")), "host.example.com");
    assert!(matches!(get(&v, "memory"), FactValue::Number(8_000_000)));
    match get(&v, "fs") {
        FactValue::List(l) => {
            assert_eq!(l.len(), 1);
            assert_eq!(keys(&l[0]), vec!["filesystem", "mountpoint", "size", "used", "available", "capacity"]);
            assert!(matches!(get(&l[0], "capacity"), FactValue::Percent(25)));
        }
        _ => panic!("expected a list"),
    }
    match get(&v, "net") {
        FactValue::List(l) => {
            assert_eq!(keys(&l[0]), vec!["interface", "mac", "inet", "inet6", "status"]);
            assert_eq!(text(get(&l[0], "status")), "Active");
            assert!(matches!(get(get(&l[0], "inet6"), "scopeid"), FactValue::Null));
            assert!(matches!(get(get(&l[0], "inet6"), "prefixlen"), FactValue::Number(64)));
            assert_eq!(keys(&l[1]), vec!["interface", "mac", "status"]);
            assert!(matches!(get(&l[1], "mac"), FactValue::Null));
            assert_eq!(text(get(&l[1], "status")), "Inactive");
        }
        _ => panic!("expected a list"),
    }
    assert_eq!(keys(get(&v, "os")), vec!["arch", "family", "platform", "version_str", "version_maj", "version_min", "version_patch"]);
    assert_eq!(text(get(get(&v, "os"), "version_str")), "7.2.1511");
}
