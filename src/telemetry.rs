//! Telemetry: one snapshot of a host's CPU, file systems, hostname, memory,
//! network interfaces and operating system, and its form as a fact document.

use vstd::prelude::*;
use vstd::string::StringExecFns;

verus! {

pub struct Cpu {
    pub vendor: String,
    pub brand_string: String,
    pub cores: u32,
}

/// A mounted file system. Sizes are in kibibytes; `capacity` is the share of
/// `size` in use, in percent.
pub struct FsMount {
    pub filesystem: String,
    pub mountpoint: String,
    pub size: u64,
    pub used: u64,
    pub available: u64,
    pub capacity: u32,
}

pub struct Netif {
    pub interface: String,
    pub mac: Option<String>,
    pub inet: Option<NetifIPv4>,
    pub inet6: Option<NetifIPv6>,
    pub status: Option<NetifStatus>,
}

#[derive(Debug, Clone, Copy, PartialEq, Eq)]
pub enum NetifStatus {
    Active,
    Inactive,
}

pub struct NetifIPv4 {
    pub address: String,
    pub netmask: String,
}

pub struct NetifIPv6 {
    pub address: String,
    pub prefixlen: u8,
    pub scopeid: Option<String>,
}

pub struct Os {
    pub arch: String,
    pub family: String,
    pub platform: String,
    pub version_str: String,
    pub version_maj: u32,
    pub version_min: u32,
    pub version_patch: u32,
}

pub struct Telemetry {
    pub cpu: Cpu,
    pub fs: Vec<FsMount>,
    pub hostname: String,
    pub memory: u64,
    pub net: Vec<Netif>,
    pub os: Os,
}

/// A value of a fact document: a tree of texts, numbers, lists and objects
/// whose keys keep the order in which they were written.
pub enum FactValue {
    Null,
    Text(String),
    Number(u64),
    /// A share, in percent.
    Percent(u32),
    List(Vec<FactValue>),
    Object(Vec<(String, FactValue)>),
}

impl Cpu {
    pub fn new(vendor: &str, brand_string: &str, cores: u32) -> (r: Cpu)
        ensures
            r.vendor@ == vendor@,
            r.brand_string@ == brand_string@,
            r.cores == cores,
    {
        Cpu { vendor: String::from_str(vendor), brand_string: String::from_str(brand_string), cores }
    }
}

impl Os {
    pub fn new(
        arch: &str,
        family: &str,
        platform: &str,
        version_str: &str,
        version_maj: u32,
        version_min: u32,
        version_patch: u32,
    ) -> (r: Os)
        ensures
            r.arch@ == arch@,
            r.family@ == family@,
            r.platform@ == platform@,
            r.version_str@ == version_str@,
            r.version_maj == version_maj,
            r.version_min == version_min,
            r.version_patch == version_patch,
    {
        Os {
            arch: String::from_str(arch),
            family: String::from_str(family),
            platform: String::from_str(platform),
            version_str: String::from_str(version_str),
            version_maj,
            version_min,
            version_patch,
        }
    }
}

pub open spec fn is_text(v: FactValue, s: Seq<char>) -> bool {
    v matches FactValue::Text(x) && x@ == s
}

pub open spec fn is_number(v: FactValue, n: int) -> bool {
    v matches FactValue::Number(x) && x == n
}

pub open spec fn is_text_or_null(v: FactValue, o: Option<String>) -> bool {
    match o {
        Some(s) => is_text(v, s@),
        None => v is Null,
    }
}

/// Entry `i` of `e` has key `k`.
pub open spec fn key_is(e: Seq<(String, FactValue)>, i: int, k: Seq<char>) -> bool {
    e[i].0@ == k
}

pub open spec fn cpu_fact(v: FactValue, c: Cpu) -> bool {
    v matches FactValue::Object(e) && e@.len() == 3 && key_is(e@, 0, "vendor"@) && is_text(
        e@[0].1,
        c.vendor@,
    ) && key_is(e@, 1, "brand_string"@) && is_text(e@[1].1, c.brand_string@) && key_is(
        e@,
        2,
        "cores"@,
    ) && is_number(e@[2].1, c.cores as int)
}

pub open spec fn fs_fact(v: FactValue, m: FsMount) -> bool {
    v matches FactValue::Object(e) && e@.len() == 6 && key_is(e@, 0, "filesystem"@) && is_text(
        e@[0].1,
        m.filesystem@,
    ) && key_is(e@, 1, "mountpoint"@) && is_text(e@[1].1, m.mountpoint@) && key_is(
        e@,
        2,
        "size"@,
    ) && is_number(e@[2].1, m.size as int) && key_is(e@, 3, "used"@) && is_number(
        e@[3].1,
        m.used as int,
    ) && key_is(e@, 4, "available"@) && is_number(e@[4].1, m.available as int) && key_is(
        e@,
        5,
        "capacity"@,
    ) && e@[5].1 == FactValue::Percent(m.capacity)
}

pub open spec fn ipv4_fact(v: FactValue, a: NetifIPv4) -> bool {
    v matches FactValue::Object(e) && e@.len() == 2 && key_is(e@, 0, "address"@) && is_text(
        e@[0].1,
        a.address@,
    ) && key_is(e@, 1, "netmask"@) && is_text(e@[1].1, a.netmask@)
}

pub open spec fn ipv6_fact(v: FactValue, a: NetifIPv6) -> bool {
    v matches FactValue::Object(e) && e@.len() == 3 && key_is(e@, 0, "address"@) && is_text(
        e@[0].1,
        a.address@,
    ) && key_is(e@, 1, "prefixlen"@) && is_number(e@[1].1, a.prefixlen as int) && key_is(
        e@,
        2,
        "scopeid"@,
    ) && is_text_or_null(e@[2].1, a.scopeid)
}

pub open spec fn status_text(s: NetifStatus) -> Seq<char> {
    match s {
        NetifStatus::Active => "Active"@,
        NetifStatus::Inactive => "Inactive"@,
    }
}

pub open spec fn present(o: bool) -> int {
    if o { 1 } else { 0 }
}

/// An interface's object: its name and MAC address (null when unknown), then
/// its IPv4 address, IPv6 address and status, each only when known.
pub open spec fn netif_fact(v: FactValue, n: Netif) -> bool {
    let i4: int = 2;
    let i6 = i4 + present(n.inet is Some);
    let is = i6 + present(n.inet6 is Some);
    let len = is + present(n.status is Some);
    v matches FactValue::Object(e) && e@.len() == len && key_is(e@, 0, "interface"@) && is_text(
        e@[0].1,
        n.interface@,
    ) && key_is(e@, 1, "mac"@) && is_text_or_null(e@[1].1, n.mac) && (n.inet matches Some(a)
        ==> key_is(e@, i4, "inet"@) && ipv4_fact(e@[i4].1, a)) && (n.inet6 matches Some(a)
        ==> key_is(e@, i6, "inet6"@) && ipv6_fact(e@[i6].1, a)) && (n.status matches Some(s)
        ==> key_is(e@, is, "status"@) && is_text(e@[is].1, status_text(s)))
}

pub open spec fn os_fact(v: FactValue, o: Os) -> bool {
    v matches FactValue::Object(e) && e@.len() == 7 && key_is(e@, 0, "arch"@) && is_text(
        e@[0].1,
        o.arch@,
    ) && key_is(e@, 1, "family"@) && is_text(e@[1].1, o.family@) && key_is(e@, 2, "platform"@)
        && is_text(e@[2].1, o.platform@) && key_is(e@, 3, "version_str"@) && is_text(
        e@[3].1,
        o.version_str@,
    ) && key_is(e@, 4, "version_maj"@) && is_number(e@[4].1, o.version_maj as int) && key_is(
        e@,
        5,
        "version_min"@,
    ) && is_number(e@[5].1, o.version_min as int) && key_is(e@, 6, "version_patch"@)
        && is_number(e@[6].1, o.version_patch as int)
}

/// The fact document of a telemetry snapshot: an object with the keys `cpu`,
/// `fs`, `hostname`, `memory`, `net` and `os`, in that order.
pub open spec fn telemetry_fact(v: FactValue, t: Telemetry) -> bool {
    v matches FactValue::Object(e) && e@.len() == 6 && key_is(e@, 0, "cpu"@) && cpu_fact(
        e@[0].1,
        t.cpu,
    ) && key_is(e@, 1, "fs"@) && (e@[1].1 matches FactValue::List(l) && l@.len() == t.fs@.len()
        && forall|i: int| 0 <= i < l@.len() ==> fs_fact(#[trigger] l@[i], t.fs@[i])) && key_is(
        e@,
        2,
        "hostname"@,
    ) && is_text(e@[2].1, t.hostname@) && key_is(e@, 3, "memory"@) && is_number(
        e@[3].1,
        t.memory as int,
    ) && key_is(e@, 4, "net"@) && (e@[4].1 matches FactValue::List(l) && l@.len()
        == t.net@.len() && forall|i: int| 0 <= i < l@.len() ==> netif_fact(#[trigger] l@[i], t.net@[i]))
        && key_is(e@, 5, "os"@) && os_fact(e@[5].1, t.os)
}

fn text(s: &String) -> (r: FactValue)
    ensures
        is_text(r, s@),
{
    FactValue::Text(s.clone())
}

fn text_or_null(o: &Option<String>) -> (r: FactValue)
    ensures
        is_text_or_null(r, *o),
{
    match o {
        Some(s) => FactValue::Text(s.clone()),
        None => FactValue::Null,
    }
}

fn entry(key: &str, value: FactValue) -> (r: (String, FactValue))
    ensures
        r.0@ == key@,
        r.1 == value,
{
    (String::from_str(key), value)
}

fn cpu_value(c: &Cpu) -> (r: FactValue)
    ensures
        cpu_fact(r, *c),
{
    let e = vec![
        entry("vendor", text(&c.vendor)),
        entry("brand_string", text(&c.brand_string)),
        entry("cores", FactValue::Number(c.cores as u64)),
    ];
    FactValue::Object(e)
}

fn fs_value(m: &FsMount) -> (r: FactValue)
    ensures
        fs_fact(r, *m),
{
    let e = vec![
        entry("filesystem", text(&m.filesystem)),
        entry("mountpoint", text(&m.mountpoint)),
        entry("size", FactValue::Number(m.size)),
        entry("used", FactValue::Number(m.used)),
        entry("available", FactValue::Number(m.available)),
        entry("capacity", FactValue::Percent(m.capacity)),
    ];
    FactValue::Object(e)
}

fn netif_value(n: &Netif) -> (r: FactValue)
    ensures
        netif_fact(r, *n),
{
    let mut e = vec![entry("interface", text(&n.interface)), entry("mac", text_or_null(&n.mac))];
    if let Some(a) = &n.inet {
        let inner = vec![entry("address", text(&a.address)), entry("netmask", text(&a.netmask))];
        e.push(entry("inet", FactValue::Object(inner)));
    }
    let ghost after4 = e@;
    if let Some(a) = &n.inet6 {
        let inner = vec![
            entry("address", text(&a.address)),
            entry("prefixlen", FactValue::Number(a.prefixlen as u64)),
            entry("scopeid", text_or_null(&a.scopeid)),
        ];
        e.push(entry("inet6", FactValue::Object(inner)));
    }
    let ghost after6 = e@;
    if let Some(s) = &n.status {
        let word = match s {
            NetifStatus::Active => String::from_str("Active"),
            NetifStatus::Inactive => String::from_str("Inactive"),
        };
        e.push(entry("status", FactValue::Text(word)));
    }
    proof {
        if n.inet is Some {
            assert(e@[2] == after4[2]);
        }
        if n.inet6 is Some {
            assert(e@[after6.len() - 1] == after6[after6.len() - 1]);
        }
    }
    FactValue::Object(e)
}

fn os_value(o: &Os) -> (r: FactValue)
    ensures
        os_fact(r, *o),
{
    let e = vec![
        entry("arch", text(&o.arch)),
        entry("family", text(&o.family)),
        entry("platform", text(&o.platform)),
        entry("version_str", text(&o.version_str)),
        entry("version_maj", FactValue::Number(o.version_maj as u64)),
        entry("version_min", FactValue::Number(o.version_min as u64)),
        entry("version_patch", FactValue::Number(o.version_patch as u64)),
    ];
    FactValue::Object(e)
}

impl Telemetry {
    pub fn new(cpu: Cpu, fs: Vec<FsMount>, hostname: &str, memory: u64, net: Vec<Netif>, os: Os) -> (r:
        Telemetry)
        ensures
            r.cpu == cpu,
            r.fs == fs,
            r.hostname@ == hostname@,
            r.memory == memory,
            r.net == net,
            r.os == os,
    {
        Telemetry { cpu, fs, hostname: String::from_str(hostname), memory, net, os }
    }

    /// The snapshot as a fact document.
    pub fn into_value(self) -> (r: FactValue)
        ensures
            telemetry_fact(r, self),
    {
        let mut fs: Vec<FactValue> = Vec::new();
        let mut i: usize = 0;
        while i < self.fs.len()
            invariant
                i <= self.fs@.len(),
                fs@.len() == i,
                forall|j: int| 0 <= j < i ==> fs_fact(#[trigger] fs@[j], self.fs@[j]),
            decreases self.fs@.len() - i,
        {
            fs.push(fs_value(&self.fs[i]));
            i = i + 1;
        }
        let mut net: Vec<FactValue> = Vec::new();
        let mut i: usize = 0;
        while i < self.net.len()
            invariant
                i <= self.net@.len(),
                net@.len() == i,
                forall|j: int| 0 <= j < i ==> netif_fact(#[trigger] net@[j], self.net@[j]),
            decreases self.net@.len() - i,
        {
            net.push(netif_value(&self.net[i]));
            i = i + 1;
        }
        let e = vec![
            entry("cpu", cpu_value(&self.cpu)),
            entry("fs", FactValue::List(fs)),
            entry("hostname", text(&self.hostname)),
            entry("memory", FactValue::Number(self.memory)),
            entry("net", FactValue::List(net)),
            entry("os", os_value(&self.os)),
        ];
        FactValue::Object(e)
    }

    /// The snapshot as a fact document, namespaced under the key `_telemetry`.
    pub fn init(self) -> (r: FactValue)
        ensures
            r matches FactValue::Object(e) && e@.len() == 1 && key_is(e@, 0, "_telemetry"@)
                && telemetry_fact(e@[0].1, self),
    {
        let inner = self.into_value();
        FactValue::Object(vec![entry("_telemetry", inner)])
    }
}

} // verus!
