//! The POSIX-wide default layer: the arguments handed to portable tools and
//! the reading of what they print.

use vstd::prelude::*;
use vstd::string::StringExecFns;
use crate::codec::{same_text, texts};
use crate::error::Error;
use crate::telemetry::{FsMount, Netif, NetifIPv4, NetifIPv6, NetifStatus};
use crate::pattern::{opt_text, regex_compiles, regex_finds, regex_group, regex_groups_each, Pattern};
use crate::text::{lines_spec, split_lines, lemma_parse_unsigned_range, nat_digits, parse_unsigned, parse_unsigned_spec, trim, trim_end_spec, trim_start_spec, unsigned_text};

verus! {

/// The tools whose failure is reported with their standard error output.
#[derive(Debug, Clone, Copy, PartialEq, Eq)]
pub enum Tool {
    Chown,
    Chmod,
    Stat,
    Hostname,
}

pub open spec fn failure_prefix(t: Tool) -> Seq<char> {
    match t {
        Tool::Chown => "Could not chown file with error: "@,
        Tool::Chmod => "Could not chmod file with error: "@,
        Tool::Stat => "Could not stat file with error: "@,
        Tool::Hostname => "Could not determine hostname with error: "@,
    }
}

impl Tool {
    /// The tool's name, resolved to a path on the search path before it runs.
    pub fn name(&self) -> (r: &'static str)
        ensures
            r@ == match *self {
                Tool::Chown => "chown"@,
                Tool::Chmod => "chmod"@,
                Tool::Stat => "stat"@,
                Tool::Hostname => "hostname"@,
            },
    {
        match self {
            Tool::Chown => "chown",
            Tool::Chmod => "chmod",
            Tool::Stat => "stat",
            Tool::Hostname => "hostname",
        }
    }

    fn failure_prefix(&self) -> (r: &'static str)
        ensures
            r@ == failure_prefix(*self),
    {
        match self {
            Tool::Chown => "Could not chown file with error: ",
            Tool::Chmod => "Could not chmod file with error: ",
            Tool::Stat => "Could not stat file with error: ",
            Tool::Hostname => "Could not determine hostname with error: ",
        }
    }
}

/// The arguments of `chown` that give `path` to `user` and `group`.
pub fn set_owner_args(path: &str, user: &str, group: &str) -> (r: Vec<String>)
    ensures
        texts(r@) == seq![user@ + ":"@ + group@, path@],
{
    let r = vec![String::from_str(user).concat(":").concat(group), String::from_str(path)];
    assert(texts(r@) =~= seq![user@ + ":"@ + group@, path@]);
    r
}

/// The arguments of `chmod` that set the mode of `path`, written in decimal.
pub fn set_mode_args(path: &str, mode: u16) -> (r: Vec<String>)
    ensures
        texts(r@) == seq![nat_digits(mode as nat), path@],
{
    let r = vec![unsigned_text(mode as u32), String::from_str(path)];
    assert(texts(r@) =~= seq![nat_digits(mode as nat), path@]);
    r
}

/// The arguments of `stat`: the given ones, then `path`.
pub fn stat_args(path: &str, args: &Vec<String>) -> (r: Vec<String>)
    ensures
        texts(r@) == texts(args@).push(path@),
{
    let mut r = args.clone();
    assert(r@ =~= args@);
    r.push(String::from_str(path));
    assert(texts(r@) =~= texts(args@).push(path@));
    r
}

/// What a tool's run comes to: its output without surrounding white space
/// when it succeeded, else an error that quotes its error output.
pub fn tool_output(tool: Tool, success: bool, stdout: &str, stderr: &str) -> (r: Result<String, Error>)
    ensures
        success ==> (r matches Ok(o) && o@ == trim_start_spec(trim_end_spec(stdout@))),
        !success ==> (r matches Err(Error::Generic(m)) && m@ == failure_prefix(tool) + stderr@),
{
    if success {
        Ok(trim(stdout))
    } else {
        Err(Error::Generic(String::from_str(tool.failure_prefix()).concat(stderr)))
    }
}

/// The columns of a line of `df -Pk` output, in the order a platform prints them.
#[derive(Debug, Clone, Copy, PartialEq, Eq)]
pub enum FsFieldOrder {
    Filesystem,
    Size,
    Used,
    Available,
    Capacity,
    Mount,
    Blank,
}

/// The pattern that matches one column.
pub open spec fn field_pattern(f: FsFieldOrder) -> Seq<char> {
    match f {
        FsFieldOrder::Filesystem => "(?P<fs>.+?)"@,
        FsFieldOrder::Size => "(?P<size>[0-9]+)"@,
        FsFieldOrder::Used => "(?P<used>[0-9]+)"@,
        FsFieldOrder::Available => "(?P<available>[0-9]+)"@,
        FsFieldOrder::Capacity => "(?P<capacity>[0-9]{1,3})%"@,
        FsFieldOrder::Mount => "(?P<mount>/.*)"@,
        FsFieldOrder::Blank => "[^\\s]+"@,
    }
}

/// The patterns of the columns, each followed by optional white space.
pub open spec fn columns_pattern(fields: Seq<FsFieldOrder>) -> Seq<char>
    decreases fields.len(),
{
    if fields.len() == 0 {
        Seq::empty()
    } else {
        columns_pattern(fields.drop_last()) + field_pattern(fields.last()) + "[\\s]*"@
    }
}

fn field_pattern_str(f: FsFieldOrder) -> (r: &'static str)
    ensures
        r@ == field_pattern(f),
{
    match f {
        FsFieldOrder::Filesystem => "(?P<fs>.+?)",
        FsFieldOrder::Size => "(?P<size>[0-9]+)",
        FsFieldOrder::Used => "(?P<used>[0-9]+)",
        FsFieldOrder::Available => "(?P<available>[0-9]+)",
        FsFieldOrder::Capacity => "(?P<capacity>[0-9]{1,3})%",
        FsFieldOrder::Mount => "(?P<mount>/.*)",
        FsFieldOrder::Blank => "[^\\s]+",
    }
}

/// The columns that the POSIX default prints.
pub fn default_fs_fields() -> (r: Vec<FsFieldOrder>)
    ensures
        r@ == seq![
            FsFieldOrder::Filesystem,
            FsFieldOrder::Size,
            FsFieldOrder::Used,
            FsFieldOrder::Available,
            FsFieldOrder::Capacity,
            FsFieldOrder::Mount,
        ],
{
    let r = vec![
        FsFieldOrder::Filesystem,
        FsFieldOrder::Size,
        FsFieldOrder::Used,
        FsFieldOrder::Available,
        FsFieldOrder::Capacity,
        FsFieldOrder::Mount,
    ];
    assert(r@ =~= seq![
        FsFieldOrder::Filesystem,
        FsFieldOrder::Size,
        FsFieldOrder::Used,
        FsFieldOrder::Available,
        FsFieldOrder::Capacity,
        FsFieldOrder::Mount,
    ]);
    r
}

/// The multi-line pattern that matches a whole line with the given columns.
pub open spec fn fs_pattern_text(fields: Seq<FsFieldOrder>) -> Seq<char> {
    "(?m)^"@ + columns_pattern(fields) + "$"@
}

/// The multi-line pattern that matches a whole line with the given columns.
pub fn fs_pattern(fields: &Vec<FsFieldOrder>) -> (r: String)
    ensures
        r@ == fs_pattern_text(fields@),
{
    let mut cols = String::new();
    let mut i: usize = 0;
    while i < fields.len()
        invariant
            i <= fields@.len(),
            cols@ == columns_pattern(fields@.subrange(0, i as int)),
        decreases fields@.len() - i,
    {
        assert(fields@.subrange(0, i + 1).drop_last() =~= fields@.subrange(0, i as int));
        cols = cols.concat(field_pattern_str(fields[i])).concat("[\\s]*");
        i = i + 1;
    }
    assert(fields@.subrange(0, fields@.len() as int) =~= fields@);
    String::from_str("(?m)^").concat(cols.as_str()).concat("$")
}

/// The four numbers of a mount all read: the sizes as 64-bit and the
/// capacity as 32-bit unsigned decimals.
pub open spec fn numbers_read(size: Seq<char>, used: Seq<char>, available: Seq<char>, capacity: Seq<char>) -> bool {
    &&& parse_unsigned_spec(size, u64::MAX as int) is Some
    &&& parse_unsigned_spec(used, u64::MAX as int) is Some
    &&& parse_unsigned_spec(available, u64::MAX as int) is Some
    &&& parse_unsigned_spec(capacity, u32::MAX as int) is Some
}

/// `m` is the mount that these texts describe.
pub open spec fn mount_is(
    m: FsMount,
    filesystem: Seq<char>,
    mountpoint: Seq<char>,
    size: Seq<char>,
    used: Seq<char>,
    available: Seq<char>,
    capacity: Seq<char>,
) -> bool {
    &&& m.filesystem@ == filesystem
    &&& m.mountpoint@ == mountpoint
    &&& parse_unsigned_spec(size, u64::MAX as int) == Some(m.size as int)
    &&& parse_unsigned_spec(used, u64::MAX as int) == Some(m.used as int)
    &&& parse_unsigned_spec(available, u64::MAX as int) == Some(m.available as int)
    &&& parse_unsigned_spec(capacity, u32::MAX as int) == Some(m.capacity as int)
}

/// The mount that one matched line describes. Each number is read in turn;
/// the first that is not a decimal in range is the error.
pub fn fs_mount(
    filesystem: &str,
    mountpoint: &str,
    size: &str,
    used: &str,
    available: &str,
    capacity: &str,
) -> (r: Result<FsMount, Error>)
    ensures
        ({
            let s = parse_unsigned_spec(size@, u64::MAX as int);
            let u = parse_unsigned_spec(used@, u64::MAX as int);
            let a = parse_unsigned_spec(available@, u64::MAX as int);
            let c = parse_unsigned_spec(capacity@, u32::MAX as int);
            if s is None {
                r matches Err(Error::ParseInt(t)) && t@ == size@
            } else if u is None {
                r matches Err(Error::ParseInt(t)) && t@ == used@
            } else if a is None {
                r matches Err(Error::ParseInt(t)) && t@ == available@
            } else if c is None {
                r matches Err(Error::ParseInt(t)) && t@ == capacity@
            } else {
                r matches Ok(m) && m.filesystem@ == filesystem@ && m.mountpoint@ == mountpoint@
                    && m.size == s.unwrap() && m.used == u.unwrap() && m.available == a.unwrap()
                    && m.capacity == c.unwrap()
            }
        }),
        r is Ok <==> numbers_read(size@, used@, available@, capacity@),
        r matches Ok(m) ==> mount_is(m, filesystem@, mountpoint@, size@, used@, available@, capacity@),
{
    proof {
        lemma_parse_unsigned_range(size@, u64::MAX as int);
        lemma_parse_unsigned_range(used@, u64::MAX as int);
        lemma_parse_unsigned_range(available@, u64::MAX as int);
        lemma_parse_unsigned_range(capacity@, u32::MAX as int);
    }
    let size_v = match parse_unsigned(size, u64::MAX) {
        Some(v) => v,
        None => {
            return Err(Error::ParseInt(String::from_str(size)));
        },
    };
    let used_v = match parse_unsigned(used, u64::MAX) {
        Some(v) => v,
        None => {
            return Err(Error::ParseInt(String::from_str(used)));
        },
    };
    let available_v = match parse_unsigned(available, u64::MAX) {
        Some(v) => v,
        None => {
            return Err(Error::ParseInt(String::from_str(available)));
        },
    };
    let capacity_v = match parse_unsigned(capacity, u32::MAX as u64) {
        Some(v) => v,
        None => {
            return Err(Error::ParseInt(String::from_str(capacity)));
        },
    };
    Ok(
        FsMount {
            filesystem: String::from_str(filesystem),
            mountpoint: String::from_str(mountpoint),
            size: size_v,
            used: used_v,
            available: available_v,
            capacity: capacity_v as u32,
        },
    )
}

/// The text of a named group of the first match of `pattern` in `line`,
/// empty when the group took no part.
pub open spec fn group_text(pattern: Seq<char>, line: Seq<char>, group: Seq<char>) -> Seq<char> {
    match regex_group(pattern, line, group) {
        Some(t) => t,
        None => Seq::empty(),
    }
}

/// The numbers of the line that `pattern` matched all read.
pub open spec fn line_numbers_read(pattern: Seq<char>, line: Seq<char>) -> bool {
    numbers_read(
        group_text(pattern, line, "size"@),
        group_text(pattern, line, "used"@),
        group_text(pattern, line, "available"@),
        group_text(pattern, line, "capacity"@),
    )
}

/// `m` is the mount that the line `pattern` matched describes.
pub open spec fn mount_of_line(m: FsMount, pattern: Seq<char>, line: Seq<char>) -> bool {
    mount_is(
        m,
        group_text(pattern, line, "fs"@),
        group_text(pattern, line, "mount"@),
        group_text(pattern, line, "size"@),
        group_text(pattern, line, "used"@),
        group_text(pattern, line, "available"@),
        group_text(pattern, line, "capacity"@),
    )
}

/// The lines that `pattern` matches, in order.
pub open spec fn matching_lines(pattern: Seq<char>, lines: Seq<Seq<char>>) -> Seq<Seq<char>>
    decreases lines.len(),
{
    if lines.len() == 0 {
        Seq::empty()
    } else {
        let m = matching_lines(pattern, lines.drop_last());
        if regex_finds(pattern, lines.last()) {
            m.push(lines.last())
        } else {
            m
        }
    }
}

/// What reading `lines` with pattern `p` comes to: a pattern that does not
/// compile is a `Regex` error; else the mounts of the matching lines, in
/// order, or a `ParseInt` error when a matching line has a number that does
/// not read.
pub open spec fn fs_outcome(r: Result<Vec<FsMount>, Error>, p: Seq<char>, lines: Seq<Seq<char>>) -> bool {
    &&& (!regex_compiles(p) ==> r matches Err(Error::Regex(_)))
    &&& (r matches Ok(v) ==> v@.len() == matching_lines(p, lines).len() && forall|k: int|
        0 <= k < v@.len() ==> mount_of_line(#[trigger] v@[k], p, matching_lines(p, lines)[k]))
    &&& (r matches Err(e) ==> (e is Regex && !regex_compiles(p)) || (e is ParseInt && regex_compiles(p)
        && exists|j: int|
        0 <= j < lines.len() && regex_finds(p, #[trigger] lines[j]) && !line_numbers_read(p, lines[j])))
}

fn group_or_empty(o: &Option<String>) -> (r: &str)
    ensures
        r@ == match opt_text(*o) {
            Some(t) => t,
            None => Seq::<char>::empty(),
        },
{
    match o {
        Some(s) => s.as_str(),
        None => {
            proof {
                reveal_strlit("");
            }
            ""
        },
    }
}

/// The mounted file systems that the output of `df` lists: one mount for
/// each line that the pattern of `fields` matches, in order, with the columns
/// read from the pattern's named groups (a group that took no part reads as
/// empty text).
pub fn parse_fs(df_output: &str, fields: &Vec<FsFieldOrder>) -> (r: Result<Vec<FsMount>, Error>)
    ensures
        fs_outcome(r, fs_pattern_text(fields@), lines_spec(df_output@)),
{
    let source = fs_pattern(fields);
    let pattern = match Pattern::new(source.as_str()) {
        Ok(p) => p,
        Err(e) => {
            return Err(e);
        },
    };
    let ghost p = fs_pattern_text(fields@);
    let lines = split_lines(df_output);
    let ghost ls = lines_spec(df_output@);
    assert(lines@.len() == ls.len());
    let names = vec!["fs", "mount", "size", "used", "available", "capacity"];
    let mut mounts: Vec<FsMount> = Vec::new();
    let mut i: usize = 0;
    while i < lines.len()
        invariant
            i <= lines@.len(),
            lines@.map_values(|l: String| l@) == ls,
            pattern.source() == p,
            p == fs_pattern_text(fields@),
            ls == lines_spec(df_output@),
            regex_compiles(p),
            names@ == seq!["fs", "mount", "size", "used", "available", "capacity"],
            mounts@.len() == matching_lines(p, ls.subrange(0, i as int)).len(),
            forall|k: int|
                0 <= k < mounts@.len() ==> mount_of_line(
                    #[trigger] mounts@[k],
                    p,
                    matching_lines(p, ls.subrange(0, i as int))[k],
                ),
        decreases lines@.len() - i,
    {
        let ghost line = ls[i as int];
        assert(lines@[i as int]@ == line);
        assert(ls.subrange(0, i + 1).drop_last() =~= ls.subrange(0, i as int));
        assert(ls.subrange(0, i + 1).last() == line);
        match pattern.captures(lines[i].as_str(), &names) {
            None => {},
            Some(g) => {
                let m = match fs_mount(
                    group_or_empty(&g[0]),
                    group_or_empty(&g[1]),
                    group_or_empty(&g[2]),
                    group_or_empty(&g[3]),
                    group_or_empty(&g[4]),
                    group_or_empty(&g[5]),
                ) {
                    Ok(m) => m,
                    Err(e) => {
                        assert(regex_finds(p, ls[i as int]) && !line_numbers_read(p, ls[i as int]));
                        return Err(e);
                    },
                };
                let ghost before = mounts@;
                mounts.push(m);
                proof {
                    let prev = matching_lines(p, ls.subrange(0, i as int));
                    assert(matching_lines(p, ls.subrange(0, i + 1)) == prev.push(line));
                    assert forall|k: int| 0 <= k < mounts@.len() implies mount_of_line(
                        #[trigger] mounts@[k],
                        p,
                        matching_lines(p, ls.subrange(0, i + 1))[k],
                    ) by {
                        if k < before.len() {
                            assert(mounts@[k] == before[k]);
                        }
                    }
                }
            },
        }
        i = i + 1;
    }
    assert(ls.subrange(0, lines@.len() as int) =~= ls);
    Ok(mounts)
}

impl Netif {
    /// An interface known by name only.
    pub fn named(interface: &str) -> (r: Netif)
        ensures
            r.interface@ == interface@,
            r.mac is None,
            r.inet is None,
            r.inet6 is None,
            r.status is None,
    {
        Netif { interface: String::from_str(interface), mac: None, inet: None, inet6: None, status: None }
    }
}

/// The fields of an IPv6 address as the interface listing shows them: the
/// address, the prefix length as text, and the scope, if shown.
pub struct Ipv6Fields {
    pub address: String,
    pub prefix: String,
    pub scope: Option<String>,
}

/// Takes one `key value` line of an interface's listing into `netif`.
/// `value` is the line's value without surrounding white space; `ipv4` and
/// `ipv6` are what the address patterns found in it, if anything.
pub fn apply_netif_entry(
    netif: &mut Netif,
    key: &str,
    value: &str,
    ipv4: Option<NetifIPv4>,
    ipv6: Option<Ipv6Fields>,
) -> (r: Result<(), Error>)
    ensures
        (key@ == "ether"@ || key@ == "HWaddr"@) ==> (final(netif).mac matches Some(m)
            && m@ == value@ && r is Ok && final(netif).interface == old(netif).interface && final(netif).inet
            == old(netif).inet && final(netif).inet6 == old(netif).inet6 && final(netif).status
            == old(netif).status),
        key@ == "inet"@ ==> r is Ok && *final(netif) == (Netif {
            inet: if ipv4 is Some { ipv4 } else { old(netif).inet },
            ..*old(netif)
        }),
        key@ == "inet6"@ ==> match ipv6 {
            None => r is Ok && *final(netif) == *old(netif),
            Some(f) => match parse_unsigned_spec(f.prefix@, u8::MAX as int) {
                None => (r matches Err(Error::ParseInt(t)) && t@ == f.prefix@ && *final(netif)
                    == *old(netif)),
                Some(p) => r is Ok && *final(netif) == (Netif {
                    inet6: Some(NetifIPv6 { address: f.address, prefixlen: p as u8, scopeid: f.scope }),
                    ..*old(netif)
                }),
            },
        },
        key@ == "status"@ ==> if value@ == "active"@ {
            r is Ok && *final(netif) == (Netif { status: Some(NetifStatus::Active), ..*old(netif) })
        } else if value@ == "inactive"@ {
            r is Ok && *final(netif) == (Netif { status: Some(NetifStatus::Inactive), ..*old(netif) })
        } else {
            (r matches Err(Error::Generic(_)) && *final(netif) == *old(netif))
        },
        !(key@ == "ether"@ || key@ == "HWaddr"@ || key@ == "inet"@ || key@ == "inet6"@ || key@
            == "status"@) ==> r is Ok && *final(netif) == *old(netif),
{
    proof {
        reveal_strlit("ether");
        reveal_strlit("HWaddr");
        reveal_strlit("inet");
        reveal_strlit("inet6");
        reveal_strlit("status");
        assert("inet"@.len() != "ether"@.len() && "inet"@.len() != "HWaddr"@.len());
        assert("inet6"@.len() != "HWaddr"@.len() && "inet6"@.len() != "inet"@.len());
        assert("inet6"@ != "ether"@) by {
            assert("inet6"@[0] != "ether"@[0]);
        }
        assert("status"@.len() != "ether"@.len() && "status"@.len() != "inet"@.len()
            && "status"@.len() != "inet6"@.len());
        if ipv6 is Some {
            lemma_parse_unsigned_range(ipv6.unwrap().prefix@, 255);
        }
        assert("status"@ != "ether"@ && "status"@ != "inet"@ && "status"@ != "inet6"@
            && "status"@ != "HWaddr"@) by {
            assert("status"@[0] != "HWaddr"@[0]);
        }
    }
    if same_text(key, "ether") || same_text(key, "HWaddr") {
        netif.mac = Some(String::from_str(value));
        Ok(())
    } else if same_text(key, "inet") {
        if ipv4.is_some() {
            netif.inet = ipv4;
        }
        Ok(())
    } else if same_text(key, "inet6") {
        match ipv6 {
            None => Ok(()),
            Some(f) => match parse_unsigned(f.prefix.as_str(), 255) {
                None => Err(Error::ParseInt(f.prefix)),
                Some(p) => {
                    netif.inet6 = Some(
                        NetifIPv6 { address: f.address, prefixlen: p as u8, scopeid: f.scope },
                    );
                    Ok(())
                },
            },
        }
    } else if same_text(key, "status") {
        if same_text(value, "active") {
            netif.status = Some(NetifStatus::Active);
            Ok(())
        } else if same_text(value, "inactive") {
            netif.status = Some(NetifStatus::Inactive);
            Ok(())
        } else {
            Err(Error::Generic(String::from_str("Unknown interface status: ").concat(value)))
        }
    } else {
        Ok(())
    }
}

} // verus!

verus! {

/// An interface as text: its name, MAC address, IPv4 address and netmask,
/// IPv6 address, prefix length and scope, and status.
pub struct NetifView {
    pub interface: Seq<char>,
    pub mac: Option<Seq<char>>,
    pub inet: Option<(Seq<char>, Seq<char>)>,
    pub inet6: Option<(Seq<char>, int, Option<Seq<char>>)>,
    pub status: Option<NetifStatus>,
}

pub open spec fn netif_view(n: Netif) -> NetifView {
    NetifView {
        interface: n.interface@,
        mac: opt_text(n.mac),
        inet: match n.inet {
            Some(a) => Some((a.address@, a.netmask@)),
            None => None,
        },
        inet6: match n.inet6 {
            Some(a) => Some((a.address@, a.prefixlen as int, opt_text(a.scopeid))),
            None => None,
        },
        status: n.status,
    }
}

/// An interface known by name only.
pub open spec fn bare_netif(interface: Seq<char>) -> NetifView {
    NetifView { interface, mac: None, inet: None, inet6: None, status: None }
}

/// Takes one line of an interface's listing into `n`: a line that the
/// key/value pattern `kv` matches sets the field its key names, reading
/// addresses with the patterns `v4` and `v6`; `None` when the line holds a
/// prefix length that does not read or an unknown status.
pub open spec fn netif_step(n: NetifView, kv: Seq<char>, v4: Seq<char>, v6: Seq<char>, line: Seq<char>) -> Option<
    NetifView,
> {
    let key = group_text(kv, line, "key"@);
    let value = trim_start_spec(trim_end_spec(group_text(kv, line, "value"@)));
    if !regex_finds(kv, line) {
        Some(n)
    } else if key == "ether"@ || key == "HWaddr"@ {
        Some(NetifView { mac: Some(value), ..n })
    } else if key == "inet"@ {
        if regex_finds(v4, value) {
            Some(NetifView { inet: Some((group_text(v4, value, "ip"@), group_text(v4, value, "mask"@))), ..n })
        } else {
            Some(n)
        }
    } else if key == "inet6"@ {
        if regex_finds(v6, value) {
            match parse_unsigned_spec(group_text(v6, value, "prefix"@), u8::MAX as int) {
                Some(p) => Some(
                    NetifView {
                        inet6: Some((group_text(v6, value, "ip"@), p, regex_group(v6, value, "scope"@))),
                        ..n
                    },
                ),
                None => None,
            }
        } else {
            Some(n)
        }
    } else if key == "status"@ {
        if value == "active"@ {
            Some(NetifView { status: Some(NetifStatus::Active), ..n })
        } else if value == "inactive"@ {
            Some(NetifView { status: Some(NetifStatus::Inactive), ..n })
        } else {
            None
        }
    } else {
        Some(n)
    }
}

/// The lines of a listing taken into `n` one after another.
pub open spec fn netif_fold(n: NetifView, kv: Seq<char>, v4: Seq<char>, v6: Seq<char>, lines: Seq<Seq<char>>) -> Option<
    NetifView,
>
    decreases lines.len(),
{
    if lines.len() == 0 {
        Some(n)
    } else {
        match netif_fold(n, kv, v4, v6, lines.drop_last()) {
            Some(m) => netif_step(m, kv, v4, v6, lines.last()),
            None => None,
        }
    }
}

proof fn lemma_listing_words_differ()
    ensures
        "inet"@ != "ether"@ && "inet"@ != "HWaddr"@,
        "inet6"@ != "ether"@ && "inet6"@ != "HWaddr"@ && "inet6"@ != "inet"@,
        "status"@ != "ether"@ && "status"@ != "HWaddr"@ && "status"@ != "inet"@ && "status"@ != "inet6"@,
        "active"@ != "inactive"@,
{
    reveal_strlit("ether");
    reveal_strlit("HWaddr");
    reveal_strlit("inet");
    reveal_strlit("inet6");
    reveal_strlit("status");
    reveal_strlit("active");
    reveal_strlit("inactive");
    assert("inet"@.len() != "ether"@.len() && "inet"@.len() != "HWaddr"@.len());
    assert("inet6"@.len() != "HWaddr"@.len() && "inet6"@.len() != "inet"@.len());
    assert("inet6"@[0] != "ether"@[0]);
    assert("status"@.len() != "ether"@.len() && "status"@.len() != "inet"@.len()
        && "status"@.len() != "inet6"@.len());
    assert("status"@[0] != "HWaddr"@[0]);
    assert("active"@.len() != "inactive"@.len());
}

proof fn lemma_fold_fails_after(n: NetifView, kv: Seq<char>, v4: Seq<char>, v6: Seq<char>, lines: Seq<Seq<char>>, i: int)
    requires
        0 <= i <= lines.len(),
        netif_fold(n, kv, v4, v6, lines.subrange(0, i)) is None,
    ensures
        netif_fold(n, kv, v4, v6, lines) is None,
    decreases lines.len() - i,
{
    if i < lines.len() {
        assert(lines.subrange(0, i + 1).drop_last() =~= lines.subrange(0, i));
        lemma_fold_fails_after(n, kv, v4, v6, lines, i + 1);
    } else {
        assert(lines.subrange(0, i) =~= lines);
    }
}

fn group_string(o: &Option<String>) -> (r: String)
    ensures
        r@ == match opt_text(*o) {
            Some(t) => t,
            None => Seq::<char>::empty(),
        },
{
    String::from_str(group_or_empty(o))
}

/// The interface `iface` as the lines of its listing describe it.
pub fn parse_nettools_netif(iface: &str, content: &str, kv: &Pattern, v4: &Pattern, v6: &Pattern) -> (r: Result<
    Netif,
    Error,
>)
    ensures
        match netif_fold(bare_netif(iface@), kv.source(), v4.source(), v6.source(), lines_spec(content@)) {
            Some(v) => (r matches Ok(n) && netif_view(n) == v),
            None => r is Err,
        },
{
    let mut netif = Netif::named(iface);
    let lines = split_lines(content);
    let ghost ls = lines_spec(content@);
    let kv_names = vec!["key", "value"];
    let v4_names = vec!["ip", "mask"];
    let v6_names = vec!["ip", "prefix", "scope"];
    let mut i: usize = 0;
    assert(ls.subrange(0, 0) =~= Seq::<Seq<char>>::empty());
    while i < lines.len()
        invariant
            i <= lines@.len(),
            lines@.map_values(|l: String| l@) == ls,
            ls == lines_spec(content@),
            kv_names@ == seq!["key", "value"],
            v4_names@ == seq!["ip", "mask"],
            v6_names@ == seq!["ip", "prefix", "scope"],
            netif_fold(bare_netif(iface@), kv.source(), v4.source(), v6.source(), ls.subrange(0, i as int))
                == Some(netif_view(netif)),
        decreases lines@.len() - i,
    {
        let ghost line = ls[i as int];
        let ghost before = netif_view(netif);
        assert(lines@[i as int]@ == line);
        assert(ls.subrange(0, i + 1).drop_last() =~= ls.subrange(0, i as int));
        assert(ls.subrange(0, i + 1).last() == line);
        proof {
            lemma_listing_words_differ();
        }
        match kv.captures(lines[i].as_str(), &kv_names) {
            None => {},
            Some(g) => {
                let key = group_string(&g[0]);
                let value = trim(group_or_empty(&g[1]));
                let ipv4 = match v4.captures(value.as_str(), &v4_names) {
                    Some(a) => Some(NetifIPv4 { address: group_string(&a[0]), netmask: group_string(&a[1]) }),
                    None => None,
                };
                let ipv6 = match v6.captures(value.as_str(), &v6_names) {
                    Some(a) => {
                        let scope = match &a[2] {
                            Some(s) => Some(s.clone()),
                            None => None,
                        };
                        Some(Ipv6Fields { address: group_string(&a[0]), prefix: group_string(&a[1]), scope })
                    },
                    None => None,
                };
                let ghost value_text = value@;
                assert(key@ == group_text(kv.source(), line, "key"@));
                assert(value_text == trim_start_spec(trim_end_spec(group_text(kv.source(), line, "value"@))));
                let ghost v4_found = ipv4 is Some;
                let ghost v6_found = ipv6 is Some;
                assert(v4_found == regex_finds(v4.source(), value_text));
                assert(v6_found == regex_finds(v6.source(), value_text));
                match apply_netif_entry(&mut netif, key.as_str(), value.as_str(), ipv4, ipv6) {
                    Ok(()) => proof {
                        lemma_parse_unsigned_range(group_text(v6.source(), value_text, "prefix"@), 255);
                    },
                    Err(e) => {
                        proof {
                            assert(netif_step(before, kv.source(), v4.source(), v6.source(), line) is None);
                            lemma_fold_fails_after(
                                bare_netif(iface@),
                                kv.source(),
                                v4.source(),
                                v6.source(),
                                ls,
                                i + 1,
                            );
                        }
                        return Err(e);
                    },
                }
            },
        }
        assert(netif_step(before, kv.source(), v4.source(), v6.source(), line) == Some(netif_view(netif)));
        i = i + 1;
    }
    assert(ls.subrange(0, lines@.len() as int) =~= ls);
    Ok(netif)
}

/// An optional text, empty when absent.
pub open spec fn or_empty(o: Option<Seq<char>>) -> Seq<char> {
    match o {
        Some(t) => t,
        None => Seq::empty(),
    }
}

/// The interface that the `k`th match of `ifp` in `out` describes, if its
/// listing reads.
pub open spec fn listed_netif(
    out: Seq<char>,
    ifp: Seq<char>,
    kvp: Seq<char>,
    v4p: Seq<char>,
    v6p: Seq<char>,
    k: int,
) -> Option<NetifView> {
    netif_fold(
        bare_netif(or_empty(regex_groups_each(ifp, out, "if"@)[k])),
        kvp,
        v4p,
        v6p,
        lines_spec(or_empty(regex_groups_each(ifp, out, "content"@)[k])),
    )
}

/// What reading an interface listing comes to: a pattern that does not
/// compile is a `Regex` error; else one interface for each match of the
/// interface pattern (its groups `if` and `content`), in order, or an error
/// when one of their listings does not read.
pub open spec fn net_outcome(
    r: Result<Vec<Netif>, Error>,
    out: Seq<char>,
    ifp: Seq<char>,
    kvp: Seq<char>,
    v4p: Seq<char>,
    v6p: Seq<char>,
) -> bool {
    let compiles = regex_compiles(ifp) && regex_compiles(kvp) && regex_compiles(v4p) && regex_compiles(v6p);
    &&& (!compiles ==> r matches Err(Error::Regex(_)))
    &&& (r matches Ok(v) ==> compiles && v@.len() == regex_groups_each(ifp, out, "if"@).len() && forall|k: int|
        0 <= k < v@.len() ==> listed_netif(out, ifp, kvp, v4p, v6p, k) == Some(netif_view(#[trigger] v@[k])))
    &&& (r is Err ==> !compiles || exists|k: int|
        0 <= k < regex_groups_each(ifp, out, "if"@).len() && #[trigger] listed_netif(out, ifp, kvp, v4p, v6p, k) is None)
}

/// The network interfaces in the output of `ifconfig`, read with a platform's
/// patterns: `if_pattern` finds each interface (groups `if` and `content`),
/// `kv_pattern` each `key value` line (groups `key` and `value`), and the
/// address patterns the IPv4 (`ip`, `mask`) and IPv6 (`ip`, `prefix`, `scope`)
/// addresses.
pub fn parse_nettools_net(
    output: &str,
    if_pattern: &str,
    kv_pattern: &str,
    ipv4_pattern: &str,
    ipv6_pattern: &str,
) -> (r: Result<Vec<Netif>, Error>)
    ensures
        net_outcome(r, output@, if_pattern@, kv_pattern@, ipv4_pattern@, ipv6_pattern@),
{
    let ifp = match Pattern::new(if_pattern) {
        Ok(p) => p,
        Err(e) => {
            return Err(e);
        },
    };
    let kv = match Pattern::new(kv_pattern) {
        Ok(p) => p,
        Err(e) => {
            return Err(e);
        },
    };
    let v4 = match Pattern::new(ipv4_pattern) {
        Ok(p) => p,
        Err(e) => {
            return Err(e);
        },
    };
    let v6 = match Pattern::new(ipv6_pattern) {
        Ok(p) => p,
        Err(e) => {
            return Err(e);
        },
    };
    let names = vec!["if", "content"];
    let found = ifp.captures_all(output, &names);
    assert(found@.len() == regex_groups_each(if_pattern@, output@, "if"@).len()) by {
        assert(names@[0]@ == "if"@);
    }
    let mut net: Vec<Netif> = Vec::new();
    let mut k: usize = 0;
    while k < found.len()
        invariant
            k <= found@.len(),
            found@.len() == regex_groups_each(if_pattern@, output@, "if"@).len(),
            names@ == seq!["if", "content"],
            ifp.source() == if_pattern@,
            kv.source() == kv_pattern@,
            v4.source() == ipv4_pattern@,
            v6.source() == ipv6_pattern@,
            regex_compiles(if_pattern@) && regex_compiles(kv_pattern@) && regex_compiles(ipv4_pattern@)
                && regex_compiles(ipv6_pattern@),
            forall|i: int|
                0 <= i < found@.len() ==> (#[trigger] found@[i])@.len() == names@.len() && forall|j: int|
                    0 <= j < names@.len() ==> opt_text(#[trigger] found@[i]@[j]) == regex_groups_each(
                        if_pattern@,
                        output@,
                        names@[j]@,
                    )[i],
            net@.len() == k,
            forall|i: int|
                0 <= i < k ==> listed_netif(output@, if_pattern@, kv_pattern@, ipv4_pattern@, ipv6_pattern@, i)
                    == Some(netif_view(#[trigger] net@[i])),
        decreases found@.len() - k,
    {
        let m = &found[k];
        assert(m@.len() == 2);
        assert(opt_text(m@[0]) == regex_groups_each(if_pattern@, output@, "if"@)[k as int]);
        assert(opt_text(m@[1]) == regex_groups_each(if_pattern@, output@, "content"@)[k as int]);
        match parse_nettools_netif(group_or_empty(&m[0]), group_or_empty(&m[1]), &kv, &v4, &v6) {
            Ok(n) => {
                net.push(n);
            },
            Err(e) => {
                assert(listed_netif(output@, if_pattern@, kv_pattern@, ipv4_pattern@, ipv6_pattern@, k as int) is None);
                return Err(e);
            },
        }
        k = k + 1;
    }
    Ok(net)
}

} // verus!
