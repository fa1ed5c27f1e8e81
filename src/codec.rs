//! The wire messages exchanged with a remote agent: a request is the
//! operation's name followed by its arguments; a reply is a status frame,
//! `Ok` followed by the operation's result fields or `Err` followed by a
//! message. Every frame is text.

use vstd::prelude::*;
use vstd::string::StringExecFns;
use vstd::string::StrSliceExecFns;
use crate::command::CommandResult;
use crate::error::{Error, MissingFrame};
use crate::text::{decimal_string, decimal_text, lemma_decimal_round_trip, parse_i32, parse_i32_spec};

verus! {

/// The text of each frame.
pub open spec fn texts(v: Seq<String>) -> Seq<Seq<char>> {
    v.map_values(|s: String| s@)
}

/// The text of each name.
pub open spec fn name_texts(v: Seq<&str>) -> Seq<Seq<char>> {
    v.map_values(|s: &str| s@)
}

/// The operations that a remote agent carries out.
#[derive(Debug, Clone, Copy, PartialEq, Eq)]
pub enum Operation {
    CommandExec,
    DirectoryIsDirectory,
    DirectoryExists,
    FileIsFile,
    FileExists,
    FileGetOwner,
    FileGetMode,
    ServiceAction,
    PackageDefaultProvider,
    TelemetryInit,
}

/// The name that opens a request for `op`.
pub open spec fn operation_name(op: Operation) -> Seq<char> {
    match op {
        Operation::CommandExec => "command::exec"@,
        Operation::DirectoryIsDirectory => "directory::is_directory"@,
        Operation::DirectoryExists => "directory::exists"@,
        Operation::FileIsFile => "file::is_file"@,
        Operation::FileExists => "file::exists"@,
        Operation::FileGetOwner => "file::get_owner"@,
        Operation::FileGetMode => "file::get_mode"@,
        Operation::ServiceAction => "service::action"@,
        Operation::PackageDefaultProvider => "package::default_provider"@,
        Operation::TelemetryInit => "telemetry"@,
    }
}

/// How many arguments follow the name in a request for `op`.
pub open spec fn operation_arity(op: Operation) -> nat {
    match op {
        Operation::ServiceAction => 2,
        Operation::PackageDefaultProvider => 0,
        Operation::TelemetryInit => 0,
        _ => 1,
    }
}

/// The names of the result fields that follow `Ok` in a reply to `op`, in
/// their order on the wire.
pub open spec fn reply_fields(op: Operation) -> Seq<Seq<char>> {
    match op {
        Operation::CommandExec => seq!["exit_code"@, "stdout"@, "stderr"@],
        Operation::DirectoryIsDirectory => seq!["is_directory"@],
        Operation::DirectoryExists => seq!["exists"@],
        Operation::FileIsFile => seq!["is_file"@],
        Operation::FileExists => seq!["exists"@],
        Operation::FileGetOwner => seq!["user_name"@, "user_uid"@, "group_name"@, "group_gid"@],
        Operation::FileGetMode => seq!["mode"@],
        Operation::ServiceAction => seq!["exit_code"@, "stdout"@, "stderr"@],
        Operation::PackageDefaultProvider => seq!["provider"@],
        Operation::TelemetryInit => seq!["telemetry"@],
    }
}

impl Operation {
    pub fn name(&self) -> (r: &'static str)
        ensures
            r@ == operation_name(*self),
    {
        match self {
            Operation::CommandExec => "command::exec",
            Operation::DirectoryIsDirectory => "directory::is_directory",
            Operation::DirectoryExists => "directory::exists",
            Operation::FileIsFile => "file::is_file",
            Operation::FileExists => "file::exists",
            Operation::FileGetOwner => "file::get_owner",
            Operation::FileGetMode => "file::get_mode",
            Operation::ServiceAction => "service::action",
            Operation::PackageDefaultProvider => "package::default_provider",
            Operation::TelemetryInit => "telemetry",
        }
    }

    pub fn arity(&self) -> (r: usize)
        ensures
            r == operation_arity(*self),
    {
        match self {
            Operation::ServiceAction => 2,
            Operation::PackageDefaultProvider => 0,
            Operation::TelemetryInit => 0,
            _ => 1,
        }
    }

    pub fn reply_fields(&self) -> (r: Vec<&'static str>)
        ensures
            name_texts(r@) == reply_fields(*self),
    {
        let r = match self {
            Operation::CommandExec => vec!["exit_code", "stdout", "stderr"],
            Operation::DirectoryIsDirectory => vec!["is_directory"],
            Operation::DirectoryExists => vec!["exists"],
            Operation::FileIsFile => vec!["is_file"],
            Operation::FileExists => vec!["exists"],
            Operation::FileGetOwner => vec!["user_name", "user_uid", "group_name", "group_gid"],
            Operation::FileGetMode => vec!["mode"],
            Operation::ServiceAction => vec!["exit_code", "stdout", "stderr"],
            Operation::PackageDefaultProvider => vec!["provider"],
            Operation::TelemetryInit => vec!["telemetry"],
        };
        assert(name_texts(r@) =~= reply_fields(*self));
        r
    }
}

/// The frames of a request: the name, then the arguments in order.
pub open spec fn request_frames(name: Seq<char>, args: Seq<Seq<char>>) -> Seq<Seq<char>> {
    seq![name] + args
}

/// The request for `op` with the given arguments.
pub fn encode_request(op: Operation, args: &Vec<String>) -> (r: Vec<String>)
    requires
        args@.len() == operation_arity(op),
    ensures
        texts(r@) == request_frames(operation_name(op), texts(args@)),
{
    let mut r: Vec<String> = Vec::new();
    r.push(String::from_str(op.name()));
    let mut i: usize = 0;
    while i < args.len()
        invariant
            i <= args@.len(),
            texts(r@) == request_frames(operation_name(op), texts(args@.subrange(0, i as int))),
        decreases args@.len() - i,
    {
        let ghost before = r@;
        r.push(args[i].clone());
        proof {
            assert(r@ == before.push(r@[r@.len() - 1]));
            assert(texts(r@) =~= texts(before).push(args@[i as int]@));
            assert(args@.subrange(0, i + 1) =~= args@.subrange(0, i as int).push(args@[i as int]));
            assert(texts(args@.subrange(0, i + 1)) =~= texts(args@.subrange(0, i as int)).push(args@[i as int]@));
            assert(texts(r@) =~= request_frames(operation_name(op), texts(args@.subrange(0, i + 1))));
        }
        i = i + 1;
    }
    assert(args@.subrange(0, args@.len() as int) =~= args@);
    r
}

/// What a reply says, read against the names of the result fields that its
/// operation declares.
pub enum ReplyView {
    /// `Ok` with every declared field: the fields, in order (extra frames are ignored).
    Fields(Seq<Seq<char>>),
    /// `Err` with the agent's message.
    Agent(Seq<char>),
    /// A frame is absent: its zero-based position in the reply and its name.
    Missing(int, Seq<char>),
    /// No status frame, or one that is neither `Ok` nor `Err`.
    Malformed,
}

/// How a reply reads against the declared field names.
pub open spec fn read_reply(reply: Seq<Seq<char>>, names: Seq<Seq<char>>) -> ReplyView {
    if reply.len() == 0 {
        ReplyView::Malformed
    } else if reply[0] == "Err"@ {
        if reply.len() < 2 {
            ReplyView::Missing(1, "err_msg"@)
        } else {
            ReplyView::Agent(reply[1])
        }
    } else if reply[0] == "Ok"@ {
        if reply.len() <= names.len() {
            ReplyView::Missing(reply.len() as int, names[reply.len() - 1])
        } else {
            ReplyView::Fields(reply.subrange(1, names.len() as int + 1))
        }
    } else {
        ReplyView::Malformed
    }
}

/// The error that stands for a reply that carries no fields.
pub open spec fn error_for(e: Error, v: ReplyView) -> bool {
    match v {
        ReplyView::Agent(m) => (e matches Error::Agent(x) && x@ == m),
        ReplyView::Missing(i, n) => (e matches Error::Frame(f) && f.order == i && f.name@ == n),
        ReplyView::Malformed => e matches Error::HostResponse,
        ReplyView::Fields(_) => false,
    }
}

/// Whether two texts are equal.
pub fn same_text(a: &str, b: &str) -> (r: bool)
    ensures
        r == (a@ == b@),
{
    let n = a.unicode_len();
    if n != b.unicode_len() {
        return false;
    }
    let mut i: usize = 0;
    while i < n
        invariant
            i <= n,
            n == a@.len(),
            n == b@.len(),
            a@.subrange(0, i as int) == b@.subrange(0, i as int),
        decreases n - i,
    {
        if a.get_char(i) != b.get_char(i) {
            return false;
        }
        assert(a@.subrange(0, i + 1) =~= a@.subrange(0, i as int).push(a@[i as int]));
        assert(b@.subrange(0, i + 1) =~= b@.subrange(0, i as int).push(b@[i as int]));
        i = i + 1;
    }
    assert(a@ =~= a@.subrange(0, n as int));
    assert(b@ =~= b@.subrange(0, n as int));
    true
}

/// Reads a reply against the names of its operation's result fields: the
/// fields in order, or the error that the reply stands for.
pub fn decode_reply(reply: &Vec<String>, names: &Vec<&str>) -> (r: Result<Vec<String>, Error>)
    requires
        names@.len() < 255,
    ensures
        match read_reply(texts(reply@), name_texts(names@)) {
            ReplyView::Fields(f) => (r matches Ok(v) && texts(v@) == f),
            other => (r matches Err(e) && error_for(e, other)),
        },
{
    let ghost rv = texts(reply@);
    if reply.len() == 0 {
        return Err(Error::HostResponse);
    }
    assert(rv[0] == reply@[0]@);
    if same_text(reply[0].as_str(), "Err") {
        if reply.len() < 2 {
            return Err(Error::Frame(MissingFrame::new("err_msg", 1)));
        }
        assert(rv[1] == reply@[1]@);
        return Err(Error::Agent(reply[1].clone()));
    }
    if !same_text(reply[0].as_str(), "Ok") {
        return Err(Error::HostResponse);
    }
    if reply.len() <= names.len() {
        let at = reply.len();
        assert(name_texts(names@)[at - 1] == names@[at - 1]@);
        return Err(Error::Frame(MissingFrame::new(names[at - 1], at as u8)));
    }
    let mut fields: Vec<String> = Vec::new();
    let mut i: usize = 0;
    while i < names.len()
        invariant
            i <= names@.len(),
            names@.len() < reply@.len(),
            rv == texts(reply@),
            texts(fields@) == rv.subrange(1, i + 1),
        decreases names@.len() - i,
    {
        let ghost before = fields@;
        fields.push(reply[i + 1].clone());
        assert(texts(fields@) =~= texts(before).push(reply@[i + 1]@));
        assert(rv[i + 1] == reply@[i + 1]@);
        assert(texts(fields@) =~= rv.subrange(1, i + 2));
        i = i + 1;
    }
    Ok(fields)
}

/// What a reply to a command run says.
pub enum ExecReply {
    /// The command ran: its exit code, output and error output.
    Ran(i32, Seq<char>, Seq<char>),
    /// The exit code frame does not denote a 32-bit integer.
    BadExitCode(Seq<char>),
    /// The reply carries no result: see the view.
    Failed(ReplyView),
}

/// How a reply to a command run reads.
pub open spec fn read_exec_reply(reply: Seq<Seq<char>>) -> ExecReply {
    match read_reply(reply, reply_fields(Operation::CommandExec)) {
        ReplyView::Fields(f) => match parse_i32_spec(f[0]) {
            Some(code) => ExecReply::Ran(code, f[1], f[2]),
            None => ExecReply::BadExitCode(f[0]),
        },
        other => ExecReply::Failed(other),
    }
}

/// The frames of a successful reply to a command run.
pub open spec fn exec_reply_frames(code: i32, stdout: Seq<char>, stderr: Seq<char>) -> Seq<Seq<char>> {
    seq!["Ok"@, decimal_text(code as int), stdout, stderr]
}

/// Reads the agent's reply to a command run.
pub fn decode_exec_reply(reply: &Vec<String>) -> (r: Result<CommandResult, Error>)
    ensures
        match read_exec_reply(texts(reply@)) {
            ExecReply::Ran(code, out, err) => (r matches Ok(c) && c.exit_code == code
                && c.stdout@ == out && c.stderr@ == err),
            ExecReply::BadExitCode(t) => (r matches Err(Error::ParseInt(m)) && m@ == t),
            ExecReply::Failed(v) => (r matches Err(e) && error_for(e, v)),
        },
{
    let names = Operation::CommandExec.reply_fields();
    proof {
        reveal_strlit("exit_code");
        reveal_strlit("stdout");
        reveal_strlit("stderr");
    }
    let fields = match decode_reply(reply, &names) {
        Ok(f) => f,
        Err(e) => {
            return Err(e);
        },
    };
    assert(texts(fields@).len() == 3);
    assert(texts(fields@)[0] == fields@[0]@);
    assert(texts(fields@)[1] == fields@[1]@);
    assert(texts(fields@)[2] == fields@[2]@);
    match parse_i32(fields[0].as_str()) {
        Some(code) => Ok(
            CommandResult {
                exit_code: code,
                stdout: fields[1].clone(),
                stderr: fields[2].clone(),
            },
        ),
        None => Err(Error::ParseInt(fields[0].clone())),
    }
}

/// The reply that an agent sends for a command run that produced `result`.
pub fn encode_exec_reply(result: &CommandResult) -> (r: Vec<String>)
    ensures
        texts(r@) == exec_reply_frames(result.exit_code, result.stdout@, result.stderr@),
{
    let mut r: Vec<String> = Vec::new();
    r.push(String::from_str("Ok"));
    r.push(decimal_string(result.exit_code));
    r.push(result.stdout.clone());
    r.push(result.stderr.clone());
    assert(texts(r@) =~= exec_reply_frames(result.exit_code, result.stdout@, result.stderr@));
    r
}

/// A successful reply to a command run, read back, gives the exit code and
/// the two output streams that were sent, unchanged.
pub proof fn lemma_exec_reply_round_trip(code: i32, stdout: Seq<char>, stderr: Seq<char>)
    ensures
        read_exec_reply(exec_reply_frames(code, stdout, stderr)) == ExecReply::Ran(code, stdout, stderr),
{
    reveal_strlit("Ok");
    reveal_strlit("Err");
    lemma_decimal_round_trip(code);
    let reply = exec_reply_frames(code, stdout, stderr);
    assert("Ok"@.len() != "Err"@.len());
    assert(reply[0] != "Err"@);
    assert(reply.subrange(1, 4) =~= seq![decimal_text(code as int), stdout, stderr]);
}

/// An `Ok` reply that lacks some of its operation's result frames reads as the
/// first absent frame: its position in the reply and the field's declared name.
pub proof fn lemma_missing_frame(op: Operation, reply: Seq<Seq<char>>)
    requires
        reply.len() >= 1,
        reply[0] == "Ok"@,
        reply.len() - 1 < reply_fields(op).len(),
    ensures
        read_reply(reply, reply_fields(op)) == ReplyView::Missing(
            reply.len() as int,
            reply_fields(op)[reply.len() - 1],
        ),
{
    reveal_strlit("Ok");
    reveal_strlit("Err");
    assert("Ok"@.len() != "Err"@.len());
}

} // verus!
