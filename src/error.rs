//! The error taxonomy shared by every operation of the library.

use vstd::prelude::*;
use vstd::string::StringExecFns;
use crate::text::{nat_digits, unsigned_text};

verus! {

/// A reply frame that the agent's message lacked: its zero-based position in
/// the reply (the status frame is position 0) and the name of the field.
#[derive(Debug, Clone)]
pub struct MissingFrame {
    pub name: String,
    pub order: u8,
}

impl MissingFrame {
    pub fn new(name: &str, order: u8) -> (r: MissingFrame)
        ensures
            r.name@ == name@,
            r.order == order,
    {
        MissingFrame { name: String::from_str(name), order }
    }
}

/// A missing frame described by a fixed field name.
#[derive(Debug, Clone, Copy)]
pub struct MissingFrameError {
    pub order: u8,
    pub name: &'static str,
}

/// Every failure of the library. Failures of the machinery underneath (the
/// transport, the operating system, decoders) carry that machinery's message.
#[derive(Debug, Clone)]
pub enum Error {
    /// An error string returned by the remote agent.
    Agent(String),
    /// An error string returned by the remote authentication service.
    Auth(String),
    /// A failure of the request/reply channel.
    Transport(String),
    /// A JSON document that could not be decoded.
    JsonDecoder(String),
    /// A frame missing from the agent's reply.
    Frame(MissingFrame),
    /// Any other failure, described in words.
    Generic(String),
    /// An operation was asked of a remote host whose channel is not open.
    HostDisconnected,
    /// The agent's reply did not have the shape of a reply.
    HostResponse,
    /// An input/output failure.
    Io(String),
    /// Text that does not denote a floating-point number.
    ParseFloat(String),
    /// Text that does not denote an integer of the expected type.
    ParseInt(String),
    /// A pattern that could not be compiled.
    Regex(String),
    /// Bytes that are not UTF-8, read as a string slice.
    StrFromUtf8(String),
    /// Bytes that are not UTF-8, read as an owned string.
    StringFromUtf8(String),
    /// A failure of a file transfer to a remote host.
    FileTransfer(String),
}

/// The one-line description of an error.
pub open spec fn description_of(e: Error) -> Seq<char> {
    match e {
        Error::Frame(_) => "The Agent's reply was missing a part ('frame') of the expected message"@,
        Error::HostDisconnected => "Cannot run command on disconnected host"@,
        Error::HostResponse => "Invalid response from host"@,
        Error::Agent(m) => m@,
        Error::Auth(m) => m@,
        Error::Transport(m) => m@,
        Error::JsonDecoder(m) => m@,
        Error::Generic(m) => m@,
        Error::Io(m) => m@,
        Error::ParseFloat(m) => m@,
        Error::ParseInt(m) => m@,
        Error::Regex(m) => m@,
        Error::StrFromUtf8(m) => m@,
        Error::StringFromUtf8(m) => m@,
        Error::FileTransfer(m) => m@,
    }
}

/// The human-readable message of an error: a prefix naming its kind, then
/// its details.
pub open spec fn message_of(e: Error) -> Seq<char> {
    match e {
        Error::Agent(m) => "Agent error: "@ + m@,
        Error::Auth(m) => "Auth error: "@ + m@,
        Error::Transport(m) => "Transport error: "@ + m@,
        Error::JsonDecoder(m) => "JSON decoder error: "@ + m@,
        Error::Frame(f) => "Missing frame "@ + nat_digits(f.order as nat) + " in message: "@
            + f.name@,
        Error::Generic(m) => "Error: "@ + m@,
        Error::HostDisconnected => "Cannot run command while host is disconnected"@,
        Error::HostResponse => "Invalid response from host"@,
        Error::Io(m) => "IO error: "@ + m@,
        Error::ParseFloat(m) => "Parse error: "@ + m@,
        Error::ParseInt(m) => "Parse error: "@ + m@,
        Error::Regex(m) => "Regex error: "@ + m@,
        Error::StrFromUtf8(m) => "Convert from UTF8 slice to str error: "@ + m@,
        Error::StringFromUtf8(m) => "Convert from UTF8 slice to String error: "@ + m@,
        Error::FileTransfer(m) => "File transfer error: "@ + m@,
    }
}

fn prefixed(prefix: &str, detail: &String) -> (r: String)
    ensures
        r@ == prefix@ + detail@,
{
    String::from_str(prefix).concat(detail.as_str())
}

impl Error {
    /// A short description of the error.
    pub fn description(&self) -> (r: &str)
        ensures
            r@ == description_of(*self),
    {
        match self {
            Error::Frame(_) => "The Agent's reply was missing a part ('frame') of the expected message",
            Error::HostDisconnected => "Cannot run command on disconnected host",
            Error::HostResponse => "Invalid response from host",
            Error::Agent(m) => m.as_str(),
            Error::Auth(m) => m.as_str(),
            Error::Transport(m) => m.as_str(),
            Error::JsonDecoder(m) => m.as_str(),
            Error::Generic(m) => m.as_str(),
            Error::Io(m) => m.as_str(),
            Error::ParseFloat(m) => m.as_str(),
            Error::ParseInt(m) => m.as_str(),
            Error::Regex(m) => m.as_str(),
            Error::StrFromUtf8(m) => m.as_str(),
            Error::StringFromUtf8(m) => m.as_str(),
            Error::FileTransfer(m) => m.as_str(),
        }
    }

    /// The full human-readable message of the error.
    pub fn to_string(&self) -> (r: String)
        ensures
            r@ == message_of(*self),
    {
        match self {
            Error::Agent(m) => prefixed("Agent error: ", m),
            Error::Auth(m) => prefixed("Auth error: ", m),
            Error::Transport(m) => prefixed("Transport error: ", m),
            Error::JsonDecoder(m) => prefixed("JSON decoder error: ", m),
            Error::Frame(f) => {
                let order = unsigned_text(f.order as u32);
                let r = String::from_str("Missing frame ").concat(order.as_str()).concat(
                    " in message: ",
                ).concat(f.name.as_str());
                r
            },
            Error::Generic(m) => prefixed("Error: ", m),
            Error::HostDisconnected => String::from_str("Cannot run command while host is disconnected"),
            Error::HostResponse => String::from_str("Invalid response from host"),
            Error::Io(m) => prefixed("IO error: ", m),
            Error::ParseFloat(m) => prefixed("Parse error: ", m),
            Error::ParseInt(m) => prefixed("Parse error: ", m),
            Error::Regex(m) => prefixed("Regex error: ", m),
            Error::StrFromUtf8(m) => prefixed("Convert from UTF8 slice to str error: ", m),
            Error::StringFromUtf8(m) => prefixed("Convert from UTF8 slice to String error: ", m),
            Error::FileTransfer(m) => prefixed("File transfer error: ", m),
        }
    }
}

} // verus!
