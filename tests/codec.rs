use inapi::codec::{decode_exec_reply, decode_reply, encode_request, Operation};
use inapi::text::{decimal_string, parse_i32, trim_end, unsigned_text};
use inapi::{Error, MissingFrame};

fn frames(v: &[&str]) -> Vec<String> {
    v.iter().map(|s| s.to_string()).collect()
}

fn missing(r: Result<inapi::CommandResult, Error>) -> (u8, String) {
    match r {
        Err(Error::Frame(f)) => (f.order, f.name),
        _ => panic!("expected a missing frame"),
    }
}

#[test]
fn request_frames_in_order() {
    let r = encode_request(Operation::ServiceAction, &frames(&["nginx", "start"]));
    assert_eq!(r, frames(&["service::action", "nginx", "start"]));
    let r = encode_request(Operation::TelemetryInit, &vec![]);
    assert_eq!(r, frames(&["telemetry"]));
}

#[test]
fn missing_exec_frames_are_named() {
    assert_eq!(missing(decode_exec_reply(&frames(&["Ok"]))), (1, "exit_code".to_string()));
    assert_eq!(missing(decode_exec_reply(&frames(&["Ok", "0"]))), (2, "stdout".to_string()));
    assert_eq!(missing(decode_exec_reply(&frames(&["Ok", "0", "cow"]))), (3, "stderr".to_string()));
    assert_eq!(missing(decode_exec_reply(&frames(&["Err"]))), (1, "err_msg".to_string()));
}

#[test]
fn missing_frames_for_every_operation() {
    let ops = [
        Operation::CommandExec,
        Operation::DirectoryIsDirectory,
        Operation::DirectoryExists,
        Operation::FileIsFile,
        Operation::FileExists,
        Operation::FileGetOwner,
        Operation::FileGetMode,
        Operation::ServiceAction,
        Operation::PackageDefaultProvider,
        Operation::TelemetryInit,
    ];
    for op in ops {
        let names = op.reply_fields();
        for have in 0..names.len() {
            let mut reply = vec!["Ok".to_string()];
            for i in 0..have {
                reply.push(format!("v{}", i));
            }
            match decode_reply(&reply, &names) {
                Err(Error::Frame(f)) => {
                    assert_eq!(f.order as usize, have + 1);
                    assert_eq!(f.name, names[have]);
                }
                _ => panic!("expected a missing frame"),
            }
        }
    }
}

#[test]
fn agent_error_and_bad_status() {
    match decode_exec_reply(&frames(&["Err", "no such command"])) {
        Err(Error::Agent(m)) => assert_eq!(m, "no such command"),
        _ => panic!("expected an agent error"),
    }
    assert!(matches!(decode_exec_reply(&frames(&[])), Err(Error::HostResponse)));
    assert!(matches!(decode_exec_reply(&frames(&["OK", "0", "a", "b"])), Err(Error::HostResponse)));
    match decode_exec_reply(&frames(&["Ok", "zero", "a", "b"])) {
        Err(Error::ParseInt(t)) => assert_eq!(t, "zero"),
        _ => panic!("expected a parse error"),
    }
}

#[test]
fn extra_frames_are_ignored() {
    let r = decode_exec_reply(&frames(&["Ok", "-3", "out", "err", "extra"])).unwrap();
    assert_eq!(r.exit_code, -3);
    assert_eq!(r.stdout, "out");
    assert_eq!(r.stderr, "err");
    let f = decode_reply(&frames(&["Ok", "true", "x"]), &vec!["exists"]).unwrap();
    assert_eq!(f, frames(&["true"]));
}

#[test]
fn decimal_parsing() {
    assert_eq!(parse_i32("0"), Some(0));
    assert_eq!(parse_i32("+42"), Some(42));
    assert_eq!(parse_i32("-2147483648"), Some(i32::MIN));
    assert_eq!(parse_i32("2147483647"), Some(i32::MAX));
    assert_eq!(parse_i32("2147483648"), None);
    assert_eq!(parse_i32("-2147483649"), None);
    assert_eq!(parse_i32("99999999999999999999"), None);
    assert_eq!(parse_i32(""), None);
    assert_eq!(parse_i32("-"), None);
    assert_eq!(parse_i32(" 1"), None);
    assert_eq!(parse_i32("1a"), None);
    assert_eq!(decimal_string(-120), "-120");
    assert_eq!(decimal_string(i32::MIN), "-2147483648");
    assert_eq!(unsigned_text(4096), "4096");
    assert_eq!(trim_end("a b \u{3000}\n"), "a b");
    assert_eq!(trim_end(""), "");
}

#[test]
fn error_messages() {
    let e = Error::Frame(MissingFrame::new("stdout", 2));
    assert_eq!(e.to_string(), "Missing frame 2 in message: stdout");
    assert_eq!(e.description(), "The Agent's reply was missing a part ('frame') of the expected message");
    assert_eq!(Error::Agent("boom".to_string()).to_string(), "Agent error: boom");
    assert_eq!(Error::Agent("boom".to_string()).description(), "boom");
    assert_eq!(Error::HostDisconnected.to_string(), "Cannot run command while host is disconnected");
    assert_eq!(Error::HostDisconnected.description(), "Cannot run command on disconnected host");
    assert_eq!(Error::Generic("x".to_string()).to_string(), "Error: x");
    assert_eq!(Error::HostResponse.to_string(), "Invalid response from host");
}
