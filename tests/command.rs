use inapi::codec::{decode_exec_reply, encode_exec_reply, Operation};
use inapi::host::Route;
use inapi::{Command, CommandResult, Error, Host};

struct MockChannel {
    sent: Vec<Vec<String>>,
    reply: Vec<String>,
}

impl MockChannel {
    fn new(reply: &[&str]) -> MockChannel {
        MockChannel { sent: Vec::new(), reply: reply.iter().map(|s| s.to_string()).collect() }
    }

    fn request(&mut self, frames: Vec<String>) -> Vec<String> {
        self.sent.push(frames);
        self.reply.clone()
    }
}

fn run(cmd: &Command, host: &mut Host<MockChannel>) -> Result<CommandResult, Error> {
    match host.route(Operation::CommandExec, &vec![cmd.cmd.clone()])? {
        Route::Remote(frames) => match host {
            Host::Remote(s) => {
                let reply = s.channel.as_mut().unwrap().request(frames);
                decode_exec_reply(&reply)
            }
            Host::Local(_) => unreachable!(),
        },
        Route::Local(_, _) => panic!("a remote host routed locally"),
    }
}

fn sent_by(host: &Host<MockChannel>) -> Vec<Vec<String>> {
    match host {
        Host::Remote(s) => s.channel.as_ref().map(|c| c.sent.clone()).unwrap_or_default(),
        Host::Local(_) => Vec::new(),
    }
}

#[test]
fn ffi_test_command_exec() {
    let mut host = Host::remote("inproc://agent", None, Some(MockChannel::new(&["Ok", "0", "cow", "err"])));
    let cmd = Command::new("moo");
    let result = run(&cmd, &mut host).unwrap();
    let sent = sent_by(&host);
    assert_eq!(sent.len(), 1);
    assert_eq!(sent[0][0], "command::exec");
    assert_eq!(sent[0][1], "moo");
    assert_eq!(result.exit_code, 0);
    assert_eq!(result.stdout, "cow");
    assert_eq!(result.stderr, "err");
}

#[test]
fn test_command_new() {
    let cmd = Command::new("moo");
    assert_eq!(cmd.cmd, "moo");
}

#[test]
fn whoami_reply_from_mocked_agent() {
    let mut host = Host::remote("inproc://agent", None, Some(MockChannel::new(&["Ok", "0", "cow", "err"])));
    let result = run(&Command::new("whoami"), &mut host).unwrap();
    assert_eq!(result.exit_code, 0);
    assert_eq!(result.stdout, "cow");
    assert_eq!(result.stderr, "err");
}

#[test]
fn disconnected_host_sends_nothing() {
    let mut host: Host<MockChannel> = Host::remote("tcp://10.0.0.1:7101", Some("SECRET-REDACTED".to_string()), None);
    assert!(!host.is_connected());
    let r = run(&Command::new("whoami"), &mut host);
    assert!(matches!(r, Err(Error::HostDisconnected)));
    for op in [Operation::FileExists, Operation::DirectoryIsDirectory, Operation::FileGetMode] {
        assert!(matches!(host.route(op, &vec!["/tmp".to_string()]), Err(Error::HostDisconnected)));
    }
    assert!(matches!(host.route(Operation::TelemetryInit, &vec![]), Err(Error::HostDisconnected)));
}

#[test]
fn disconnect_then_attach() {
    let mut host = Host::remote("inproc://agent", None, Some(MockChannel::new(&["Ok", "7", "", ""])));
    assert!(host.is_connected());
    let ch = host.disconnect().unwrap();
    assert_eq!(ch.sent.len(), 0);
    assert!(!host.is_connected());
    assert!(matches!(run(&Command::new("true"), &mut host), Err(Error::HostDisconnected)));
    assert!(host.attach(ch).is_none());
    let r = run(&Command::new("true"), &mut host).unwrap();
    assert_eq!(r.exit_code, 7);
    assert_eq!(sent_by(&host).len(), 1);
}

#[test]
fn local_host_routes_to_target() {
    let host: Host<MockChannel> = Host::local("linux", "redhat").unwrap();
    match host.route(Operation::CommandExec, &vec!["whoami".to_string()]).unwrap() {
        Route::Local(t, layer) => {
            assert_eq!(t.platform, inapi::target::Platform::Redhat);
            assert_eq!(layer, inapi::target::Layer::Default);
        }
        Route::Remote(_) => panic!("a local host routed remotely"),
    }
}

#[test]
fn result_from_local_output() {
    let r = CommandResult::from_output(Some(0), "alice\n", "  \t\n").unwrap();
    assert_eq!(r.exit_code, 0);
    assert_eq!(r.stdout, "alice");
    assert_eq!(r.stderr, "");
    let r = CommandResult::from_output(Some(127), "  lead kept  \r\n", "sh: nope: not found\n").unwrap();
    assert_eq!(r.exit_code, 127);
    assert_eq!(r.stdout, "  lead kept");
    assert_eq!(r.stderr, "sh: nope: not found");
    assert!(matches!(CommandResult::from_output(None, "", ""), Err(Error::Generic(_))));
}

#[test]
fn exec_reply_round_trip() {
    for code in [0, 1, -1, 255, i32::MAX, i32::MIN] {
        let c = CommandResult { exit_code: code, stdout: "cow".to_string(), stderr: "err".to_string() };
        let frames = encode_exec_reply(&c);
        assert_eq!(frames[1], code.to_string());
        let back = decode_exec_reply(&frames).unwrap();
        assert_eq!(back.exit_code, code);
        assert_eq!(back.stdout, "cow");
        assert_eq!(back.stderr, "err");
    }
}
