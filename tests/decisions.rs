use inapi::codec::Operation;
use inapi::provider::{default_provider, preferred, ProviderStep, Providers};
use inapi::service::{service_action, ServiceStep};
use inapi::target::{Layer, OsFamily, Platform, Target};
use inapi::{Error, Host};

fn run_selection(providers: &Vec<Providers>, present: &dyn Fn(Providers) -> bool) -> (Result<Providers, Error>, Vec<Providers>) {
    let mut answers: Vec<bool> = Vec::new();
    let mut probed = Vec::new();
    loop {
        match default_provider(providers, &answers) {
            Ok(ProviderStep::Use(p)) => return (Ok(p), probed),
            Ok(ProviderStep::Probe(p)) => {
                probed.push(p);
                answers.push(present(p));
            }
            Err(e) => return (Err(e), probed),
        }
    }
}

#[test]
fn provider_fallback_probes_in_order() {
    let providers = vec![Providers::Dnf, Providers::Yum, Providers::Apt, Providers::Pkg];
    let (chosen, probed) = run_selection(&providers, &|p| p == Providers::Apt);
    assert_eq!(chosen.unwrap(), Providers::Apt);
    assert_eq!(probed, vec![Providers::Dnf, Providers::Yum, Providers::Apt]);
    let (chosen, probed) = run_selection(&providers, &|p| p == Providers::Dnf);
    assert_eq!(chosen.unwrap(), Providers::Dnf);
    assert_eq!(probed, vec![Providers::Dnf]);
}

#[test]
fn no_provider_available() {
    let providers = vec![Providers::Yum];
    let (chosen, probed) = run_selection(&providers, &|_| false);
    match chosen {
        Err(Error::Generic(m)) => assert_eq!(m, "No package providers are available"),
        _ => panic!("expected no provider"),
    }
    assert_eq!(probed, vec![Providers::Yum]);
    let (chosen, probed) = run_selection(&vec![], &|_| true);
    assert!(matches!(chosen, Err(Error::Generic(_))));
    assert!(probed.is_empty());
}

#[test]
fn platform_preferences() {
    assert_eq!(preferred(Platform::Redhat), vec![Providers::Yum]);
    assert_eq!(preferred(Platform::Fedora), vec![Providers::Dnf, Providers::Yum]);
    assert_eq!(preferred(Platform::Macos), vec![Providers::Homebrew, Providers::Macports]);
}

fn cmd(step: ServiceStep) -> Option<String> {
    match step {
        ServiceStep::CheckStatus(c) => Some(format!("check {}", c)),
        ServiceStep::Run(c) => Some(format!("run {}", c)),
        ServiceStep::NoAction => None,
    }
}

#[test]
fn start_twice_runs_start_once() {
    let tool = "/usr/sbin/service";
    let mut running = false;
    let mut starts = 0;
    for _ in 0..2 {
        let first = service_action(tool, "nginx", "start", None);
        assert_eq!(cmd(first).unwrap(), "check /usr/sbin/service nginx status");
        let status = if running { 0 } else { 3 };
        match service_action(tool, "nginx", "start", Some(status)) {
            ServiceStep::Run(c) => {
                assert_eq!(c, "/usr/sbin/service nginx start");
                starts += 1;
                running = true;
            }
            ServiceStep::NoAction => {}
            ServiceStep::CheckStatus(_) => panic!("checked twice"),
        }
    }
    assert_eq!(starts, 1);
}

#[test]
fn stop_and_other_actions() {
    let tool = "/sbin/service";
    assert!(cmd(service_action(tool, "sshd", "stop", Some(3))).is_none());
    assert_eq!(cmd(service_action(tool, "sshd", "stop", Some(0))).unwrap(), "run /sbin/service sshd stop");
    assert_eq!(cmd(service_action(tool, "sshd", "restart", None)).unwrap(), "run /sbin/service sshd restart");
    assert_eq!(cmd(service_action(tool, "sshd", "restart", Some(0))).unwrap(), "run /sbin/service sshd restart");
}

#[test]
fn target_resolution() {
    assert_eq!(Target::resolve("linux", "redhat").unwrap().platform, Platform::Redhat);
    assert_eq!(Target::resolve("linux", "ubuntu").unwrap().platform, Platform::Ubuntu);
    assert_eq!(Target::resolve("macos", "").unwrap().platform, Platform::Macos);
    assert_eq!(Target::resolve("freebsd", "x").unwrap().platform, Platform::Freebsd);
    assert!(matches!(Target::resolve("linux", "gentoo"), Err(Error::Generic(_))));
    assert!(matches!(Target::resolve("windows", ""), Err(Error::Generic(_))));
    assert!(Host::<()>::local("plan9", "").is_err());
}

#[test]
fn layers_for_operations() {
    let redhat = Target { platform: Platform::Redhat };
    assert_eq!(redhat.chain(), vec![Layer::Platform(Platform::Redhat), Layer::Family(OsFamily::Linux), Layer::Default]);
    assert_eq!(redhat.layer_for(Operation::CommandExec), Layer::Default);
    assert_eq!(redhat.layer_for(Operation::FileGetOwner), Layer::Family(OsFamily::Linux));
    assert_eq!(redhat.layer_for(Operation::ServiceAction), Layer::Platform(Platform::Redhat));
    assert_eq!(redhat.layer_for(Operation::PackageDefaultProvider), Layer::Platform(Platform::Redhat));
    let debian = Target { platform: Platform::Debian };
    assert_eq!(debian.layer_for(Operation::ServiceAction), Layer::Family(OsFamily::Linux));
    let mac = Target { platform: Platform::Macos };
    assert_eq!(mac.layer_for(Operation::ServiceAction), Layer::Default);
    assert_eq!(mac.layer_for(Operation::TelemetryInit), Layer::Platform(Platform::Macos));
}
