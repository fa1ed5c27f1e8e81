//! Service actions through the `service` tool. Starting a running service and
//! stopping a stopped one are no-ops: the service's status is checked first,
//! and a zero exit status of that check is taken to mean "running".

use vstd::prelude::*;
use vstd::string::StringExecFns;
use crate::codec::same_text;

verus! {

/// What to do next for a service action.
#[derive(Debug, Clone)]
pub enum ServiceStep {
    /// Run this status check first and report its exit status.
    CheckStatus(String),
    /// Run this command; its result is the action's result.
    Run(String),
    /// Nothing to do: the service is already in the state asked for.
    NoAction,
}

/// A service step with its command as text.
pub enum ServiceStepView {
    CheckStatus(Seq<char>),
    Run(Seq<char>),
    NoAction,
}

pub open spec fn step_view(s: ServiceStep) -> ServiceStepView {
    match s {
        ServiceStep::CheckStatus(c) => ServiceStepView::CheckStatus(c@),
        ServiceStep::Run(c) => ServiceStepView::Run(c@),
        ServiceStep::NoAction => ServiceStepView::NoAction,
    }
}

/// The command line `<tool> <name> <verb>`.
pub open spec fn service_line(tool: Seq<char>, name: Seq<char>, verb: Seq<char>) -> Seq<char> {
    tool + " "@ + name + " "@ + verb
}

/// The next step of `action` on the service `name`, with `tool` the resolved
/// path of the service tool and `status` the exit status of the status check,
/// once it has run.
pub open spec fn service_step(
    tool: Seq<char>,
    name: Seq<char>,
    action: Seq<char>,
    status: Option<i32>,
) -> ServiceStepView {
    if action == "start"@ || action == "stop"@ {
        match status {
            None => ServiceStepView::CheckStatus(service_line(tool, name, "status"@)),
            Some(code) => if (code == 0 && action == "start"@) || (code != 0 && action == "stop"@) {
                ServiceStepView::NoAction
            } else {
                ServiceStepView::Run(service_line(tool, name, action))
            },
        }
    } else {
        ServiceStepView::Run(service_line(tool, name, action))
    }
}

fn line(tool: &str, name: &str, verb: &str) -> (r: String)
    ensures
        r@ == service_line(tool@, name@, verb@),
{
    String::from_str(tool).concat(" ").concat(name).concat(" ").concat(verb)
}

/// Decides the next step of `action` on the service `name`.
pub fn service_action(tool: &str, name: &str, action: &str, status: Option<i32>) -> (r: ServiceStep)
    ensures
        step_view(r) == service_step(tool@, name@, action@, status),
{
    let start = same_text(action, "start");
    let stop = same_text(action, "stop");
    if start || stop {
        match status {
            None => ServiceStep::CheckStatus(line(tool, name, "status")),
            Some(code) => {
                if (code == 0 && start) || (code != 0 && stop) {
                    ServiceStep::NoAction
                } else {
                    ServiceStep::Run(line(tool, name, action))
                }
            },
        }
    } else {
        ServiceStep::Run(line(tool, name, action))
    }
}

/// Starting a service checks its status first; once the check reports it
/// running, starting it again takes no action, so two starts in a row run the
/// start command at most once.
pub proof fn lemma_start_is_idempotent(tool: Seq<char>, name: Seq<char>, code: i32)
    ensures
        service_step(tool, name, "start"@, None) == ServiceStepView::CheckStatus(
            service_line(tool, name, "status"@),
        ),
        service_step(tool, name, "start"@, Some(0)) == ServiceStepView::NoAction,
        code != 0 ==> service_step(tool, name, "start"@, Some(code)) == ServiceStepView::Run(
            service_line(tool, name, "start"@),
        ),
{
    reveal_strlit("start");
    reveal_strlit("stop");
    assert("start"@.len() != "stop"@.len());
}

/// Stopping a stopped service takes no action.
pub proof fn lemma_stop_is_idempotent(tool: Seq<char>, name: Seq<char>, code: i32)
    requires
        code != 0,
    ensures
        service_step(tool, name, "stop"@, Some(code)) == ServiceStepView::NoAction,
{
    reveal_strlit("start");
    reveal_strlit("stop");
    assert("start"@.len() != "stop"@.len());
}

} // verus!
