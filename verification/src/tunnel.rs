//! The tunnel controller: which command brings a tunnel up or down, and what
//! is reported once the command has run. The host runs the command.

use crate::gui::WireGui;
use vstd::prelude::*;

verus! {

/// How the run of a command ended.
#[derive(Clone, Copy, Debug, PartialEq, Eq)]
pub enum RunOutcome {
    /// The command ran and exited with status zero.
    Succeeded,
    /// The command ran and exited with another status.
    Failed,
    /// The command could not be run at all.
    NotExecuted,
}

/// The program that brings tunnels up and down.
pub open spec fn tool() -> Seq<char> {
    "wg-quick"@
}

/// The command that brings the tunnel `interface` up: the program, then its
/// arguments.
pub open spec fn start_command(interface: Seq<char>) -> Seq<Seq<char>> {
    seq![tool(), "up"@, interface]
}

/// The command that brings the tunnel `interface` down: the program, then
/// its arguments.
pub open spec fn stop_command(interface: Seq<char>) -> Seq<Seq<char>> {
    seq![tool(), "down"@, interface]
}

/// The line reported after an attempt to bring `interface` up.
pub open spec fn start_report(interface: Seq<char>, outcome: RunOutcome) -> Seq<char> {
    match outcome {
        RunOutcome::Succeeded => "Started wireguard on interface "@ + interface + "!"@,
        RunOutcome::Failed => "Fail to start wireguard on interface "@ + interface + "!"@,
        RunOutcome::NotExecuted => "Fail to execute start command!"@,
    }
}

/// The line reported after an attempt to bring `interface` down.
pub open spec fn stop_report(interface: Seq<char>, outcome: RunOutcome) -> Seq<char> {
    match outcome {
        RunOutcome::Succeeded => "Stopped wireguard on interface "@ + interface + "!"@,
        RunOutcome::Failed => "Fail to stop wireguard on interface "@ + interface + "!"@,
        RunOutcome::NotExecuted => "Fail to execute stop command!"@,
    }
}

/// Up and down are one program run two ways: the commands differ in the
/// verb alone, and each hands the interface over as a single argument, the
/// last, whatever it holds.
pub proof fn lemma_commands_differ_in_the_verb(interface: Seq<char>)
    ensures
        start_command(interface).len() == 3,
        stop_command(interface).len() == 3,
        start_command(interface)[0] == tool(),
        stop_command(interface)[0] == tool(),
        start_command(interface)[1] == "up"@,
        stop_command(interface)[1] == "down"@,
        start_command(interface)[2] == interface,
        stop_command(interface)[2] == interface,
        stop_command(interface) == start_command(interface).update(1, "down"@),
{
}

impl WireGui {
    /// The command to run for [`Effect::Start`](crate::gui::Effect::Start).
    pub fn start_command(interface: &str) -> (line: Vec<String>)
        ensures
            line.deep_view() == start_command(interface@),
    {
        let mut line: Vec<String> = Vec::new();
        line.push(String::from_str("wg-quick"));
        line.push(String::from_str("up"));
        line.push(String::from_str(interface));
        line
    }

    /// The command to run for [`Effect::Stop`](crate::gui::Effect::Stop).
    pub fn stop_command(interface: &str) -> (line: Vec<String>)
        ensures
            line.deep_view() == stop_command(interface@),
    {
        let mut line: Vec<String> = Vec::new();
        line.push(String::from_str("wg-quick"));
        line.push(String::from_str("down"));
        line.push(String::from_str(interface));
        line
    }

    /// The report on an attempt to bring `interface` up, ready to be handed
    /// back as [`Message::Console`](crate::gui::Message::Console). There is
    /// always one.
    pub fn start_wireguard(interface: String, outcome: RunOutcome) -> (report: Option<String>)
        ensures
            report.deep_view() == Some(start_report(interface@, outcome)),
    {
        match outcome {
            RunOutcome::Succeeded => {
                let mut out = String::from_str("Started wireguard on interface ");
                out.append(interface.as_str());
                out.append("!");
                Some(out)
            },
            RunOutcome::Failed => {
                let mut out = String::from_str("Fail to start wireguard on interface ");
                out.append(interface.as_str());
                out.append("!");
                Some(out)
            },
            RunOutcome::NotExecuted => Some(String::from_str("Fail to execute start command!")),
        }
    }

    /// The report on an attempt to bring `interface` down, ready to be
    /// handed back as [`Message::Console`](crate::gui::Message::Console).
    /// There is always one.
    pub fn stop_wireguard(interface: String, outcome: RunOutcome) -> (report: Option<String>)
        ensures
            report.deep_view() == Some(stop_report(interface@, outcome)),
    {
        match outcome {
            RunOutcome::Succeeded => {
                let mut out = String::from_str("Stopped wireguard on interface ");
                out.append(interface.as_str());
                out.append("!");
                Some(out)
            },
            RunOutcome::Failed => {
                let mut out = String::from_str("Fail to stop wireguard on interface ");
                out.append(interface.as_str());
                out.append("!");
                Some(out)
            },
            RunOutcome::NotExecuted => Some(String::from_str("Fail to execute stop command!")),
        }
    }
}

} // verus!
