use vstd::prelude::*;

use crate::process::{ManagedProcessId, Verb};

verus! {

/// What a tray menu item asks for.
#[derive(Clone, Copy, Debug, PartialEq, Eq, Structural)]
pub enum TrayCommand {
    ShowDashboard,
    HideDashboard,
    /// A lifecycle operation on one managed process.
    Lifecycle(ManagedProcessId, Verb),
    TailLogs,
    Quit,
    /// An item id that the tray does not know.
    Unknown,
}

/// The command behind each menu item id.
pub open spec fn tray_command_of(id: Seq<char>) -> TrayCommand {
    if id == "show"@ {
        TrayCommand::ShowDashboard
    } else if id == "hide"@ {
        TrayCommand::HideDashboard
    } else if id == "start_recording"@ {
        TrayCommand::Lifecycle(ManagedProcessId::AutotypeClient, Verb::Start)
    } else if id == "stop_recording"@ {
        TrayCommand::Lifecycle(ManagedProcessId::AutotypeClient, Verb::Stop)
    } else if id == "start_server"@ {
        TrayCommand::Lifecycle(ManagedProcessId::WhisperServer, Verb::Start)
    } else if id == "stop_server"@ {
        TrayCommand::Lifecycle(ManagedProcessId::WhisperServer, Verb::Stop)
    } else if id == "restart_server"@ {
        TrayCommand::Lifecycle(ManagedProcessId::WhisperServer, Verb::Restart)
    } else if id == "tail_logs"@ {
        TrayCommand::TailLogs
    } else if id == "quit"@ {
        TrayCommand::Quit
    } else {
        TrayCommand::Unknown
    }
}

fn text_is(s: &String, lit: &str) -> (r: bool)
    ensures
        r == (s@ == lit@),
{
    let l: String = lit.to_owned();
    s.eq(&l)
}

/// Resolves a menu item id to the command it stands for.
pub fn tray_command(id: &str) -> (r: TrayCommand)
    ensures
        r == tray_command_of(id@),
{
    let s: String = id.to_owned();
    if text_is(&s, "show") {
        TrayCommand::ShowDashboard
    } else if text_is(&s, "hide") {
        TrayCommand::HideDashboard
    } else if text_is(&s, "start_recording") {
        TrayCommand::Lifecycle(ManagedProcessId::AutotypeClient, Verb::Start)
    } else if text_is(&s, "stop_recording") {
        TrayCommand::Lifecycle(ManagedProcessId::AutotypeClient, Verb::Stop)
    } else if text_is(&s, "start_server") {
        TrayCommand::Lifecycle(ManagedProcessId::WhisperServer, Verb::Start)
    } else if text_is(&s, "stop_server") {
        TrayCommand::Lifecycle(ManagedProcessId::WhisperServer, Verb::Stop)
    } else if text_is(&s, "restart_server") {
        TrayCommand::Lifecycle(ManagedProcessId::WhisperServer, Verb::Restart)
    } else if text_is(&s, "tail_logs") {
        TrayCommand::TailLogs
    } else if text_is(&s, "quit") {
        TrayCommand::Quit
    } else {
        TrayCommand::Unknown
    }
}

} // verus!
