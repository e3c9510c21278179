//! The two commands, what each asks of the host, and what each replies.
//!
//! A command is carried out in two steps with the host in between. First the
//! command says what is to happen on the given platform ([`Command::plan`]):
//! either a program is to be started, or the command is refused outright.
//! The host asks the operating system to create the process and reports the
//! [`SpawnOutcome`]; from that the command forms its reply
//! ([`Command::reply`]). [`Command::invoke`] runs both steps around a
//! spawner supplied by the host.

use vstd::prelude::*;
use crate::platform::Platform;

verus! {

/// A command the front end can issue.
#[derive(Clone, Debug, PartialEq, Eq)]
pub enum Command {
    /// Open the scanner panel that ships with the operating system.
    OpenScannerUi,
    /// Start the scanner program found at `path`.
    SpawnScannerApp { path: String },
}

/// Mathematical view of a [`Command`].
pub enum CommandView {
    OpenScannerUi,
    SpawnScannerApp { path: Seq<char> },
}

impl View for Command {
    type V = CommandView;

    open spec fn view(&self) -> CommandView {
        match *self {
            Command::OpenScannerUi => CommandView::OpenScannerUi,
            Command::SpawnScannerApp { path } => CommandView::SpawnScannerApp { path: path@ },
        }
    }
}

/// What the operating system reported about one request to create a process.
#[derive(Clone, Debug, PartialEq, Eq)]
pub enum SpawnOutcome {
    /// The process was created. How it fares afterwards is not observed.
    Created,
    /// No process was created; `os_error` is the operating system's message.
    Failed { os_error: String },
}

/// Mathematical view of a [`SpawnOutcome`].
pub enum SpawnOutcomeView {
    Created,
    Failed { os_error: Seq<char> },
}

impl View for SpawnOutcome {
    type V = SpawnOutcomeView;

    open spec fn view(&self) -> SpawnOutcomeView {
        match *self {
            SpawnOutcome::Created => SpawnOutcomeView::Created,
            SpawnOutcome::Failed { os_error } => SpawnOutcomeView::Failed { os_error: os_error@ },
        }
    }
}

/// What a command asks of the host.
#[derive(Clone, Debug, PartialEq, Eq)]
pub enum Plan {
    /// Ask the operating system to start `program`, with no arguments and
    /// without waiting for it, then report the outcome.
    Spawn { program: String },
    /// Start nothing; the command fails with `message`.
    Refuse { message: String },
}

/// Mathematical view of a [`Plan`].
pub enum PlanView {
    Spawn { program: Seq<char> },
    Refuse { message: Seq<char> },
}

impl View for Plan {
    type V = PlanView;

    open spec fn view(&self) -> PlanView {
        match *self {
            Plan::Spawn { program } => PlanView::Spawn { program: program@ },
            Plan::Refuse { message } => PlanView::Refuse { message: message@ },
        }
    }
}

/// The reply to the front end as text: success text or failure text.
pub open spec fn reply_view(reply: Result<String, String>) -> Result<Seq<char>, Seq<char>> {
    match reply {
        Ok(text) => Ok(text@),
        Err(text) => Err(text@),
    }
}

impl CommandView {
    /// The program the command wants started. The system panel has a fixed
    /// name that the operating system resolves; a scanner program is started
    /// from the path exactly as given.
    pub open spec fn target(self) -> Seq<char> {
        match self {
            CommandView::OpenScannerUi => "wiaacmgr.exe"@,
            CommandView::SpawnScannerApp { path } => path,
        }
    }

    /// The reply when the process was created.
    pub open spec fn success_text(self) -> Seq<char> {
        match self {
            CommandView::OpenScannerUi => "opened"@,
            CommandView::SpawnScannerApp { .. } => "spawned"@,
        }
    }

    /// The error on a platform where nothing is launched.
    pub open spec fn unsupported_text(self) -> Seq<char> {
        match self {
            CommandView::OpenScannerUi => "Scanner UI launch not supported on this OS"@,
            CommandView::SpawnScannerApp { .. } => "Not supported on this OS"@,
        }
    }

    /// What precedes the operating system's message in the error for a
    /// process that could not be created.
    pub open spec fn failure_prefix(self) -> Seq<char> {
        match self {
            CommandView::OpenScannerUi => "Failed to open scanner UI: "@,
            CommandView::SpawnScannerApp { .. } => "Failed to spawn scanner app: "@,
        }
    }

    /// The error for a process that could not be created: the command's
    /// prefix followed by the operating system's message, unchanged.
    pub open spec fn failure_text(self, os_error: Seq<char>) -> Seq<char> {
        self.failure_prefix() + os_error
    }

    /// What the command asks of the host on `platform`.
    pub open spec fn plan(self, platform: Platform) -> PlanView {
        if platform.supports_launch() {
            PlanView::Spawn { program: self.target() }
        } else {
            PlanView::Refuse { message: self.unsupported_text() }
        }
    }

    /// The reply once the host has reported `outcome`.
    pub open spec fn reply(self, outcome: SpawnOutcomeView) -> Result<Seq<char>, Seq<char>> {
        match outcome {
            SpawnOutcomeView::Created => Ok(self.success_text()),
            SpawnOutcomeView::Failed { os_error } => Err(self.failure_text(os_error)),
        }
    }
}

impl Command {
    /// The program the command wants started.
    pub fn target(&self) -> (program: String)
        ensures
            program@ == self@.target(),
    {
        match self {
            Command::OpenScannerUi => String::from_str("wiaacmgr.exe"),
            Command::SpawnScannerApp { path } => path.clone(),
        }
    }

    /// Decides what is to happen on `platform`. Where launching is offered,
    /// the target is handed on as it is: nothing about it is checked here,
    /// the operating system is the only judge of it. Elsewhere the command
    /// is refused and no program is named.
    pub fn plan(&self, platform: Platform) -> (plan: Plan)
        ensures
            plan@ == self@.plan(platform),
    {
        if platform.can_launch() {
            Plan::Spawn { program: self.target() }
        } else {
            match self {
                Command::OpenScannerUi => Plan::Refuse {
                    message: String::from_str("Scanner UI launch not supported on this OS"),
                },
                Command::SpawnScannerApp { .. } => Plan::Refuse {
                    message: String::from_str("Not supported on this OS"),
                },
            }
        }
    }

    /// Forms the reply from what the operating system reported. A created
    /// process is a success at once; a failure carries the operating
    /// system's message after the command's prefix.
    pub fn reply(&self, outcome: SpawnOutcome) -> (reply: Result<String, String>)
        ensures
            reply_view(reply) == self@.reply(outcome@),
    {
        match outcome {
            SpawnOutcome::Created => match self {
                Command::OpenScannerUi => Ok(String::from_str("opened")),
                Command::SpawnScannerApp { .. } => Ok(String::from_str("spawned")),
            },
            SpawnOutcome::Failed { os_error } => {
                let prefix = match self {
                    Command::OpenScannerUi => String::from_str("Failed to open scanner UI: "),
                    Command::SpawnScannerApp { .. } => String::from_str(
                        "Failed to spawn scanner app: ",
                    ),
                };
                Err(prefix.concat(os_error.as_str()))
            },
        }
    }
}

/// Whether `spawn` may be asked to start what `command` plans on `platform`.
/// Nothing is asked of `spawn` where launching is not offered, nor for any
/// program but the command's target: whoever holds only this permission has
/// no way to call `spawn` there.
pub open spec fn may_carry_out<F: FnOnce(String) -> SpawnOutcome>(
    command: CommandView,
    platform: Platform,
    spawn: F,
) -> bool {
    platform.supports_launch() ==> forall|handed: String|
        handed@ == command.target() ==> #[trigger] spawn.requires((handed,))
}

/// Whether `reply` is what `command` owes on `platform` when the host starts
/// programs through `spawn`: the refusal where nothing is launched, and
/// otherwise the reply to an outcome that `spawn` reported for the command's
/// target.
pub open spec fn carried_out<F: FnOnce(String) -> SpawnOutcome>(
    command: CommandView,
    platform: Platform,
    spawn: F,
    reply: Result<String, String>,
) -> bool {
    match command.plan(platform) {
        PlanView::Refuse { message } => reply_view(reply) == Err::<Seq<char>, Seq<char>>(message),
        PlanView::Spawn { program } => exists|handed: String, outcome: SpawnOutcome|
            {
                &&& handed@ == program
                &&& #[trigger] spawn.ensures((handed,), outcome)
                &&& reply_view(reply) == command.reply(outcome@)
            },
    }
}

impl Command {
    /// Carries the command out from start to finish. `spawn` is the host's
    /// way of asking the operating system to create a process from a
    /// program and of reporting what came of it. Where launching is offered
    /// it is handed the command's target, and the reply is formed from what
    /// it reports, whatever that is. Elsewhere the command is refused
    /// without `spawn` being consulted: the precondition grants no call
    /// there, so the body could not make one.
    pub fn invoke<F: FnOnce(String) -> SpawnOutcome>(
        &self,
        platform: Platform,
        spawn: F,
    ) -> (reply: Result<String, String>)
        requires
            may_carry_out(self@, platform, spawn),
        ensures
            carried_out(self@, platform, spawn, reply),
    {
        match self.plan(platform) {
            Plan::Refuse { message } => Err(message),
            Plan::Spawn { program } => {
                let outcome = spawn(program);
                self.reply(outcome)
            },
        }
    }
}

/// The command that opens the scanner panel of the operating system:
/// [`Command::OpenScannerUi`], carried out through `spawn`.
pub fn open_scanner_ui<F: FnOnce(String) -> SpawnOutcome>(
    platform: Platform,
    spawn: F,
) -> (reply: Result<String, String>)
    requires
        may_carry_out(CommandView::OpenScannerUi, platform, spawn),
    ensures
        carried_out(CommandView::OpenScannerUi, platform, spawn, reply),
{
    Command::OpenScannerUi.invoke(platform, spawn)
}

/// The command that starts the scanner program found at `path`:
/// [`Command::SpawnScannerApp`], carried out through `spawn`.
pub fn spawn_scanner_app<F: FnOnce(String) -> SpawnOutcome>(
    path: String,
    platform: Platform,
    spawn: F,
) -> (reply: Result<String, String>)
    requires
        may_carry_out((CommandView::SpawnScannerApp { path: path@ }), platform, spawn),
    ensures
        carried_out((CommandView::SpawnScannerApp { path: path@ }), platform, spawn, reply),
{
    Command::SpawnScannerApp { path }.invoke(platform, spawn)
}

} // verus!
