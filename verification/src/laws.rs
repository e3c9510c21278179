//! What holds of every invocation of a command, proved from the definitions
//! in [`crate::command`].

use vstd::prelude::*;
use crate::command::{carried_out, reply_view, CommandView, PlanView, SpawnOutcome, SpawnOutcomeView};
use crate::platform::Platform;

verus! {

/// Whether every outcome that `spawn` can report for `program` is `report`:
/// the operating system, in its present state, answers a request to start
/// `program` in this one way.
pub open spec fn reports<F: FnOnce(String) -> SpawnOutcome>(
    spawn: F,
    program: Seq<char>,
    report: SpawnOutcomeView,
) -> bool {
    forall|handed: String, outcome: SpawnOutcome|
        handed@ == program && #[trigger] spawn.ensures((handed,), outcome) ==> outcome@ == report
}

/// Where launching is offered, a command succeeds whenever the operating
/// system reports that the process was created: the reply is the command's
/// success text, whatever the target is.
pub proof fn lemma_created_process_succeeds<F: FnOnce(String) -> SpawnOutcome>(
    command: CommandView,
    platform: Platform,
    spawn: F,
    reply: Result<String, String>,
)
    requires
        platform.supports_launch(),
        reports(spawn, command.target(), SpawnOutcomeView::Created),
        carried_out(command, platform, spawn, reply),
    ensures
        command.plan(platform) == (PlanView::Spawn { program: command.target() }),
        reply_view(reply) == Ok::<Seq<char>, Seq<char>>(command.success_text()),
{
}

/// Where launching is not offered, every command fails with its
/// unsupported-platform error. The plan names no program, so the host has
/// nothing to start, and the reply is the same whatever the host's spawner
/// would have done.
pub proof fn lemma_unsupported_platform_refuses<F: FnOnce(String) -> SpawnOutcome>(
    command: CommandView,
    platform: Platform,
    spawn: F,
    reply: Result<String, String>,
)
    requires
        !platform.supports_launch(),
        carried_out(command, platform, spawn, reply),
    ensures
        command.plan(platform) == (PlanView::Refuse { message: command.unsupported_text() }),
        reply_view(reply) == Err::<Seq<char>, Seq<char>>(command.unsupported_text()),
{
}

/// A process that could not be created is always a failure, and the failure
/// text ends with the operating system's message, character for character.
pub proof fn lemma_failure_carries_os_error(command: CommandView, os_error: Seq<char>)
    ensures
        command.reply((SpawnOutcomeView::Failed { os_error })) == Err::<Seq<char>, Seq<char>>(
            command.failure_text(os_error),
        ),
        command.failure_text(os_error).len() == command.failure_prefix().len() + os_error.len(),
        command.failure_text(os_error).subrange(
            command.failure_prefix().len() as int,
            command.failure_text(os_error).len() as int,
        ) == os_error,
{
    let text = command.failure_text(os_error);
    let start = command.failure_prefix().len() as int;
    assert(text.subrange(start, text.len() as int) =~= os_error);
}

/// Nothing is kept from one invocation to the next. Two invocations of the
/// same command on the same platform, during which the operating system
/// answers a request to start the target in the same way, give the same
/// reply; the order in which they happen plays no part.
pub proof fn lemma_invocations_independent<
    F: FnOnce(String) -> SpawnOutcome,
    G: FnOnce(String) -> SpawnOutcome,
>(
    command: CommandView,
    platform: Platform,
    report: SpawnOutcomeView,
    first_spawn: F,
    first_reply: Result<String, String>,
    second_spawn: G,
    second_reply: Result<String, String>,
)
    requires
        reports(first_spawn, command.target(), report),
        reports(second_spawn, command.target(), report),
        carried_out(command, platform, first_spawn, first_reply),
        carried_out(command, platform, second_spawn, second_reply),
    ensures
        reply_view(first_reply) == reply_view(second_reply),
{
}

/// The two kinds of error never read the same: no operating-system message
/// turns a failure text into the command's unsupported-platform error.
pub proof fn lemma_error_kinds_differ(command: CommandView, os_error: Seq<char>)
    ensures
        command.failure_text(os_error) != command.unsupported_text(),
{
    reveal_strlit("Failed to open scanner UI: ");
    reveal_strlit("Failed to spawn scanner app: ");
    reveal_strlit("Scanner UI launch not supported on this OS");
    reveal_strlit("Not supported on this OS");
    assert(command.failure_text(os_error)[0] == 'F');
    assert(command.unsupported_text()[0] != 'F');
}

} // verus!
