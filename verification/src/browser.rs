//! Opening an address in a browser: the default handler first, then a list of known
//! commands, until one starts.
//!
//! The launcher starts nothing itself. It names the next thing to try; the caller tries it
//! and reports whether it started.

use vstd::prelude::*;
use crate::command::{CommandLine, CommandLineModel};
use crate::text::outcome_view;

verus! {

/// The operating system, which decides the commands that are tried after the default handler.
#[derive(Clone, Copy, Debug, PartialEq, Eq, Structural)]
pub enum Platform {
    Linux,
    Windows,
    MacOs,
    /// A system for which no fallback command is known.
    Other,
}

/// Where the launcher stands.
#[derive(Clone, Copy, Debug, PartialEq, Eq, Structural)]
pub enum LaunchPhase {
    /// An attempt is under way. Attempt 0 is the default handler; attempt `k` above 0 is
    /// the fallback command with index `k - 1`.
    Trying { attempt: usize },
    /// An attempt started the browser.
    Opened,
    /// Every attempt failed.
    Exhausted,
}

/// What the caller does next.
#[derive(Debug, PartialEq, Eq)]
pub enum LaunchAction {
    /// Open the address with the system's default handler.
    OpenDefault { url: String },
    /// Start this command.
    Spawn { command: CommandLine },
    /// Stop, with this result.
    Finish { result: Result<(), String> },
}

/// An action as texts.
pub enum LaunchActionModel {
    OpenDefault { url: Seq<char> },
    Spawn { command: CommandLineModel },
    Finish { result: Result<(), Seq<char>> },
}

impl View for LaunchAction {
    type V = LaunchActionModel;

    open spec fn view(&self) -> LaunchActionModel {
        match *self {
            LaunchAction::OpenDefault { url } => LaunchActionModel::OpenDefault { url: url@ },
            LaunchAction::Spawn { command } => LaunchActionModel::Spawn { command: command@ },
            LaunchAction::Finish { result } => LaunchActionModel::Finish {
                result: outcome_view(result),
            },
        }
    }
}

/// The error of a launcher that has tried everything.
pub open spec fn exhausted_message() -> Seq<char> {
    "Could not open browser with any known command"@
}

/// The number of fallback commands on a platform.
pub open spec fn fallback_count(platform: Platform) -> int {
    match platform {
        Platform::Linux => 5,
        Platform::Windows => 1,
        Platform::MacOs => 1,
        Platform::Other => 0,
    }
}

/// The programs tried on Linux, in order of priority.
pub open spec fn linux_program(index: int) -> Seq<char> {
    if index == 0 {
        "xdg-open"@
    } else if index == 1 {
        "google-chrome"@
    } else if index == 2 {
        "firefox"@
    } else if index == 3 {
        "chromium"@
    } else {
        "brave"@
    }
}

/// The fallback command with the given index, for `0 <= index < fallback_count(platform)`.
pub open spec fn fallback_command(platform: Platform, index: int, url: Seq<char>) -> CommandLineModel {
    match platform {
        Platform::Windows => CommandLineModel {
            program: "cmd"@,
            args: seq!["/c"@, "start"@, url],
        },
        Platform::MacOs => CommandLineModel { program: "open"@, args: seq![url] },
        _ => CommandLineModel { program: linux_program(index), args: seq![url] },
    }
}

/// A launcher as plain values.
pub struct LauncherModel {
    pub url: Seq<char>,
    pub platform: Platform,
    pub phase: LaunchPhase,
}

impl LauncherModel {
    /// The launcher before anything was tried.
    pub open spec fn start(url: Seq<char>, platform: Platform) -> LauncherModel {
        LauncherModel { url, platform, phase: LaunchPhase::Trying { attempt: 0 } }
    }

    /// The launcher after the attempt under way has started the browser or failed. The first
    /// success ends the chain; a failure moves on to the next command, or ends the chain
    /// when none is left. A launcher that has ended does not change.
    pub open spec fn next(self, started: bool) -> LauncherModel {
        match self.phase {
            LaunchPhase::Trying { attempt } => if started {
                LauncherModel { phase: LaunchPhase::Opened, ..self }
            } else if attempt < fallback_count(self.platform) {
                LauncherModel {
                    phase: LaunchPhase::Trying { attempt: (attempt + 1) as usize },
                    ..self
                }
            } else {
                LauncherModel { phase: LaunchPhase::Exhausted, ..self }
            },
            _ => self,
        }
    }

    /// What the caller is to do in this state.
    pub open spec fn pending(self) -> LaunchActionModel {
        match self.phase {
            LaunchPhase::Trying { attempt } => if attempt == 0 {
                LaunchActionModel::OpenDefault { url: self.url }
            } else {
                LaunchActionModel::Spawn {
                    command: fallback_command(self.platform, attempt - 1, self.url),
                }
            },
            LaunchPhase::Opened => LaunchActionModel::Finish { result: Ok(()) },
            LaunchPhase::Exhausted => LaunchActionModel::Finish {
                result: Err(exhausted_message()),
            },
        }
    }

    /// The launcher after a run of reports, the first of them first.
    pub open spec fn after(self, reports: Seq<bool>) -> LauncherModel
        decreases reports.len(),
    {
        if reports.len() == 0 {
            self
        } else {
            self.after(reports.drop_last()).next(reports.last())
        }
    }
}

/// A run of `count` failures.
pub open spec fn failures(count: int) -> Seq<bool> {
    Seq::new(count as nat, |i: int| false)
}

/// Tries the ways of opening an address one after another.
pub struct BrowserLauncher {
    url: String,
    platform: Platform,
    phase: LaunchPhase,
}

impl View for BrowserLauncher {
    type V = LauncherModel;

    closed spec fn view(&self) -> LauncherModel {
        LauncherModel { url: self.url@, platform: self.platform, phase: self.phase }
    }
}

/// A launcher for `url` that has tried nothing yet: the default handler is up next.
pub fn open_browser(url: &str, platform: Platform) -> (launcher: BrowserLauncher)
    ensures
        launcher@ == LauncherModel::start(url@, platform),
{
    BrowserLauncher {
        url: String::from_str(url),
        platform,
        phase: LaunchPhase::Trying { attempt: 0 },
    }
}

/// The number of fallback commands on a platform.
pub fn fallback_len(platform: Platform) -> (count: usize)
    ensures
        count == fallback_count(platform),
{
    match platform {
        Platform::Linux => 5,
        Platform::Windows => 1,
        Platform::MacOs => 1,
        Platform::Other => 0,
    }
}

/// The fallback command with the given index on a platform, for an address.
pub fn fallback(platform: Platform, index: usize, url: &str) -> (command: CommandLine)
    ensures
        command@ == fallback_command(platform, index as int, url@),
{
    let command = match platform {
        Platform::Windows => CommandLine::new("cmd").arg("/c").arg("start").arg(url),
        Platform::MacOs => CommandLine::new("open").arg(url),
        _ => {
            let program = if index == 0 {
                "xdg-open"
            } else if index == 1 {
                "google-chrome"
            } else if index == 2 {
                "firefox"
            } else if index == 3 {
                "chromium"
            } else {
                "brave"
            };
            CommandLine::new(program).arg(url)
        },
    };
    assert(command@.args =~= fallback_command(platform, index as int, url@).args);
    command
}

impl BrowserLauncher {
    /// Where the launcher stands.
    pub fn phase(&self) -> (phase: LaunchPhase)
        ensures
            phase == self@.phase,
    {
        self.phase
    }

    /// What the caller is to do now.
    pub fn pending_action(&self) -> (action: LaunchAction)
        ensures
            action@ == self@.pending(),
    {
        match self.phase {
            LaunchPhase::Trying { attempt } => {
                if attempt == 0 {
                    LaunchAction::OpenDefault { url: self.url.clone() }
                } else {
                    LaunchAction::Spawn {
                        command: fallback(self.platform, attempt - 1, self.url.as_str()),
                    }
                }
            },
            LaunchPhase::Opened => LaunchAction::Finish { result: Ok(()) },
            LaunchPhase::Exhausted => LaunchAction::Finish {
                result: Err(String::from_str("Could not open browser with any known command")),
            },
        }
    }

    /// Takes the report on the attempt under way and names what to do next.
    ///
    /// After a success the launcher is done and the result is `Ok`. After a failure the next
    /// fallback command of the platform is up; when the last one has failed the launcher is
    /// done with the error "Could not open browser with any known command". A report to a
    /// launcher that is done changes nothing.
    pub fn step(&mut self, started: bool) -> (action: LaunchAction)
        ensures
            final(self)@ == old(self)@.next(started),
            action@ == final(self)@.pending(),
    {
        if let LaunchPhase::Trying { attempt } = self.phase {
            if started {
                self.phase = LaunchPhase::Opened;
            } else if attempt < fallback_len(self.platform) {
                self.phase = LaunchPhase::Trying { attempt: attempt + 1 };
            } else {
                self.phase = LaunchPhase::Exhausted;
            }
        }
        self.pending_action()
    }
}

/// A launcher that has opened the browser stays so whatever is reported to it.
pub proof fn lemma_opened_is_final(launcher: LauncherModel, reports: Seq<bool>)
    requires
        launcher.phase == LaunchPhase::Opened,
    ensures
        launcher.after(reports) == launcher,
    decreases reports.len(),
{
    if reports.len() > 0 {
        lemma_opened_is_final(launcher, reports.drop_last());
    }
}

/// After the default handler and the first `count - 1` fallback commands have failed, the
/// fallback command with index `count - 1` is the one to try.
pub proof fn lemma_failures_walk_the_list(url: Seq<char>, platform: Platform, count: int)
    requires
        0 <= count <= fallback_count(platform),
    ensures
        LauncherModel::start(url, platform).after(failures(count)).phase == (LaunchPhase::Trying {
            attempt: count as usize,
        }),
        LauncherModel::start(url, platform).after(failures(count)).url == url,
        LauncherModel::start(url, platform).after(failures(count)).platform == platform,
        count == 0 ==> LauncherModel::start(url, platform).after(failures(count)).pending() == (
        LaunchActionModel::OpenDefault { url }),
        count > 0 ==> LauncherModel::start(url, platform).after(failures(count)).pending() == (
        LaunchActionModel::Spawn { command: fallback_command(platform, count - 1, url) }),
    decreases count,
{
    if count > 0 {
        lemma_failures_walk_the_list(url, platform, count - 1);
        assert(failures(count).drop_last() =~= failures(count - 1));
    }
}

/// When the default handler fails and the fallback command with index `winner` is the first
/// to start, the launcher has named the commands with indices `0..=winner` in order, each
/// after the failure of the one before, it ends with success, and whatever is reported
/// afterwards it names no further command.
pub proof fn lemma_first_success_ends_the_chain(
    url: Seq<char>,
    platform: Platform,
    winner: int,
    later: Seq<bool>,
)
    requires
        0 <= winner < fallback_count(platform),
    ensures
        forall|k: int|
            0 <= k <= winner ==> #[trigger] LauncherModel::start(url, platform).after(
                failures(k + 1),
            ).pending() == (LaunchActionModel::Spawn {
                command: fallback_command(platform, k, url),
            }),
        LauncherModel::start(url, platform).after(failures(winner + 1)).next(true).pending() == (
        LaunchActionModel::Finish { result: Ok(()) }),
        LauncherModel::start(url, platform).after(failures(winner + 1)).next(true).after(
            later,
        ).pending() == (LaunchActionModel::Finish { result: Ok(()) }),
{
    assert forall|k: int| 0 <= k <= winner implies #[trigger] LauncherModel::start(
        url,
        platform,
    ).after(failures(k + 1)).pending() == (LaunchActionModel::Spawn {
        command: fallback_command(platform, k, url),
    }) by {
        lemma_failures_walk_the_list(url, platform, k + 1);
    }
    lemma_failures_walk_the_list(url, platform, winner + 1);
    let done = LauncherModel::start(url, platform).after(failures(winner + 1)).next(true);
    lemma_opened_is_final(done, later);
}

/// When the default handler and every fallback command fail, the launcher ends with the
/// error that nothing could open the browser; when the default handler starts, it ends with
/// success at once.
pub proof fn lemma_chain_ends(url: Seq<char>, platform: Platform)
    ensures
        LauncherModel::start(url, platform).after(
            failures(fallback_count(platform) + 1),
        ).pending() == (LaunchActionModel::Finish { result: Err(exhausted_message()) }),
        LauncherModel::start(url, platform).next(true).pending() == (LaunchActionModel::Finish {
            result: Ok(()),
        }),
{
    let n = fallback_count(platform);
    lemma_failures_walk_the_list(url, platform, n);
    assert(failures(n + 1).drop_last() =~= failures(n));
}

} // verus!
