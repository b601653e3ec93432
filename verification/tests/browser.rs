use circle_to_search::browser::{fallback, fallback_len, open_browser, LaunchAction, LaunchPhase, Platform};
use circle_to_search::command::CommandLine;

const URL: &str = "https://lens.google.com/uploadbyurl?url=abc123";

fn command(program: &str, args: &[&str]) -> CommandLine {
    CommandLine { program: program.to_string(), args: args.iter().map(|a| a.to_string()).collect() }
}

fn spawn(program: &str, args: &[&str]) -> LaunchAction {
    LaunchAction::Spawn { command: command(program, args) }
}

const EXHAUSTED: &str = "Could not open browser with any known command";

#[test]
fn default_handler_is_tried_first() {
    let launcher = open_browser(URL, Platform::Linux);
    assert_eq!(launcher.phase(), LaunchPhase::Trying { attempt: 0 });
    assert_eq!(launcher.pending_action(), LaunchAction::OpenDefault { url: URL.to_string() });
}

#[test]
fn default_handler_that_starts_ends_the_chain() {
    let mut launcher = open_browser(URL, Platform::Linux);
    assert_eq!(launcher.step(true), LaunchAction::Finish { result: Ok(()) });
    assert_eq!(launcher.phase(), LaunchPhase::Opened);
}

#[test]
fn second_candidate_succeeds_and_nothing_follows() {
    let mut launcher = open_browser(URL, Platform::Linux);
    let mut invoked: Vec<LaunchAction> = vec![launcher.pending_action()];
    // The default handler fails, the first candidate fails, the second starts.
    let reports = [false, false, true];
    let mut last = launcher.pending_action();
    for report in reports {
        last = launcher.step(report);
        if let LaunchAction::Finish { .. } = last {
            break;
        }
        invoked.push(launcher.pending_action());
    }
    assert_eq!(
        invoked,
        vec![
            LaunchAction::OpenDefault { url: URL.to_string() },
            spawn("xdg-open", &[URL]),
            spawn("google-chrome", &[URL]),
        ]
    );
    assert_eq!(last, LaunchAction::Finish { result: Ok(()) });
    // Whatever is reported later, no command is named again.
    assert_eq!(launcher.step(false), LaunchAction::Finish { result: Ok(()) });
    assert_eq!(launcher.step(true), LaunchAction::Finish { result: Ok(()) });
    assert_eq!(launcher.pending_action(), LaunchAction::Finish { result: Ok(()) });
}

#[test]
fn linux_candidates_in_order() {
    let mut launcher = open_browser(URL, Platform::Linux);
    assert_eq!(launcher.step(false), spawn("xdg-open", &[URL]));
    assert_eq!(launcher.step(false), spawn("google-chrome", &[URL]));
    assert_eq!(launcher.step(false), spawn("firefox", &[URL]));
    assert_eq!(launcher.step(false), spawn("chromium", &[URL]));
    assert_eq!(launcher.step(false), spawn("brave", &[URL]));
    assert_eq!(launcher.phase(), LaunchPhase::Trying { attempt: 5 });
    assert_eq!(launcher.step(false), LaunchAction::Finish { result: Err(EXHAUSTED.to_string()) });
    assert_eq!(launcher.phase(), LaunchPhase::Exhausted);
    assert_eq!(launcher.step(true), LaunchAction::Finish { result: Err(EXHAUSTED.to_string()) });
}

#[test]
fn last_linux_candidate_can_still_succeed() {
    let mut launcher = open_browser(URL, Platform::Linux);
    for _ in 0..5 {
        launcher.step(false);
    }
    assert_eq!(launcher.pending_action(), spawn("brave", &[URL]));
    assert_eq!(launcher.step(true), LaunchAction::Finish { result: Ok(()) });
}

#[test]
fn windows_falls_back_to_the_shell() {
    let mut launcher = open_browser(URL, Platform::Windows);
    assert_eq!(launcher.step(false), spawn("cmd", &["/c", "start", URL]));
    assert_eq!(launcher.step(false), LaunchAction::Finish { result: Err(EXHAUSTED.to_string()) });
}

#[test]
fn macos_falls_back_to_open() {
    let mut launcher = open_browser(URL, Platform::MacOs);
    assert_eq!(launcher.step(false), spawn("open", &[URL]));
    assert_eq!(launcher.step(true), LaunchAction::Finish { result: Ok(()) });
}

#[test]
fn unknown_platform_has_no_fallback() {
    let mut launcher = open_browser(URL, Platform::Other);
    assert_eq!(launcher.pending_action(), LaunchAction::OpenDefault { url: URL.to_string() });
    assert_eq!(launcher.step(false), LaunchAction::Finish { result: Err(EXHAUSTED.to_string()) });
}

#[test]
fn fallback_lists() {
    assert_eq!(fallback_len(Platform::Linux), 5);
    assert_eq!(fallback_len(Platform::Windows), 1);
    assert_eq!(fallback_len(Platform::MacOs), 1);
    assert_eq!(fallback_len(Platform::Other), 0);
    assert_eq!(fallback(Platform::Linux, 0, "u"), command("xdg-open", &["u"]));
    assert_eq!(fallback(Platform::Linux, 2, "u"), command("firefox", &["u"]));
    assert_eq!(fallback(Platform::Linux, 4, "u"), command("brave", &["u"]));
    assert_eq!(fallback(Platform::Windows, 0, "u"), command("cmd", &["/c", "start", "u"]));
    assert_eq!(fallback(Platform::MacOs, 0, "u"), command("open", &["u"]));
}

#[test]
fn command_line_builder() {
    let built = CommandLine::new("grim").arg("-o").arg("DP-1");
    assert_eq!(built, command("grim", &["-o", "DP-1"]));
    assert_eq!(CommandLine::new("open"), command("open", &[]));
}
