use circle_to_search::capture::{
    capture_screen, decode_monitor, decode_monitors, focused_outputs, outputs_of_reply, tool_invocation,
    CaptureAction, CaptureEvent, CapturePhase, Monitor,
};
use circle_to_search::command::CommandLine;

const DEST: &str = "/tmp/circle-to-search/capture.png";

fn command(program: &str, args: &[&str]) -> CommandLine {
    CommandLine { program: program.to_string(), args: args.iter().map(|a| a.to_string()).collect() }
}

fn run_tool(args: &[&str]) -> CaptureAction {
    CaptureAction::RunTool { command: command("grim", args) }
}

fn reply(text: &str) -> CaptureEvent {
    CaptureEvent::MonitorReply { reply: Some(text.to_string()) }
}

fn tool_failed() -> CaptureEvent {
    CaptureEvent::ToolExit { success: false }
}

fn monitor(name: &str, focused: bool) -> Monitor {
    Monitor { name: name.to_string(), focused }
}

const ONE_FOCUSED: &str = r#"[{"name":"DP-1","focused":false},{"id":1,"name":"HDMI-A-1","focused":true,"scale":1.5}]"#;

#[test]
fn wayland_session_asks_the_compositor_first() {
    let strategy = capture_screen("wayland", DEST);
    assert_eq!(strategy.phase(), CapturePhase::AwaitMonitors);
    assert_eq!(
        strategy.pending_action(),
        CaptureAction::QueryMonitors { command: command("hyprctl", &["monitors", "-j"]) }
    );
}

#[test]
fn other_sessions_go_straight_to_the_generic_capture() {
    for session in ["x11", "", "Wayland", "wayland ", "tty"] {
        let strategy = capture_screen(session, DEST);
        assert_eq!(strategy.phase(), CapturePhase::AwaitDisplays);
        assert_eq!(strategy.pending_action(), CaptureAction::ListDisplays);
    }
}

#[test]
fn focused_monitor_is_captured_before_any_fallback() {
    let mut strategy = capture_screen("wayland", DEST);
    let action = strategy.step(reply(ONE_FOCUSED));
    assert_eq!(action, run_tool(&["-o", "HDMI-A-1", DEST]));
    assert_eq!(strategy.phase(), CapturePhase::AwaitTool { pending: 0 });
    assert_eq!(strategy.step(CaptureEvent::ToolExit { success: true }), CaptureAction::Finish { result: Ok(()) });
    assert_eq!(strategy.phase(), CapturePhase::Finished);
}

#[test]
fn failing_tool_falls_through_to_the_generic_capture() {
    let mut strategy = capture_screen("wayland", DEST);
    let mut actions = vec![strategy.pending_action()];
    actions.push(strategy.step(reply(ONE_FOCUSED)));
    actions.push(strategy.step(tool_failed()));
    actions.push(strategy.step(tool_failed()));
    actions.push(strategy.step(CaptureEvent::Displays { count: Ok(2) }));
    actions.push(strategy.step(CaptureEvent::DisplayCaptured { outcome: Ok(()) }));
    assert_eq!(
        actions,
        vec![
            CaptureAction::QueryMonitors { command: command("hyprctl", &["monitors", "-j"]) },
            run_tool(&["-o", "HDMI-A-1", DEST]),
            run_tool(&[DEST]),
            CaptureAction::ListDisplays,
            CaptureAction::CaptureDisplay { index: 0, destination: DEST.to_string() },
            CaptureAction::Finish { result: Ok(()) },
        ]
    );
}

#[test]
fn every_focused_monitor_is_tried_in_order() {
    let text = r#"[{"name":"A","focused":true},{"name":"B","focused":false},{"name":"C","focused":true}]"#;
    let mut strategy = capture_screen("wayland", DEST);
    assert_eq!(strategy.step(reply(text)), run_tool(&["-o", "A", DEST]));
    assert_eq!(strategy.step(tool_failed()), run_tool(&["-o", "C", DEST]));
    assert_eq!(strategy.step(tool_failed()), run_tool(&[DEST]));
    assert_eq!(strategy.step(CaptureEvent::ToolExit { success: true }), CaptureAction::Finish { result: Ok(()) });
}

#[test]
fn no_focused_monitor_runs_the_tool_without_an_output() {
    let text = r#"[{"name":"A","focused":false}]"#;
    let mut strategy = capture_screen("wayland", DEST);
    assert_eq!(strategy.step(reply(text)), run_tool(&[DEST]));
    assert_eq!(strategy.step(tool_failed()), CaptureAction::ListDisplays);
}

#[test]
fn unusable_replies_run_the_tool_without_an_output() {
    let replies = [
        "",
        "not json",
        "{}",
        r#"{"name":"A","focused":true}"#,
        r#"[{"name":"A"}]"#,
        r#"[{"focused":true}]"#,
        r#"[{"name":"A","focused":"yes"}]"#,
        r#"[{"name":7,"focused":true}]"#,
        r#"[{"name":"A","focused":true},{"name":"B"}]"#,
        r#"[{"name":"A","focused":true},"#,
        "[]",
    ];
    for text in replies {
        let mut strategy = capture_screen("wayland", DEST);
        assert_eq!(strategy.step(reply(text)), run_tool(&[DEST]), "reply {:?}", text);
    }
    let mut strategy = capture_screen("wayland", DEST);
    assert_eq!(strategy.step(CaptureEvent::MonitorReply { reply: None }), run_tool(&[DEST]));
}

#[test]
fn no_display_fails_with_no_screens_found() {
    let mut strategy = capture_screen("x11", DEST);
    assert_eq!(
        strategy.step(CaptureEvent::Displays { count: Ok(0) }),
        CaptureAction::Finish { result: Err("No screens found".to_string()) }
    );
    assert_eq!(strategy.phase(), CapturePhase::Finished);
}

#[test]
fn listing_failure_is_reported_as_it_came() {
    let mut strategy = capture_screen("x11", DEST);
    assert_eq!(
        strategy.step(CaptureEvent::Displays { count: Err("no display server".to_string()) }),
        CaptureAction::Finish { result: Err("no display server".to_string()) }
    );
}

#[test]
fn capture_failure_is_reported_as_it_came() {
    let mut strategy = capture_screen("x11", DEST);
    assert_eq!(
        strategy.step(CaptureEvent::Displays { count: Ok(1) }),
        CaptureAction::CaptureDisplay { index: 0, destination: DEST.to_string() }
    );
    assert_eq!(
        strategy.step(CaptureEvent::DisplayCaptured { outcome: Err("disk full".to_string()) }),
        CaptureAction::Finish { result: Err("disk full".to_string()) }
    );
}

#[test]
fn tool_failures_are_not_the_final_error() {
    let mut strategy = capture_screen("wayland", DEST);
    strategy.step(CaptureEvent::MonitorReply { reply: None });
    strategy.step(tool_failed());
    assert_eq!(
        strategy.step(CaptureEvent::Displays { count: Ok(0) }),
        CaptureAction::Finish { result: Err("No screens found".to_string()) }
    );
}

#[test]
fn reports_that_answer_nothing_are_ignored() {
    let mut strategy = capture_screen("wayland", DEST);
    let query = strategy.pending_action();
    assert_eq!(strategy.step(tool_failed()), query);
    assert_eq!(strategy.step(CaptureEvent::Displays { count: Ok(1) }), query);
    assert_eq!(strategy.step(CaptureEvent::DisplayCaptured { outcome: Ok(()) }), query);
    assert_eq!(strategy.phase(), CapturePhase::AwaitMonitors);

    let mut strategy = capture_screen("x11", DEST);
    assert_eq!(strategy.step(reply(ONE_FOCUSED)), CaptureAction::ListDisplays);
    assert_eq!(strategy.step(CaptureEvent::ToolExit { success: true }), CaptureAction::ListDisplays);

    let mut strategy = capture_screen("wayland", DEST);
    strategy.step(reply(ONE_FOCUSED));
    assert_eq!(strategy.step(CaptureEvent::Displays { count: Ok(1) }), run_tool(&["-o", "HDMI-A-1", DEST]));
}

#[test]
fn finished_strategy_stays_finished() {
    let mut strategy = capture_screen("x11", DEST);
    strategy.step(CaptureEvent::Displays { count: Ok(0) });
    let done = CaptureAction::Finish { result: Err("No screens found".to_string()) };
    assert_eq!(strategy.step(CaptureEvent::Displays { count: Ok(3) }), done);
    assert_eq!(strategy.step(CaptureEvent::ToolExit { success: true }), done);
    assert_eq!(strategy.pending_action(), done);
}

#[test]
fn tool_invocation_names_the_output_before_the_destination() {
    assert_eq!(tool_invocation(Some("eDP-1"), "out.png"), command("grim", &["-o", "eDP-1", "out.png"]));
    assert_eq!(tool_invocation(None, "out.png"), command("grim", &["out.png"]));
}

#[test]
fn monitors_are_decoded_from_json() {
    let document = serde_json::from_str::<serde_json::Value>(ONE_FOCUSED).unwrap();
    assert_eq!(
        decode_monitors(&document),
        Some(vec![monitor("DP-1", false), monitor("HDMI-A-1", true)])
    );
    let empty = serde_json::from_str::<serde_json::Value>("[]").unwrap();
    assert_eq!(decode_monitors(&empty), Some(vec![]));
    let object = serde_json::from_str::<serde_json::Value>(r#"{"name":"A","focused":true}"#).unwrap();
    assert_eq!(decode_monitors(&object), None);
    assert_eq!(decode_monitor(&object), Some(monitor("A", true)));
    let partial = serde_json::from_str::<serde_json::Value>(r#"[{"name":"A","focused":true},{"name":"B"}]"#).unwrap();
    assert_eq!(decode_monitors(&partial), None);
    let wrong = serde_json::from_str::<serde_json::Value>(r#"{"name":"A","focused":1}"#).unwrap();
    assert_eq!(decode_monitor(&wrong), None);
    let text = serde_json::from_str::<serde_json::Value>(r#""A""#).unwrap();
    assert_eq!(decode_monitor(&text), None);
}

#[test]
fn focused_outputs_keep_the_lists_order() {
    let monitors = vec![monitor("A", true), monitor("B", false), monitor("C", true), monitor("A", true)];
    assert_eq!(focused_outputs(&monitors), vec!["A".to_string(), "C".to_string(), "A".to_string()]);
    assert_eq!(focused_outputs(&vec![monitor("B", false)]), Vec::<String>::new());
    assert_eq!(focused_outputs(&vec![]), Vec::<String>::new());
}

#[test]
fn outputs_of_a_reply() {
    assert_eq!(outputs_of_reply(Some(ONE_FOCUSED)), vec!["HDMI-A-1".to_string()]);
    assert_eq!(outputs_of_reply(Some("oops")), Vec::<String>::new());
    assert_eq!(outputs_of_reply(None), Vec::<String>::new());
    assert_eq!(outputs_of_reply(Some(r#"[{"name":"écran","focused":true}]"#)), vec!["écran".to_string()]);
}
