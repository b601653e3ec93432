//! Capturing the screen: the compositor's capture tool where the session has one, scoped to
//! the focused monitor if that is known, and the generic capture of the first display when
//! the tool is not to be had.
//!
//! The strategy runs no program and reads no display. It names the next thing to do; the
//! caller does it and reports what came of it.

use vstd::prelude::*;
use crate::command::{CommandLine, CommandLineModel};
use crate::config::Config;
use crate::json::{
    as_bool,
    as_items,
    as_text,
    json_bool,
    json_document,
    json_items,
    json_member,
    json_text,
    member,
    parse_document,
};
use crate::text::{lemma_views_push, outcome_view, views};

verus! {

/// One monitor of the compositor's reply.
#[derive(Debug, PartialEq, Eq)]
pub struct Monitor {
    pub name: String,
    pub focused: bool,
}

/// A monitor as plain values.
pub struct MonitorModel {
    pub name: Seq<char>,
    pub focused: bool,
}

impl View for Monitor {
    type V = MonitorModel;

    open spec fn view(&self) -> MonitorModel {
        MonitorModel { name: self.name@, focused: self.focused }
    }
}

/// The monitors of a list, as plain values.
pub open spec fn monitor_views(list: Seq<Monitor>) -> Seq<MonitorModel> {
    Seq::new(list.len(), |i: int| list[i]@)
}

/// The monitor that a JSON value describes: an object with a text under `name` and a boolean
/// under `focused`. Other members are passed over.
pub open spec fn monitor_of(value: serde_json::Value) -> Option<MonitorModel> {
    match (json_member(value, "name"@), json_member(value, "focused"@)) {
        (Some(name), Some(focused)) => match (json_text(name), json_bool(focused)) {
            (Some(n), Some(f)) => Some(MonitorModel { name: n, focused: f }),
            _ => None,
        },
        _ => None,
    }
}

/// The monitors that a JSON document lists: an array of which every item describes a
/// monitor.
pub open spec fn monitors_of(document: serde_json::Value) -> Option<Seq<MonitorModel>> {
    match json_items(document) {
        Some(items) => if forall|i: int|
            0 <= i < items.len() ==> (#[trigger] monitor_of(items[i])) is Some {
            Some(Seq::new(items.len(), |i: int| monitor_of(items[i]).unwrap()))
        } else {
            None
        },
        None => None,
    }
}

/// The names of the focused monitors of a list, in the list's order.
pub open spec fn focused_names(monitors: Seq<MonitorModel>) -> Seq<Seq<char>>
    decreases monitors.len(),
{
    if monitors.len() == 0 {
        Seq::empty()
    } else if monitors.last().focused {
        focused_names(monitors.drop_last()).push(monitors.last().name)
    } else {
        focused_names(monitors.drop_last())
    }
}

/// The outputs to scope the capture tool to, given the compositor's reply: the focused
/// monitors that the reply lists. A query that gave no reply, a reply that is no JSON and a
/// document that is no list of monitors give none.
pub open spec fn reply_outputs(reply: Option<Seq<char>>) -> Seq<Seq<char>> {
    match reply {
        Some(text) => match json_document(text) {
            Some(document) => match monitors_of(document) {
                Some(monitors) => focused_names(monitors),
                None => Seq::empty(),
            },
            None => Seq::empty(),
        },
        None => Seq::empty(),
    }
}

/// Reads one monitor from a JSON value.
pub fn decode_monitor(value: &serde_json::Value) -> (monitor: Option<Monitor>)
    ensures
        match monitor {
            Some(m) => monitor_of(*value) == Some(m@),
            None => monitor_of(*value) is None,
        },
{
    let name = match member(value, "name") {
        Some(v) => v,
        None => {
            return None;
        },
    };
    let focused = match member(value, "focused") {
        Some(v) => v,
        None => {
            return None;
        },
    };
    match as_text(name) {
        Some(n) => match as_bool(focused) {
            Some(f) => Some(Monitor { name: String::from_str(n), focused: f }),
            None => None,
        },
        None => None,
    }
}

/// Reads the list of monitors from a JSON document. One item that describes no monitor
/// makes the whole document unreadable.
pub fn decode_monitors(document: &serde_json::Value) -> (monitors: Option<Vec<Monitor>>)
    ensures
        match monitors {
            Some(list) => monitors_of(*document) == Some(monitor_views(list@)),
            None => monitors_of(*document) is None,
        },
{
    let items = match as_items(document) {
        Some(list) => list,
        None => {
            return None;
        },
    };
    let mut list: Vec<Monitor> = Vec::new();
    let mut i: usize = 0;
    while i < items.len()
        invariant
            i <= items.len(),
            json_items(*document) == Some(items@),
            list.len() == i,
            forall|k: int|
                0 <= k < i ==> (#[trigger] monitor_of(items[k])) == Some(list[k]@),
        decreases items.len() - i,
    {
        match decode_monitor(&items[i]) {
            Some(m) => {
                list.push(m);
            },
            None => {
                return None;
            },
        }
        i = i + 1;
    }
    assert(forall|k: int| 0 <= k < items@.len() ==> (#[trigger] monitor_of(items@[k])) is Some);
    assert(monitor_views(list@) =~= Seq::new(
        items@.len(),
        |k: int| monitor_of(items@[k]).unwrap(),
    ));
    Some(list)
}

/// The names of the focused monitors, in the list's order.
pub fn focused_outputs(monitors: &Vec<Monitor>) -> (names: Vec<String>)
    ensures
        views(names@) == focused_names(monitor_views(monitors@)),
{
    let mut names: Vec<String> = Vec::new();
    let mut i: usize = 0;
    assert(monitor_views(monitors@).take(0) =~= Seq::empty());
    assert(views(names@) =~= Seq::<Seq<char>>::empty());
    while i < monitors.len()
        invariant
            i <= monitors.len(),
            views(names@) == focused_names(monitor_views(monitors@).take(i as int)),
        decreases monitors.len() - i,
    {
        let ghost all = monitor_views(monitors@);
        assert(all.take(i + 1).drop_last() =~= all.take(i as int));
        assert(all.take(i + 1).last() == monitors[i as int]@);
        if monitors[i].focused {
            let name = monitors[i].name.clone();
            proof {
                lemma_views_push(names@, name);
            }
            names.push(name);
        }
        i = i + 1;
    }
    assert(monitor_views(monitors@).take(i as int) =~= monitor_views(monitors@));
    names
}

/// The outputs to scope the capture tool to, given the compositor's reply.
pub fn outputs_of_reply(reply: Option<&str>) -> (names: Vec<String>)
    ensures
        views(names@) == reply_outputs(
            match reply {
                Some(text) => Some(text@),
                None => None,
            },
        ),
{
    let found: Option<Vec<String>> = match reply {
        Some(text) => match parse_document(text) {
            Some(document) => match decode_monitors(&document) {
                Some(monitors) => Some(focused_outputs(&monitors)),
                None => None,
            },
            None => None,
        },
        None => None,
    };
    match found {
        Some(names) => names,
        None => {
            let names: Vec<String> = Vec::new();
            assert(views(names@) =~= Seq::<Seq<char>>::empty());
            names
        },
    }
}

/// Where the strategy stands.
#[derive(Clone, Copy, Debug, PartialEq, Eq, Structural)]
pub enum CapturePhase {
    /// The compositor was asked for its monitors.
    AwaitMonitors,
    /// The capture tool is running: scoped to the output with index `pending`, or, when
    /// `pending` is past the last output, with no output named.
    AwaitTool { pending: usize },
    /// The displays are being listed for the generic capture.
    AwaitDisplays,
    /// The first display is being captured and saved.
    AwaitDisplay,
    /// The strategy is done.
    Finished,
}

/// What the caller does next.
#[derive(Debug, PartialEq, Eq)]
pub enum CaptureAction {
    /// Run this command and report what it wrote to its standard output.
    QueryMonitors { command: CommandLine },
    /// Run this command and report whether it left with the exit code zero.
    RunTool { command: CommandLine },
    /// Count the displays.
    ListDisplays,
    /// Capture the display with this index and save the image at `destination`.
    CaptureDisplay { index: usize, destination: String },
    /// Stop, with this result.
    Finish { result: Result<(), String> },
}

/// An action as texts.
pub enum CaptureActionModel {
    QueryMonitors { command: CommandLineModel },
    RunTool { command: CommandLineModel },
    ListDisplays,
    CaptureDisplay { index: usize, destination: Seq<char> },
    Finish { result: Result<(), Seq<char>> },
}

impl View for CaptureAction {
    type V = CaptureActionModel;

    open spec fn view(&self) -> CaptureActionModel {
        match *self {
            CaptureAction::QueryMonitors { command } => CaptureActionModel::QueryMonitors {
                command: command@,
            },
            CaptureAction::RunTool { command } => CaptureActionModel::RunTool {
                command: command@,
            },
            CaptureAction::ListDisplays => CaptureActionModel::ListDisplays,
            CaptureAction::CaptureDisplay { index, destination } => {
                CaptureActionModel::CaptureDisplay { index, destination: destination@ }
            },
            CaptureAction::Finish { result } => CaptureActionModel::Finish {
                result: outcome_view(result),
            },
        }
    }
}

/// What the caller reports.
#[derive(Debug, PartialEq, Eq)]
pub enum CaptureEvent {
    /// The monitor query's standard output; `None` where the query could not be run or
    /// wrote no text.
    MonitorReply { reply: Option<String> },
    /// The capture tool has ended; `success` where it ran and left with the exit code zero.
    ToolExit { success: bool },
    /// The number of displays, or why they could not be listed.
    Displays { count: Result<usize, String> },
    /// The display was captured and saved, or why not.
    DisplayCaptured { outcome: Result<(), String> },
}

/// The command that asks the compositor for its monitors.
pub open spec fn query_command() -> CommandLineModel {
    CommandLineModel { program: "hyprctl"@, args: seq!["monitors"@, "-j"@] }
}

/// The capture tool's command: `-o` and the output's name where one is given, then the
/// destination.
pub open spec fn tool_command(output: Option<Seq<char>>, destination: Seq<char>) -> CommandLineModel {
    match output {
        Some(name) => CommandLineModel { program: "grim"@, args: seq!["-o"@, name, destination] },
        None => CommandLineModel { program: "grim"@, args: seq![destination] },
    }
}

/// The error of a generic capture that finds no display.
pub open spec fn no_screens_message() -> Seq<char> {
    "No screens found"@
}

/// A strategy as plain values.
pub struct CaptureModel {
    pub destination: Seq<char>,
    pub phase: CapturePhase,
    /// The outputs that the capture tool is scoped to, one after another.
    pub outputs: Seq<Seq<char>>,
    /// Why the capture failed, once the strategy is done; `None` for a capture that
    /// succeeded.
    pub failure: Option<Seq<char>>,
}

impl CaptureModel {
    /// The strategy before anything was done. In a Wayland session the compositor is asked
    /// first; elsewhere the generic capture begins at once.
    pub open spec fn start(session_type: Seq<char>, destination: Seq<char>) -> CaptureModel {
        CaptureModel {
            destination,
            phase: if session_type == Config::WAYLAND_SESSION@ {
                CapturePhase::AwaitMonitors
            } else {
                CapturePhase::AwaitDisplays
            },
            outputs: Seq::empty(),
            failure: None,
        }
    }

    /// What holds of every strategy that runs: its outputs can be counted by the machine.
    pub open spec fn valid(self) -> bool {
        self.outputs.len() <= usize::MAX
    }

    /// The strategy done, with this failure or none.
    pub open spec fn finished(self, failure: Option<Seq<char>>) -> CaptureModel {
        CaptureModel { phase: CapturePhase::Finished, failure, ..self }
    }

    /// The output that the running tool is scoped to.
    pub open spec fn pending_output(self, pending: usize) -> Option<Seq<char>> {
        if pending < self.outputs.len() {
            Some(self.outputs[pending as int])
        } else {
            None
        }
    }

    /// The strategy after a report. A report that does not answer what the strategy waits
    /// for changes nothing.
    pub open spec fn next(self, event: CaptureEvent) -> CaptureModel {
        match (self.phase, event) {
            (CapturePhase::AwaitMonitors, CaptureEvent::MonitorReply { reply }) => CaptureModel {
                phase: CapturePhase::AwaitTool { pending: 0 },
                outputs: reply_outputs(
                    match reply {
                        Some(text) => Some(text@),
                        None => None,
                    },
                ),
                ..self
            },
            (CapturePhase::AwaitTool { pending }, CaptureEvent::ToolExit { success }) => if success {
                self.finished(None)
            } else if pending < self.outputs.len() {
                CaptureModel {
                    phase: CapturePhase::AwaitTool { pending: (pending + 1) as usize },
                    ..self
                }
            } else {
                CaptureModel { phase: CapturePhase::AwaitDisplays, ..self }
            },
            (CapturePhase::AwaitDisplays, CaptureEvent::Displays { count }) => match count {
                Ok(n) => if n == 0 {
                    self.finished(Some(no_screens_message()))
                } else {
                    CaptureModel { phase: CapturePhase::AwaitDisplay, ..self }
                },
                Err(e) => self.finished(Some(e@)),
            },
            (CapturePhase::AwaitDisplay, CaptureEvent::DisplayCaptured { outcome }) => match outcome {
                Ok(_) => self.finished(None),
                Err(e) => self.finished(Some(e@)),
            },
            _ => self,
        }
    }

    /// What the caller is to do in this state.
    pub open spec fn pending(self) -> CaptureActionModel {
        match self.phase {
            CapturePhase::AwaitMonitors => CaptureActionModel::QueryMonitors {
                command: query_command(),
            },
            CapturePhase::AwaitTool { pending } => CaptureActionModel::RunTool {
                command: tool_command(self.pending_output(pending), self.destination),
            },
            CapturePhase::AwaitDisplays => CaptureActionModel::ListDisplays,
            CapturePhase::AwaitDisplay => CaptureActionModel::CaptureDisplay {
                index: 0,
                destination: self.destination,
            },
            CapturePhase::Finished => CaptureActionModel::Finish {
                result: match self.failure {
                    Some(e) => Err(e),
                    None => Ok(()),
                },
            },
        }
    }

    /// The strategy after the capture tool has failed `count` times in a row.
    pub open spec fn after_tool_failures(self, count: nat) -> CaptureModel
        decreases count,
    {
        if count == 0 {
            self
        } else {
            self.after_tool_failures((count - 1) as nat).next(
                CaptureEvent::ToolExit { success: false },
            )
        }
    }
}

/// Decides, step by step, how the screen is captured.
pub struct CaptureStrategy {
    destination: String,
    phase: CapturePhase,
    outputs: Vec<String>,
    failure: Option<String>,
}

impl View for CaptureStrategy {
    type V = CaptureModel;

    closed spec fn view(&self) -> CaptureModel {
        CaptureModel {
            destination: self.destination@,
            phase: self.phase,
            outputs: views(self.outputs@),
            failure: match self.failure {
                Some(e) => Some(e@),
                None => None,
            },
        }
    }
}

/// A strategy that captures the screen to `destination`, for a session of the given type
/// (the value of the session-type variable, empty where it is not set).
pub fn capture_screen(session_type: &str, destination: &str) -> (strategy: CaptureStrategy)
    ensures
        strategy@ == CaptureModel::start(session_type@, destination@),
        strategy@.valid(),
{
    let wayland = String::from_str(session_type) == String::from_str(Config::WAYLAND_SESSION);
    let strategy = CaptureStrategy {
        destination: String::from_str(destination),
        phase: if wayland {
            CapturePhase::AwaitMonitors
        } else {
            CapturePhase::AwaitDisplays
        },
        outputs: Vec::new(),
        failure: None,
    };
    assert(views(strategy.outputs@) =~= Seq::<Seq<char>>::empty());
    strategy
}

/// The capture tool's command for an output, or for the whole display, and a destination.
pub fn tool_invocation(output: Option<&str>, destination: &str) -> (command: CommandLine)
    ensures
        command@ == tool_command(
            match output {
                Some(name) => Some(name@),
                None => None,
            },
            destination@,
        ),
{
    let command = match output {
        Some(name) => CommandLine::new("grim").arg("-o").arg(name).arg(destination),
        None => CommandLine::new("grim").arg(destination),
    };
    assert(command@.args =~= tool_command(
        match output {
            Some(name) => Some(name@),
            None => None,
        },
        destination@,
    ).args);
    command
}

impl CaptureStrategy {
    /// Where the strategy stands.
    pub fn phase(&self) -> (phase: CapturePhase)
        ensures
            phase == self@.phase,
    {
        self.phase
    }

    /// What the caller is to do now.
    pub fn pending_action(&self) -> (action: CaptureAction)
        ensures
            action@ == self@.pending(),
    {
        match self.phase {
            CapturePhase::AwaitMonitors => {
                let command = CommandLine::new("hyprctl").arg("monitors").arg("-j");
                assert(command@.args =~= query_command().args);
                CaptureAction::QueryMonitors { command }
            },
            CapturePhase::AwaitTool { pending } => {
                let command = if pending < self.outputs.len() {
                    tool_invocation(Some(self.outputs[pending].as_str()), self.destination.as_str())
                } else {
                    tool_invocation(None, self.destination.as_str())
                };
                CaptureAction::RunTool { command }
            },
            CapturePhase::AwaitDisplays => CaptureAction::ListDisplays,
            CapturePhase::AwaitDisplay => CaptureAction::CaptureDisplay {
                index: 0,
                destination: self.destination.clone(),
            },
            CapturePhase::Finished => CaptureAction::Finish {
                result: match &self.failure {
                    Some(e) => Err(e.clone()),
                    None => Ok(()),
                },
            },
        }
    }

    /// Takes a report and names what to do next.
    ///
    /// The monitors' reply decides the outputs: the capture tool is run once for each
    /// focused monitor, in the reply's order, and then once with no output named, until one
    /// run succeeds. When every run has failed the displays are listed, and the first one is
    /// captured. A tool run or a display capture that succeeds ends the strategy with `Ok`.
    /// The strategy fails only where the generic capture fails: with "No screens found"
    /// where there is no display, else with the error that was reported.
    pub fn step(&mut self, event: CaptureEvent) -> (action: CaptureAction)
        ensures
            final(self)@ == old(self)@.next(event),
            final(self)@.valid(),
            action@ == final(self)@.pending(),
    {
        match self.phase {
            CapturePhase::AwaitMonitors => {
                if let CaptureEvent::MonitorReply { reply } = event {
                    self.outputs = match &reply {
                        Some(text) => outputs_of_reply(Some(text.as_str())),
                        None => outputs_of_reply(None),
                    };
                    self.phase = CapturePhase::AwaitTool { pending: 0 };
                }
            },
            CapturePhase::AwaitTool { pending } => {
                if let CaptureEvent::ToolExit { success } = event {
                    if success {
                        self.phase = CapturePhase::Finished;
                        self.failure = None;
                    } else if pending < self.outputs.len() {
                        self.phase = CapturePhase::AwaitTool { pending: pending + 1 };
                    } else {
                        self.phase = CapturePhase::AwaitDisplays;
                    }
                }
            },
            CapturePhase::AwaitDisplays => {
                if let CaptureEvent::Displays { count } = event {
                    self.phase = CapturePhase::Finished;
                    match count {
                        Ok(n) => {
                            if n == 0 {
                                self.failure = Some(String::from_str("No screens found"));
                            } else {
                                self.phase = CapturePhase::AwaitDisplay;
                            }
                        },
                        Err(e) => {
                            self.failure = Some(e);
                        },
                    }
                }
            },
            CapturePhase::AwaitDisplay => {
                if let CaptureEvent::DisplayCaptured { outcome } = event {
                    self.phase = CapturePhase::Finished;
                    match outcome {
                        Ok(_) => {
                            self.failure = None;
                        },
                        Err(e) => {
                            self.failure = Some(e);
                        },
                    }
                }
            },
            CapturePhase::Finished => {},
        }
        assert(views(self.outputs@).len() == self.outputs.len());
        self.pending_action()
    }
}

/// A list without a focused monitor names no output.
pub proof fn lemma_none_focused(monitors: Seq<MonitorModel>)
    requires
        forall|j: int| 0 <= j < monitors.len() ==> !monitors[j].focused,
    ensures
        focused_names(monitors) == Seq::<Seq<char>>::empty(),
    decreases monitors.len(),
{
    if monitors.len() > 0 {
        lemma_none_focused(monitors.drop_last());
    }
}

/// A list with exactly one focused monitor names that monitor's output and no other.
pub proof fn lemma_only_focused_monitor(monitors: Seq<MonitorModel>, index: int)
    requires
        0 <= index < monitors.len(),
        monitors[index].focused,
        forall|j: int| 0 <= j < monitors.len() && j != index ==> !monitors[j].focused,
    ensures
        focused_names(monitors) == seq![monitors[index].name],
    decreases monitors.len(),
{
    let rest = monitors.drop_last();
    if index == monitors.len() - 1 {
        lemma_none_focused(rest);
        assert(focused_names(monitors) =~= seq![monitors[index].name]);
    } else {
        lemma_only_focused_monitor(rest, index);
    }
}

/// While outputs are left, each failure of the capture tool moves on to the next output; the
/// run after the last output names none.
pub proof fn lemma_tool_failures_walk_the_outputs(strategy: CaptureModel, pending: usize, count: nat)
    requires
        strategy.valid(),
        strategy.phase == (CapturePhase::AwaitTool { pending }),
        pending + count <= strategy.outputs.len(),
    ensures
        strategy.after_tool_failures(count) == (CaptureModel {
            phase: CapturePhase::AwaitTool { pending: (pending + count) as usize },
            ..strategy
        }),
        strategy.after_tool_failures(count).pending() == (CaptureActionModel::RunTool {
            command: tool_command(
                if pending + count < strategy.outputs.len() {
                    Some(strategy.outputs[pending + count])
                } else {
                    None
                },
                strategy.destination,
            ),
        }),
    decreases count,
{
    if count > 0 {
        lemma_tool_failures_walk_the_outputs(strategy, pending, (count - 1) as nat);
    }
}

/// A capture tool that fails every time does not stop the capture. From any run of the
/// tool, the strategy tries the outputs that are left, then the tool without an output, and
/// lists the displays only when all of these have failed; if there is a display and its
/// capture succeeds, the strategy ends with success.
pub proof fn lemma_failing_tool_falls_through(strategy: CaptureModel, pending: usize, displays: usize)
    requires
        strategy.valid(),
        strategy.phase == (CapturePhase::AwaitTool { pending }),
        pending <= strategy.outputs.len(),
        displays >= 1,
    ensures
        ({
            let runs = (strategy.outputs.len() - pending + 1) as nat;
            let fallen = strategy.after_tool_failures(runs);
            let listed = fallen.next(CaptureEvent::Displays { count: Ok(displays) });
            let captured = listed.next(CaptureEvent::DisplayCaptured { outcome: Ok(()) });
            &&& forall|k: nat|
                k < runs ==> (#[trigger] strategy.after_tool_failures(k).pending())
                    is RunTool
            &&& fallen.pending() == CaptureActionModel::ListDisplays
            &&& listed.pending() == (CaptureActionModel::CaptureDisplay {
                index: 0,
                destination: strategy.destination,
            })
            &&& captured.pending() == (CaptureActionModel::Finish { result: Ok(()) })
        }),
{
    let left = (strategy.outputs.len() - pending) as nat;
    let runs = left + 1;
    assert forall|k: nat| k < runs implies (#[trigger] strategy.after_tool_failures(k).pending())
        is RunTool by {
        lemma_tool_failures_walk_the_outputs(strategy, pending, k);
    }
    lemma_tool_failures_walk_the_outputs(strategy, pending, left);
    assert(strategy.after_tool_failures(runs) == strategy.after_tool_failures(left).next(
        CaptureEvent::ToolExit { success: false },
    ));
}

/// Where the compositor's reply lists exactly one focused monitor, the strategy runs the
/// capture tool scoped to that monitor's name first. Only when that run has failed does it
/// run the tool without an output, and only when that has failed too does the generic
/// capture begin.
pub proof fn lemma_focused_monitor_is_tried_first(
    strategy: CaptureModel,
    reply: String,
    document: serde_json::Value,
    monitors: Seq<MonitorModel>,
    index: int,
)
    requires
        strategy.phase == CapturePhase::AwaitMonitors,
        json_document(reply@) == Some(document),
        monitors_of(document) == Some(monitors),
        0 <= index < monitors.len(),
        monitors[index].focused,
        forall|j: int| 0 <= j < monitors.len() && j != index ==> !monitors[j].focused,
    ensures
        ({
            let asked = strategy.next(CaptureEvent::MonitorReply { reply: Some(reply) });
            &&& asked.pending() == (CaptureActionModel::RunTool {
                command: tool_command(Some(monitors[index].name), strategy.destination),
            })
            &&& asked.after_tool_failures(1).pending() == (CaptureActionModel::RunTool {
                command: tool_command(None, strategy.destination),
            })
            &&& asked.after_tool_failures(2).pending() == CaptureActionModel::ListDisplays
        }),
{
    lemma_only_focused_monitor(monitors, index);
    let asked = strategy.next(CaptureEvent::MonitorReply { reply: Some(reply) });
    assert(asked.outputs == seq![monitors[index].name]);
    lemma_tool_failures_walk_the_outputs(asked, 0, 0);
    lemma_tool_failures_walk_the_outputs(asked, 0, 1);
    lemma_failing_tool_falls_through(asked, 0, 1);
}

/// Whatever the session and whatever the compositor replies, a capture whose tool runs all
/// fail still succeeds where a display is available and its capture succeeds; outside a
/// Wayland session the generic capture is the first thing done.
pub proof fn lemma_capture_succeeds_with_a_display(
    session_type: Seq<char>,
    destination: Seq<char>,
    reply: Option<String>,
    displays: usize,
)
    requires
        displays >= 1,
        CaptureModel::start(session_type, destination).next(
            CaptureEvent::MonitorReply { reply },
        ).valid(),
    ensures
        ({
            let strategy = CaptureModel::start(session_type, destination);
            let asked = strategy.next(CaptureEvent::MonitorReply { reply });
            let fallen = if session_type == Config::WAYLAND_SESSION@ {
                asked.after_tool_failures(asked.outputs.len() + 1)
            } else {
                strategy
            };
            &&& session_type == Config::WAYLAND_SESSION@ ==> strategy.pending() == (
            CaptureActionModel::QueryMonitors { command: query_command() })
            &&& fallen.pending() == CaptureActionModel::ListDisplays
            &&& fallen.next(CaptureEvent::Displays { count: Ok(displays) }).next(
                CaptureEvent::DisplayCaptured { outcome: Ok(()) },
            ).pending() == (CaptureActionModel::Finish { result: Ok(()) })
        }),
{
    let strategy = CaptureModel::start(session_type, destination);
    if session_type == Config::WAYLAND_SESSION@ {
        let asked = strategy.next(CaptureEvent::MonitorReply { reply });
        lemma_failing_tool_falls_through(asked, 0, displays);
    }
}

/// The generic capture fails with "No screens found" where no display is listed, and with
/// the reported error where listing or capturing fails; a strategy that is done stays done.
pub proof fn lemma_generic_capture_failures(strategy: CaptureModel, error: String, event: CaptureEvent)
    ensures
        strategy.phase == CapturePhase::AwaitDisplays ==> strategy.next(
            CaptureEvent::Displays { count: Ok(0) },
        ).pending() == (CaptureActionModel::Finish { result: Err(no_screens_message()) }),
        strategy.phase == CapturePhase::AwaitDisplays ==> strategy.next(
            CaptureEvent::Displays { count: Err(error) },
        ).pending() == (CaptureActionModel::Finish { result: Err(error@) }),
        strategy.phase == CapturePhase::AwaitDisplay ==> strategy.next(
            CaptureEvent::DisplayCaptured { outcome: Err(error) },
        ).pending() == (CaptureActionModel::Finish { result: Err(error@) }),
        strategy.phase == CapturePhase::Finished ==> strategy.next(event) == strategy,
{
}

} // verus!
