//! The boot orchestrator and the bridge from any fault to power-off.
//!
//! A boot is a walk through fixed points. At each point one action is
//! pending: the platform performs it and reports the outcome as an event,
//! and the orchestrator moves on. A fault at any point ends the boot: the
//! bridge writes one diagnostic line and the power goes off.

use vstd::prelude::*;
use vstd::string::StringExecFns;
use crate::harness::{
    lemma_next_well_formed, lemma_plan_fits, lemma_start_well_formed, plan_fits, plan_view, Harness,
    HarnessView, Scenario, ScenarioView, Stage, Step, Verdict,
};
use crate::logging::{log_init, Level, Line, LineView, LogConfig, LogSink};
use crate::report::{
    failure_text, level_of_verdict, render_failure, render_verdict, verdict_level, verdict_text,
};
use crate::scenario::{Reply, Request};

verus! {

/// What the firmware hands to the entry point: the core that boots and an
/// argument that only the platform reads.
#[derive(Clone, Copy, Debug, PartialEq, Eq, Structural)]
pub struct BootContext {
    pub cpu_id: usize,
    pub boot_arg: usize,
}

/// The phases of a boot, in their order.
#[derive(Clone, Copy, Debug, PartialEq, Eq, Structural)]
pub enum Phase {
    Zero,
    InitEarly,
    InitLater,
    LogInit,
    Harness,
    Shutdown,
}

/// The state of the bridge.
#[derive(Clone, Copy, Debug, PartialEq, Eq, Structural)]
pub enum Bridge {
    /// No fault so far.
    Armed,
    /// A fault came in; the diagnostic line is pending.
    Triggered,
    /// The power-off was issued. Nothing follows.
    Terminal,
}

/// The points of a boot, in the order of a run without a fault, then the
/// two points of the bridge.
#[derive(Clone, Copy, Debug, PartialEq, Eq, Structural)]
pub enum Point {
    Zero,
    InitEarly,
    InitLater,
    Greeting,
    LogInit,
    Notice,
    Announce,
    Tests,
    Shutdown,
    Diagnose,
    Off,
}

/// What the platform is to do next.
#[derive(Debug)]
pub enum Action {
    /// Zero the region of uninitialised static data.
    ZeroRegion,
    /// Early platform initialisation: traps, console, time.
    InitEarly(BootContext),
    /// Later platform initialisation: the peripherals.
    InitLater(BootContext),
    /// Install the logging sink with this configuration.
    LogInit(LogConfig),
    /// Write the line with the console primitive, past the sink.
    Print(Line),
    /// Write the line: a record that the sink forwarded.
    Log(Line),
    /// Have the allocator answer the request.
    Allocator(Request),
    /// Nothing to do; report `Done`.
    Proceed,
    /// Remove the power. No event follows.
    PowerOff,
}

/// An [`Action`] as contracts see it.
pub enum ActionView {
    ZeroRegion,
    InitEarly(BootContext),
    InitLater(BootContext),
    LogInit(LogConfig),
    Print(LineView),
    Log(LineView),
    Allocator(Request),
    Proceed,
    PowerOff,
}

impl View for Action {
    type V = ActionView;

    open spec fn view(&self) -> ActionView {
        match self {
            Action::ZeroRegion => ActionView::ZeroRegion,
            Action::InitEarly(context) => ActionView::InitEarly(*context),
            Action::InitLater(context) => ActionView::InitLater(*context),
            Action::LogInit(config) => ActionView::LogInit(*config),
            Action::Print(line) => ActionView::Print(line@),
            Action::Log(line) => ActionView::Log(line@),
            Action::Allocator(request) => ActionView::Allocator(*request),
            Action::Proceed => ActionView::Proceed,
            Action::PowerOff => ActionView::PowerOff,
        }
    }
}

/// The phase that an action belongs to. Lines on the console and steps
/// without an action belong to none.
pub open spec fn phase_of(action: ActionView) -> Option<Phase> {
    match action {
        ActionView::ZeroRegion => Some(Phase::Zero),
        ActionView::InitEarly(_) => Some(Phase::InitEarly),
        ActionView::InitLater(_) => Some(Phase::InitLater),
        ActionView::LogInit(_) => Some(Phase::LogInit),
        ActionView::Allocator(_) => Some(Phase::Harness),
        ActionView::PowerOff => Some(Phase::Shutdown),
        _ => None,
    }
}

impl Action {
    /// The phase that the action belongs to, if it belongs to one.
    pub fn phase(&self) -> (phase: Option<Phase>)
        ensures
            phase == phase_of(self@),
    {
        match self {
            Action::ZeroRegion => Some(Phase::Zero),
            Action::InitEarly(_) => Some(Phase::InitEarly),
            Action::InitLater(_) => Some(Phase::InitLater),
            Action::LogInit(_) => Some(Phase::LogInit),
            Action::Allocator(_) => Some(Phase::Harness),
            Action::PowerOff => Some(Phase::Shutdown),
            _ => None,
        }
    }
}

/// How the pending action went.
#[derive(Debug)]
pub enum Event {
    /// It was done.
    Done,
    /// It was done in part: something optional did not come up.
    Degraded(String),
    /// It faulted, and so the boot ends.
    Fault(String),
    /// The allocator answered.
    Answer(Reply),
}

/// The greeting of a boot.
pub open spec fn greeting_text() -> Seq<char> {
    "Hello, ArceOS!"@
}

/// The first record through the installed sink.
pub open spec fn announce_text() -> Seq<char> {
    "Logging initialized. This is an info message."@
}

/// The record of a later initialisation that was done in part.
pub open spec fn notice_text(note: Seq<char>) -> Seq<char> {
    "init_later degraded: "@ + note
}

/// What the bridge says of an event that cannot follow the pending action.
pub open spec fn stray_text() -> Seq<char> {
    "unexpected event from the platform"@
}

/// Why an event other than `Done` ends the boot.
pub open spec fn reason_of(event: Event) -> Seq<char> {
    match event {
        Event::Fault(reason) => reason@,
        Event::Degraded(reason) => reason@,
        _ => stray_text(),
    }
}

/// An event as the harness takes it: the allocator's answer, and `Done`
/// for anything else.
pub open spec fn reply_of(event: Event) -> Reply {
    match event {
        Event::Answer(reply) => reply,
        _ => Reply::Done,
    }
}

/// The line of a record that the sink forwards, and `Proceed` for one that
/// it discards.
pub open spec fn record(sink: LogSink, level: Level, text: Seq<char>) -> ActionView {
    if sink.admits(level) {
        ActionView::Log(LineView { level, text })
    } else {
        ActionView::Proceed
    }
}

/// The orchestrator as contracts see it.
pub struct BootView {
    pub context: BootContext,
    pub config: LogConfig,
    pub sink: LogSink,
    pub point: Point,
    pub note: Option<Seq<char>>,
    pub fault: Seq<char>,
    pub harness: HarnessView,
}

impl BootView {
    /// A boot before its first action.
    pub open spec fn start(
        context: BootContext,
        config: LogConfig,
        plan: Seq<ScenarioView>,
    ) -> BootView {
        BootView {
            context,
            config,
            sink: LogSink { floor: None },
            point: Point::Zero,
            note: None,
            fault: Seq::empty(),
            harness: HarnessView::start(plan),
        }
    }

    pub open spec fn well_formed(self) -> bool {
        &&& self.harness.well_formed()
        &&& match self.point {
            Point::Zero | Point::InitEarly | Point::InitLater | Point::Greeting | Point::LogInit => {
                &&& self.sink.floor is None
                &&& self.harness == HarnessView::start(self.harness.plan)
            },
            Point::Notice => {
                &&& self.sink.floor == Some(self.config.minimum_level)
                &&& self.note is Some
                &&& self.harness == HarnessView::start(self.harness.plan)
            },
            Point::Announce => {
                &&& self.sink.floor == Some(self.config.minimum_level)
                &&& self.harness == HarnessView::start(self.harness.plan)
            },
            Point::Tests => {
                &&& self.sink.floor == Some(self.config.minimum_level)
                &&& !self.harness.over()
            },
            Point::Shutdown => {
                &&& self.sink.floor == Some(self.config.minimum_level)
                &&& self.harness.stage is Finished
            },
            Point::Diagnose | Point::Off => true,
        }
    }

    /// The state of the bridge at this point.
    pub open spec fn bridge(self) -> Bridge {
        match self.point {
            Point::Diagnose => Bridge::Triggered,
            Point::Off => Bridge::Terminal,
            _ => Bridge::Armed,
        }
    }

    /// The boot with the bridge triggered by a fault of this description.
    pub open spec fn trigger(self, reason: Seq<char>) -> BootView {
        BootView { point: Point::Diagnose, fault: reason, ..self }
    }

    /// Where the boot goes once the harness was entered or has taken a
    /// step: on with the tests, to the shutdown when every scenario passed,
    /// and over the bridge when one failed.
    pub open spec fn settle(self) -> BootView {
        match self.harness.stage {
            Stage::Finished => BootView { point: Point::Shutdown, ..self },
            Stage::Halted => match self.harness.failure() {
                Some((scenario, verdict)) => self.trigger(
                    failure_text(self.harness.label(scenario as int), verdict),
                ),
                None => self.trigger(stray_text()),
            },
            _ => BootView { point: Point::Tests, ..self },
        }
    }

    /// The action that is pending.
    pub open spec fn pending(self) -> ActionView {
        match self.point {
            Point::Zero => ActionView::ZeroRegion,
            Point::InitEarly => ActionView::InitEarly(self.context),
            Point::InitLater => ActionView::InitLater(self.context),
            Point::Greeting => ActionView::Print(
                LineView { level: Level::Info, text: greeting_text() },
            ),
            Point::LogInit => ActionView::LogInit(self.config),
            Point::Notice => record(
                self.sink,
                Level::Warn,
                notice_text(
                    match self.note {
                        Some(note) => note,
                        None => Seq::empty(),
                    },
                ),
            ),
            Point::Announce => record(self.sink, Level::Info, announce_text()),
            Point::Tests => match self.harness.pending() {
                Step::Ask(request) => ActionView::Allocator(request),
                Step::Skip => ActionView::Proceed,
                Step::Tell { scenario, verdict } => record(
                    self.sink,
                    verdict_level(verdict),
                    verdict_text(self.harness.label(scenario as int), verdict),
                ),
                Step::Over { .. } => ActionView::Proceed,
            },
            Point::Shutdown => ActionView::PowerOff,
            Point::Diagnose => ActionView::Print(LineView { level: Level::Error, text: self.fault }),
            Point::Off => ActionView::PowerOff,
        }
    }

    /// What the platform is asked to do, action by action, when the events
    /// come in this order: the pending action, and after each event the
    /// next one. The list ends with the power-off, or with the action that
    /// is pending when the events have run out.
    pub open spec fn run(self, events: Seq<Event>) -> Seq<ActionView>
        decreases events.len(),
    {
        if events.len() == 0 || self.pending() is PowerOff {
            seq![self.pending()]
        } else {
            seq![self.pending()] + self.next(events[0]).run(events.drop_first())
        }
    }

    /// The boot at the end of that run: after the events that were looked
    /// at.
    pub open spec fn after(self, events: Seq<Event>) -> BootView
        decreases events.len(),
    {
        if events.len() == 0 || self.pending() is PowerOff {
            self
        } else {
            self.next(events[0]).after(events.drop_first())
        }
    }

    /// The boot after `event` told how the pending action went.
    ///
    /// Up to the tests, `Done` leads to the next point and anything else
    /// triggers the bridge; only the later initialisation may be `Degraded`,
    /// which is noted and logged once the sink is installed. In the tests a
    /// fault triggers the bridge and anything else goes to the harness.
    /// From the diagnostic line the boot goes off whatever the event. The
    /// shutdown and the terminal state of the bridge are left by nothing.
    pub open spec fn next(self, event: Event) -> BootView {
        match self.point {
            Point::Zero => match event {
                Event::Done => BootView { point: Point::InitEarly, ..self },
                _ => self.trigger(reason_of(event)),
            },
            Point::InitEarly => match event {
                Event::Done => BootView { point: Point::InitLater, ..self },
                _ => self.trigger(reason_of(event)),
            },
            Point::InitLater => match event {
                Event::Done => BootView { point: Point::Greeting, ..self },
                Event::Degraded(note) => BootView {
                    point: Point::Greeting,
                    note: Some(note@),
                    ..self
                },
                _ => self.trigger(reason_of(event)),
            },
            Point::Greeting => match event {
                Event::Done => BootView { point: Point::LogInit, ..self },
                _ => self.trigger(reason_of(event)),
            },
            Point::LogInit => match event {
                Event::Done => BootView {
                    point: if self.note is Some {
                        Point::Notice
                    } else {
                        Point::Announce
                    },
                    sink: LogSink { floor: Some(self.config.minimum_level) },
                    ..self
                },
                _ => self.trigger(reason_of(event)),
            },
            Point::Notice => match event {
                Event::Done => BootView { point: Point::Announce, ..self },
                _ => self.trigger(reason_of(event)),
            },
            Point::Announce => match event {
                Event::Done => self.settle(),
                _ => self.trigger(reason_of(event)),
            },
            Point::Tests => match event {
                Event::Fault(reason) => self.trigger(reason@),
                Event::Degraded(reason) => self.trigger(reason@),
                _ => (BootView { harness: self.harness.next(reply_of(event)), ..self }).settle(),
            },
            Point::Shutdown => self,
            Point::Diagnose => BootView { point: Point::Off, ..self },
            Point::Off => self,
        }
    }
}

/// Actions as contracts see them.
pub open spec fn action_views(actions: Seq<Action>) -> Seq<ActionView> {
    actions.map_values(|action: Action| action@)
}

/// A boot before its first action is well formed.
pub proof fn lemma_boot_start_well_formed(
    context: BootContext,
    config: LogConfig,
    plan: Seq<ScenarioView>,
)
    requires
        plan_fits(plan),
    ensures
        BootView::start(context, config, plan).well_formed(),
{
    lemma_start_well_formed(plan);
}

/// An event leaves a well-formed boot well formed.
pub proof fn lemma_boot_next_well_formed(boot: BootView, event: Event)
    requires
        boot.well_formed(),
    ensures
        boot.next(event).well_formed(),
{
    if boot.point is Tests {
        lemma_next_well_formed(boot.harness, reply_of(event));
    }
}

/// The orchestrator. It is made by [`Boot::new`] and changed by
/// [`Boot::advance`] alone, so it is well formed wherever it is seen.
pub struct Boot {
    context: BootContext,
    config: LogConfig,
    sink: LogSink,
    point: Point,
    note: Option<String>,
    fault: String,
    harness: Harness,
}

impl View for Boot {
    type V = BootView;

    closed spec fn view(&self) -> BootView {
        BootView {
            context: self.context,
            config: self.config,
            sink: self.sink,
            point: self.point,
            note: match self.note {
                Some(note) => Some(note@),
                None => None,
            },
            fault: self.fault@,
            harness: self.harness@,
        }
    }
}

/// The description of an event that ends the boot.
fn reason_for(event: &Event) -> (reason: String)
    ensures
        reason@ == reason_of(*event),
{
    match event {
        Event::Fault(reason) => reason.clone(),
        Event::Degraded(reason) => reason.clone(),
        _ => String::from_str("unexpected event from the platform"),
    }
}

/// Hands a record to the sink and names the action that follows from it.
fn record_action(sink: &LogSink, level: Level, text: String) -> (action: Action)
    ensures
        action@ == record(*sink, level, text@),
{
    if sink.passes(level) {
        Action::Log(Line { level, text })
    } else {
        Action::Proceed
    }
}

impl Boot {
    #[verifier::type_invariant]
    spec fn inv(&self) -> bool {
        self@.well_formed()
    }

    /// A boot of the core that `context` names, with the logging
    /// configuration and the test plan that it will use, before its first
    /// action.
    pub fn new(context: BootContext, config: LogConfig, plan: Vec<Scenario>) -> (boot: Boot)
        ensures
            boot@ == BootView::start(context, config, plan_view(plan@)),
            boot@.well_formed(),
    {
        proof {
            lemma_plan_fits(&plan);
            lemma_boot_start_well_formed(context, config, plan_view(plan@));
        }
        Boot {
            context,
            config,
            sink: LogSink::uninstalled(),
            point: Point::Zero,
            note: None,
            fault: String::new(),
            harness: Harness::new(plan),
        }
    }

    /// The point at which the boot stands.
    pub fn point(&self) -> (point: Point)
        ensures
            point == self@.point,
    {
        self.point
    }

    /// The state of the bridge.
    pub fn bridge(&self) -> (bridge: Bridge)
        ensures
            bridge == self@.bridge(),
    {
        match self.point {
            Point::Diagnose => Bridge::Triggered,
            Point::Off => Bridge::Terminal,
            _ => Bridge::Armed,
        }
    }

    /// The verdicts of the harness so far.
    pub fn report(&self) -> (report: Vec<Verdict>)
        ensures
            report@ == self@.harness.report,
    {
        self.harness.report()
    }

    /// The action that is pending.
    pub fn pending(&self) -> (action: Action)
        ensures
            action@ == self@.pending(),
    {
        proof {
            use_type_invariant(self);
        }
        match self.point {
            Point::Zero => Action::ZeroRegion,
            Point::InitEarly => Action::InitEarly(self.context),
            Point::InitLater => Action::InitLater(self.context),
            Point::Greeting => Action::Print(
                Line { level: Level::Info, text: String::from_str("Hello, ArceOS!") },
            ),
            Point::LogInit => Action::LogInit(self.config),
            Point::Notice => {
                let mut text = String::from_str("init_later degraded: ");
                match &self.note {
                    Some(note) => {
                        text.append(note.as_str());
                    },
                    None => {
                        assert(text@ =~= notice_text(Seq::empty()));
                    },
                }
                record_action(&self.sink, Level::Warn, text)
            },
            Point::Announce => record_action(
                &self.sink,
                Level::Info,
                String::from_str("Logging initialized. This is an info message."),
            ),
            Point::Tests => match self.harness.pending() {
                Step::Ask(request) => Action::Allocator(request),
                Step::Skip => Action::Proceed,
                Step::Tell { scenario, verdict } => {
                    let label = self.harness.label(scenario).unwrap();
                    record_action(
                        &self.sink,
                        level_of_verdict(verdict),
                        render_verdict(label.as_str(), verdict),
                    )
                },
                Step::Over { .. } => Action::Proceed,
            },
            Point::Shutdown => Action::PowerOff,
            Point::Diagnose => Action::Print(Line { level: Level::Error, text: self.fault.clone() }),
            Point::Off => Action::PowerOff,
        }
    }

    /// Whether the power-off is pending: the boot is over.
    pub fn is_off(&self) -> (off: bool)
        ensures
            off == self@.pending() is PowerOff,
    {
        proof {
            use_type_invariant(self);
        }
        match self.point {
            Point::Shutdown => true,
            Point::Off => true,
            _ => false,
        }
    }

    /// The boot at the point that follows from the state of its harness.
    fn settle(
        context: BootContext,
        config: LogConfig,
        sink: LogSink,
        note: Option<String>,
        fault: String,
        harness: Harness,
    ) -> (boot: Boot)
        requires
            harness@.well_formed(),
            sink.floor == Some(config.minimum_level),
        ensures
            boot@ == (BootView {
                context,
                config,
                sink,
                point: Point::Tests,
                note: match note {
                    Some(note) => Some(note@),
                    None => None,
                },
                fault: fault@,
                harness: harness@,
            }).settle(),
    {
        match harness.pending() {
            Step::Over { passed: true } => Boot {
                context,
                config,
                sink,
                point: Point::Shutdown,
                note,
                fault,
                harness,
            },
            Step::Over { passed: false } => {
                let fault = match harness.failure() {
                    Some((scenario, verdict)) => {
                        let label = harness.label(scenario).unwrap();
                        render_failure(label.as_str(), verdict)
                    },
                    None => String::from_str("unexpected event from the platform"),
                };
                Boot { context, config, sink, point: Point::Diagnose, note, fault, harness }
            },
            _ => Boot { context, config, sink, point: Point::Tests, note, fault, harness },
        }
    }

    /// Takes the event that tells how the pending action went, and moves
    /// on.
    pub fn advance(self, event: &Event) -> (boot: Boot)
        ensures
            boot@ == self@.next(*event),
            boot@.well_formed(),
    {
        proof {
            use_type_invariant(&self);
            lemma_boot_next_well_formed(self@, *event);
        }
        let Boot { context, config, sink, point, note, fault, harness } = self;
        match point {
            Point::Zero => match event {
                Event::Done => Boot {
                    context,
                    config,
                    sink,
                    point: Point::InitEarly,
                    note,
                    fault,
                    harness,
                },
                _ => Boot {
                    context,
                    config,
                    sink,
                    point: Point::Diagnose,
                    note,
                    fault: reason_for(event),
                    harness,
                },
            },
            Point::InitEarly => match event {
                Event::Done => Boot {
                    context,
                    config,
                    sink,
                    point: Point::InitLater,
                    note,
                    fault,
                    harness,
                },
                _ => Boot {
                    context,
                    config,
                    sink,
                    point: Point::Diagnose,
                    note,
                    fault: reason_for(event),
                    harness,
                },
            },
            Point::InitLater => match event {
                Event::Done => Boot {
                    context,
                    config,
                    sink,
                    point: Point::Greeting,
                    note,
                    fault,
                    harness,
                },
                Event::Degraded(text) => Boot {
                    context,
                    config,
                    sink,
                    point: Point::Greeting,
                    note: Some(text.clone()),
                    fault,
                    harness,
                },
                _ => Boot {
                    context,
                    config,
                    sink,
                    point: Point::Diagnose,
                    note,
                    fault: reason_for(event),
                    harness,
                },
            },
            Point::Greeting => match event {
                Event::Done => Boot {
                    context,
                    config,
                    sink,
                    point: Point::LogInit,
                    note,
                    fault,
                    harness,
                },
                _ => Boot {
                    context,
                    config,
                    sink,
                    point: Point::Diagnose,
                    note,
                    fault: reason_for(event),
                    harness,
                },
            },
            Point::LogInit => match event {
                Event::Done => {
                    let next = if note.is_some() {
                        Point::Notice
                    } else {
                        Point::Announce
                    };
                    Boot {
                        context,
                        config,
                        sink: log_init(config),
                        point: next,
                        note,
                        fault,
                        harness,
                    }
                },
                _ => Boot {
                    context,
                    config,
                    sink,
                    point: Point::Diagnose,
                    note,
                    fault: reason_for(event),
                    harness,
                },
            },
            Point::Notice => match event {
                Event::Done => Boot {
                    context,
                    config,
                    sink,
                    point: Point::Announce,
                    note,
                    fault,
                    harness,
                },
                _ => Boot {
                    context,
                    config,
                    sink,
                    point: Point::Diagnose,
                    note,
                    fault: reason_for(event),
                    harness,
                },
            },
            Point::Announce => match event {
                Event::Done => Boot::settle(context, config, sink, note, fault, harness),
                _ => Boot {
                    context,
                    config,
                    sink,
                    point: Point::Diagnose,
                    note,
                    fault: reason_for(event),
                    harness,
                },
            },
            Point::Tests => match event {
                Event::Fault(reason) => Boot {
                    context,
                    config,
                    sink,
                    point: Point::Diagnose,
                    note,
                    fault: reason.clone(),
                    harness,
                },
                Event::Degraded(reason) => Boot {
                    context,
                    config,
                    sink,
                    point: Point::Diagnose,
                    note,
                    fault: reason.clone(),
                    harness,
                },
                Event::Answer(reply) => {
                    let harness = harness.advance(reply);
                    Boot::settle(context, config, sink, note, fault, harness)
                },
                Event::Done => {
                    let harness = harness.advance(&Reply::Done);
                    Boot::settle(context, config, sink, note, fault, harness)
                },
            },
            Point::Shutdown => Boot { context, config, sink, point, note, fault, harness },
            Point::Diagnose => Boot { context, config, sink, point: Point::Off, note, fault, harness },
            Point::Off => Boot { context, config, sink, point, note, fault, harness },
        }
    }
}

} // verus!
