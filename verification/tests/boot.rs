use rstiny::battery::standard_plan;
use rstiny::block::Block;
use rstiny::boot::{Action, Boot, BootContext, Bridge, Event, Phase, Point};
use rstiny::harness::{Scenario, Verdict};
use rstiny::logging::{Level, LogConfig, Sink};
use rstiny::pattern::pattern_at;
use rstiny::rust_main;
use rstiny::scenario::{Finding, Op, Reply, Request};

/// A toy allocator over toy memory: it hands out addresses in rising order
/// and keeps the bytes of each live block.
struct Heap {
    next: usize,
    live: Vec<(usize, Vec<u8>)>,
    /// Serve a request for no bytes with a handle of its own.
    serve_empty: bool,
    /// Lose the contents of a block that is reallocated.
    forget_on_growth: bool,
    /// Refuse every request from this many served allocations on.
    refuse_after: Option<usize>,
    served: usize,
}

impl Heap {
    fn new() -> Heap {
        Heap {
            next: 0x1000,
            live: Vec::new(),
            serve_empty: false,
            forget_on_growth: false,
            refuse_after: None,
            served: 0,
        }
    }

    fn take(&mut self, size: usize) -> Option<usize> {
        if let Some(limit) = self.refuse_after {
            if self.served >= limit {
                return None;
            }
        }
        if size == 0 && !self.serve_empty {
            return None;
        }
        let addr = self.next;
        self.next += (size + 8) / 8 * 8;
        self.live.push((addr, vec![0xCC; size]));
        self.served += 1;
        Some(addr)
    }

    fn find(&self, block: &Block) -> usize {
        self.live.iter().position(|(addr, _)| *addr == block.addr).expect("a live block")
    }

    fn answer(&mut self, request: &Request) -> Reply {
        match request {
            Request::Allocate { size } => Reply::Address(self.take(*size)),
            Request::Reallocate { block, size } => {
                let at = self.find(block);
                let (_, old) = self.live.remove(at);
                match self.take(*size) {
                    Some(addr) => {
                        if !self.forget_on_growth {
                            let kept = old.len().min(*size);
                            let last = self.live.len() - 1;
                            self.live[last].1[..kept].copy_from_slice(&old[..kept]);
                        }
                        Reply::Address(Some(addr))
                    }
                    None => Reply::Address(None),
                }
            }
            Request::Deallocate { block } => {
                let at = self.find(block);
                self.live.remove(at);
                Reply::Done
            }
            Request::Fill { block, seed } => {
                let at = self.find(block);
                for i in 0..block.size {
                    self.live[at].1[i] = pattern_at(*seed, i);
                }
                Reply::Done
            }
            Request::Read { block, len } => {
                let at = self.find(block);
                Reply::Bytes(self.live[at].1[..*len].to_vec())
            }
        }
    }
}

fn context() -> BootContext {
    BootContext { cpu_id: 0, boot_arg: 0x4000_0000 }
}

fn config(minimum_level: Level) -> LogConfig {
    LogConfig { minimum_level, sink: Sink::Console }
}

/// Runs a boot to its power-off. `outcome` may replace the event that
/// would follow an action.
fn boot_with(
    mut boot: Boot,
    heap: &mut Heap,
    outcome: &dyn Fn(&Action) -> Option<Event>,
) -> (Vec<Action>, Vec<Event>, Boot) {
    let mut trace = Vec::new();
    let mut events = Vec::new();
    loop {
        let action = boot.pending();
        if let Action::PowerOff = action {
            trace.push(action);
            return (trace, events, boot);
        }
        let event = match outcome(&action) {
            Some(event) => event,
            None => match &action {
                Action::Allocator(request) => Event::Answer(heap.answer(request)),
                _ => Event::Done,
            },
        };
        trace.push(action);
        boot = boot.advance(&event);
        events.push(event);
        assert!(trace.len() < 10_000, "the boot does not end");
    }
}

/// The lines that reach the console, each with a mark for the way it took:
/// `print` past the sink, `log` through it.
fn console(trace: &[Action]) -> Vec<(&'static str, Level, String)> {
    let mut lines = Vec::new();
    for action in trace {
        match action {
            Action::Print(line) => lines.push(("print", line.level, line.text.clone())),
            Action::Log(line) => lines.push(("log", line.level, line.text.clone())),
            _ => {}
        }
    }
    lines
}

fn requests(trace: &[Action]) -> usize {
    trace.iter().filter(|action| matches!(action, Action::Allocator(_))).count()
}

fn no_fault(_: &Action) -> Option<Event> {
    None
}

#[test]
fn clean_boot_at_info() {
    let mut heap = Heap::new();
    let boot = Boot::new(context(), config(Level::Info), standard_plan());
    let (trace, _, end) = boot_with(boot, &mut heap, &no_fault);
    let expected = vec![
        ("print", Level::Info, String::from("Hello, ArceOS!")),
        ("log", Level::Info, String::from("Logging initialized. This is an info message.")),
        (
            "log",
            Level::Info,
            String::from("allocator test `single allocation/deallocation round-trip`: pass"),
        ),
        ("log", Level::Info, String::from("allocator test `multiple concurrent live allocations`: pass")),
        ("log", Level::Info, String::from("allocator test `growth (reallocation)`: pass")),
        (
            "log",
            Level::Info,
            String::from("allocator test `fragmentation/reuse after mixed free pattern`: pass"),
        ),
        ("log", Level::Info, String::from("allocator test `zero-size / boundary requests`: pass")),
    ];
    assert_eq!(console(&trace), expected);
    assert!(matches!(trace.last(), Some(Action::PowerOff)));
    assert_eq!(end.point(), Point::Shutdown);
    assert_eq!(end.bridge(), Bridge::Armed);
    assert_eq!(end.report(), vec![Verdict::Pass; 5]);
    assert!(heap.live.is_empty());
}

#[test]
fn clean_boot_with_an_allocator_that_serves_empty_requests() {
    let mut heap = Heap::new();
    heap.serve_empty = true;
    let boot = Boot::new(context(), config(Level::Info), standard_plan());
    let (trace, _, end) = boot_with(boot, &mut heap, &no_fault);
    assert_eq!(end.report(), vec![Verdict::Pass; 5]);
    assert_eq!(console(&trace).len(), 7);
    assert!(heap.live.is_empty());
}

#[test]
fn growth_that_loses_the_contents_ends_the_boot() {
    let mut heap = Heap::new();
    heap.forget_on_growth = true;
    let boot = Boot::new(context(), config(Level::Info), standard_plan());
    let (trace, _, end) = boot_with(boot, &mut heap, &no_fault);
    let failure = "allocator test `growth (reallocation)`: FAIL at step 5: \
                   expected byte 195 at offset 0, observed byte 204";
    let expected = vec![
        ("print", Level::Info, String::from("Hello, ArceOS!")),
        ("log", Level::Info, String::from("Logging initialized. This is an info message.")),
        (
            "log",
            Level::Info,
            String::from("allocator test `single allocation/deallocation round-trip`: pass"),
        ),
        ("log", Level::Info, String::from("allocator test `multiple concurrent live allocations`: pass")),
        ("log", Level::Error, String::from(failure)),
        ("print", Level::Error, format!("allocator self-test failed: {}", failure)),
    ];
    assert_eq!(console(&trace), expected);
    assert!(matches!(trace.last(), Some(Action::PowerOff)));
    assert_eq!(end.point(), Point::Off);
    assert_eq!(end.bridge(), Bridge::Terminal);
    assert_eq!(
        end.report(),
        vec![
            Verdict::Pass,
            Verdict::Pass,
            Verdict::Fail {
                step: 5,
                finding: Finding::Corrupted { offset: 0, expected: 195, observed: 204 },
            },
        ]
    );
    // Nothing is asked of the allocator once the failure is in.
    let told = trace
        .iter()
        .position(|action| matches!(action, Action::Log(line) if line.level == Level::Error))
        .unwrap();
    assert_eq!(requests(&trace[told..]), 0);
    assert_eq!(trace.len(), told + 3);
}

#[test]
fn early_init_fault_ends_the_boot() {
    let mut heap = Heap::new();
    let boot = Boot::new(context(), config(Level::Info), standard_plan());
    let fault = |action: &Action| match action {
        Action::InitEarly(_) => Some(Event::Fault(String::from("no device tree"))),
        _ => None,
    };
    let (trace, _, end) = boot_with(boot, &mut heap, &fault);
    assert_eq!(trace.len(), 4);
    assert!(matches!(trace[0], Action::ZeroRegion));
    assert!(matches!(trace[1], Action::InitEarly(c) if c == context()));
    assert_eq!(console(&trace), vec![("print", Level::Error, String::from("no device tree"))]);
    assert!(matches!(trace[3], Action::PowerOff));
    assert_eq!(requests(&trace), 0);
    assert_eq!(end.bridge(), Bridge::Terminal);
    assert!(end.report().is_empty());
}

#[test]
fn early_init_fault_with_nothing_to_say() {
    let mut heap = Heap::new();
    let boot = Boot::new(context(), config(Level::Info), standard_plan());
    let fault = |action: &Action| match action {
        Action::InitEarly(_) => Some(Event::Fault(String::new())),
        _ => None,
    };
    let (trace, _, _) = boot_with(boot, &mut heap, &fault);
    assert_eq!(console(&trace), vec![("print", Level::Error, String::new())]);
    assert!(matches!(trace.last(), Some(Action::PowerOff)));
}

#[test]
fn phases_come_in_order_and_once() {
    let mut heap = Heap::new();
    let boot = Boot::new(context(), config(Level::Info), standard_plan());
    let (trace, _, _) = boot_with(boot, &mut heap, &no_fault);
    let word: Vec<Phase> = trace.iter().filter_map(|action| action.phase()).collect();
    // 8 + 16 + 12 + 12 + 10 requests: the probe is refused and its release passed over.
    let mut expected = vec![Phase::Zero, Phase::InitEarly, Phase::InitLater, Phase::LogInit];
    expected.extend(vec![Phase::Harness; 58]);
    expected.push(Phase::Shutdown);
    assert_eq!(word, expected);
    assert!(matches!(trace[4], Action::LogInit(c) if c == config(Level::Info)));
    assert!(matches!(trace[2], Action::InitLater(c) if c == context()));
}

#[test]
fn zeroing_fault_goes_over_the_bridge_without_a_record() {
    let mut heap = Heap::new();
    let boot = Boot::new(context(), config(Level::Trace), standard_plan());
    let fault = |action: &Action| match action {
        Action::ZeroRegion => Some(Event::Fault(String::from("region bounds unavailable"))),
        _ => None,
    };
    let (trace, _, _) = boot_with(boot, &mut heap, &fault);
    assert_eq!(trace.len(), 3);
    assert_eq!(
        console(&trace),
        vec![("print", Level::Error, String::from("region bounds unavailable"))]
    );
}

#[test]
fn no_record_before_the_sink_is_installed() {
    let mut heap = Heap::new();
    let boot = Boot::new(context(), config(Level::Trace), standard_plan());
    let (trace, _, _) = boot_with(boot, &mut heap, &no_fault);
    let first = trace.iter().position(|action| matches!(action, Action::Log(_))).unwrap();
    assert_eq!(first, 5);
    assert!(matches!(trace[0], Action::ZeroRegion));
    assert!(matches!(trace[4], Action::LogInit(_)));
}

#[test]
fn degraded_later_init_is_tolerated_and_logged() {
    let mut heap = Heap::new();
    let boot = Boot::new(context(), config(Level::Info), standard_plan());
    let degraded = |action: &Action| match action {
        Action::InitLater(_) => Some(Event::Degraded(String::from("no network card"))),
        _ => None,
    };
    let (trace, _, end) = boot_with(boot, &mut heap, &degraded);
    let lines = console(&trace);
    assert_eq!(lines.len(), 8);
    assert_eq!(lines[0], ("print", Level::Info, String::from("Hello, ArceOS!")));
    assert_eq!(lines[1], ("log", Level::Warn, String::from("init_later degraded: no network card")));
    assert_eq!(
        lines[2],
        ("log", Level::Info, String::from("Logging initialized. This is an info message."))
    );
    assert_eq!(end.point(), Point::Shutdown);
    assert_eq!(end.report(), vec![Verdict::Pass; 5]);
}

#[test]
fn degraded_early_init_is_a_fault() {
    let mut heap = Heap::new();
    let boot = Boot::new(context(), config(Level::Info), standard_plan());
    let degraded = |action: &Action| match action {
        Action::InitEarly(_) => Some(Event::Degraded(String::from("no console"))),
        _ => None,
    };
    let (trace, _, end) = boot_with(boot, &mut heap, &degraded);
    assert_eq!(console(&trace), vec![("print", Level::Error, String::from("no console"))]);
    assert_eq!(end.bridge(), Bridge::Terminal);
}

#[test]
fn records_below_the_threshold_leave_no_trace() {
    let mut heap = Heap::new();
    let boot = Boot::new(context(), config(Level::Error), standard_plan());
    let degraded = |action: &Action| match action {
        Action::InitLater(_) => Some(Event::Degraded(String::from("no network card"))),
        _ => None,
    };
    let (trace, _, end) = boot_with(boot, &mut heap, &degraded);
    // The greeting is written past the sink; every record is below `error`.
    assert_eq!(console(&trace), vec![("print", Level::Info, String::from("Hello, ArceOS!"))]);
    assert_eq!(end.report(), vec![Verdict::Pass; 5]);
    assert!(matches!(trace.last(), Some(Action::PowerOff)));
}

#[test]
fn a_failure_is_told_at_any_threshold() {
    let mut heap = Heap::new();
    heap.refuse_after = Some(0);
    let boot = Boot::new(context(), config(Level::Error), standard_plan());
    let (trace, _, end) = boot_with(boot, &mut heap, &no_fault);
    let failure = "allocator test `single allocation/deallocation round-trip`: FAIL at step 0: \
                   expected a block of 64 bytes, observed a refusal";
    assert_eq!(
        console(&trace),
        vec![
            ("print", Level::Info, String::from("Hello, ArceOS!")),
            ("log", Level::Error, String::from(failure)),
            ("print", Level::Error, format!("allocator self-test failed: {}", failure)),
        ]
    );
    assert_eq!(requests(&trace), 1);
    assert_eq!(
        end.report(),
        vec![Verdict::Fail { step: 0, finding: Finding::Refused { size: 64 } }]
    );
}

#[test]
fn fault_during_the_tests_goes_over_the_bridge() {
    let mut heap = Heap::new();
    let boot = Boot::new(context(), config(Level::Info), standard_plan());
    let fault = |action: &Action| match action {
        Action::Allocator(Request::Fill { .. }) => Some(Event::Fault(String::from("data abort"))),
        _ => None,
    };
    let (trace, _, end) = boot_with(boot, &mut heap, &fault);
    let lines = console(&trace);
    assert_eq!(lines.last(), Some(&("print", Level::Error, String::from("data abort"))));
    assert_eq!(requests(&trace), 2);
    assert_eq!(end.bridge(), Bridge::Terminal);
    assert!(end.report().is_empty());
}

#[test]
fn stray_event_is_a_fault() {
    let boot = Boot::new(context(), config(Level::Info), standard_plan());
    let boot = boot.advance(&Event::Answer(Reply::Address(Some(8))));
    assert_eq!(boot.point(), Point::Diagnose);
    assert_eq!(boot.bridge(), Bridge::Triggered);
    match boot.pending() {
        Action::Print(line) => {
            assert_eq!(line.level, Level::Error);
            assert_eq!(line.text, "unexpected event from the platform");
        }
        other => panic!("{:?}", other),
    }
}

#[test]
fn bridge_goes_off_on_any_event_and_stays_off() {
    let boot = Boot::new(context(), config(Level::Info), standard_plan());
    assert_eq!(boot.bridge(), Bridge::Armed);
    let boot = boot.advance(&Event::Fault(String::from("trap")));
    assert_eq!(boot.bridge(), Bridge::Triggered);
    assert!(!boot.is_off());
    // Even a fault of the console does not hold the power-off back.
    let boot = boot.advance(&Event::Fault(String::from("console gone")));
    assert_eq!(boot.bridge(), Bridge::Terminal);
    assert!(boot.is_off());
    assert!(matches!(boot.pending(), Action::PowerOff));
    let boot = boot.advance(&Event::Done);
    assert_eq!(boot.point(), Point::Off);
    let boot = boot.advance(&Event::Fault(String::from("again")));
    assert_eq!(boot.point(), Point::Off);
    assert!(matches!(boot.pending(), Action::PowerOff));
}

#[test]
fn shutdown_is_left_by_nothing() {
    let boot = Boot::new(context(), config(Level::Info), Vec::new());
    let mut heap = Heap::new();
    let (trace, _, end) = boot_with(boot, &mut heap, &no_fault);
    assert_eq!(trace.len(), 7);
    assert_eq!(end.point(), Point::Shutdown);
    let end = end.advance(&Event::Fault(String::from("late")));
    assert_eq!(end.point(), Point::Shutdown);
    assert_eq!(end.bridge(), Bridge::Armed);
    assert!(matches!(end.pending(), Action::PowerOff));
}

#[test]
fn rust_main_replays_a_boot() {
    let mut heap = Heap::new();
    let boot = Boot::new(context(), config(Level::Info), standard_plan());
    let (trace, events, _) = boot_with(boot, &mut heap, &no_fault);
    let again = rust_main(0, 0x4000_0000, config(Level::Info), &events);
    assert_eq!(format!("{:?}", again), format!("{:?}", trace));
    assert!(matches!(again.last(), Some(Action::PowerOff)));
}

#[test]
fn rust_main_stops_where_the_events_run_out() {
    let events = vec![Event::Done, Event::Done];
    let trace = rust_main(3, 9, config(Level::Info), &events);
    assert_eq!(trace.len(), 3);
    assert!(matches!(trace[0], Action::ZeroRegion));
    assert!(matches!(trace[1], Action::InitEarly(c) if c == BootContext { cpu_id: 3, boot_arg: 9 }));
    assert!(matches!(trace[2], Action::InitLater(c) if c == BootContext { cpu_id: 3, boot_arg: 9 }));
}

#[test]
fn rust_main_ignores_events_after_the_power_off() {
    let events = vec![
        Event::Fault(String::from("trap")),
        Event::Done,
        Event::Done,
        Event::Done,
        Event::Done,
    ];
    let trace = rust_main(0, 0, config(Level::Info), &events);
    assert_eq!(trace.len(), 3);
    assert!(matches!(trace[0], Action::ZeroRegion));
    assert!(matches!(&trace[1], Action::Print(line) if line.text == "trap"));
    assert!(matches!(trace[2], Action::PowerOff));
}

#[test]
fn rust_main_without_events_asks_for_the_zeroing() {
    let trace = rust_main(0, 0, config(Level::Info), &Vec::new());
    assert_eq!(trace.len(), 1);
    assert!(matches!(trace[0], Action::ZeroRegion));
}

#[test]
fn a_plan_of_one_scenario_with_an_empty_script_passes() {
    let plan = vec![Scenario { label: String::from("nothing to do"), script: Vec::<Op>::new() }];
    let boot = Boot::new(context(), config(Level::Info), plan);
    let mut heap = Heap::new();
    let (trace, _, end) = boot_with(boot, &mut heap, &no_fault);
    assert_eq!(end.report(), vec![Verdict::Pass]);
    assert_eq!(
        console(&trace).last(),
        Some(&("log", Level::Info, String::from("allocator test `nothing to do`: pass")))
    );
    assert_eq!(requests(&trace), 0);
}

#[test]
fn phases_of_actions() {
    assert_eq!(Action::ZeroRegion.phase(), Some(Phase::Zero));
    assert_eq!(Action::InitEarly(context()).phase(), Some(Phase::InitEarly));
    assert_eq!(Action::InitLater(context()).phase(), Some(Phase::InitLater));
    assert_eq!(Action::LogInit(config(Level::Warn)).phase(), Some(Phase::LogInit));
    assert_eq!(Action::Allocator(Request::Allocate { size: 1 }).phase(), Some(Phase::Harness));
    assert_eq!(Action::PowerOff.phase(), Some(Phase::Shutdown));
    assert_eq!(Action::Proceed.phase(), None);
}

#[test]
fn a_faulted_boot_repeats_no_phase() {
    let mut heap = Heap::new();
    let boot = Boot::new(context(), config(Level::Info), standard_plan());
    let fault = |action: &Action| match action {
        Action::LogInit(_) => Some(Event::Fault(String::from("no logger"))),
        _ => None,
    };
    let (trace, _, _) = boot_with(boot, &mut heap, &fault);
    let word: Vec<Phase> = trace.iter().filter_map(|action| action.phase()).collect();
    assert_eq!(
        word,
        vec![Phase::Zero, Phase::InitEarly, Phase::InitLater, Phase::LogInit, Phase::Shutdown]
    );
}
