//! Boot sequencing for a minimal single-core kernel image.
//!
//! The crate holds the decisions of a boot: the order of its phases, the
//! severity filter of the logging sink, the allocator self-test harness and
//! the bridge that turns any fault into a power-off. Hardware is never
//! touched here. The orchestrator names the next thing the platform has to
//! do as an [`boot::Action`] and is told how that went as an
//! [`boot::Event`]; the loop that performs the actions lives with the
//! platform code.
//!
//! - [`boot`]: the orchestrator and the bridge.
//! - [`zeroing`]: the zeroing of uninitialised static data.
//! - [`logging`]: severity levels and the sink.
//! - [`harness`], [`scenario`], [`battery`], [`selftest`]: the allocator
//!   self-test, its operations and judgements, its fixed scenarios, and the
//!   test as one call.
//! - [`block`], [`pattern`], [`text`], [`report`]: blocks and their
//!   conflicts, the byte pattern, decimal text, verdicts in words.
//! - [`boot_laws`], [`phase_laws`], [`harness_laws`], [`scenario_laws`]:
//!   what is proved of every boot and its bridge, of the order of the
//!   phases, of every run of the harness, and of each scenario of the
//!   battery.

pub mod battery;
pub mod block;
pub mod boot;
pub mod boot_laws;
pub mod harness;
pub mod harness_laws;
pub mod logging;
pub mod pattern;
pub mod phase_laws;
pub mod report;
pub mod scenario;
pub mod scenario_laws;
pub mod selftest;
pub mod text;
pub mod zeroing;

use vstd::prelude::*;
use crate::battery::{standard_battery, standard_plan};
use crate::boot::{action_views, Action, Boot, BootContext, BootView, Event};
use crate::logging::LogConfig;

verus! {

/// Runs the boot of core `cpu_id` against a platform that answers with
/// `events`, one event for each action in turn, and returns every action
/// that the boot asks for, in order.
///
/// The boot starts with the zeroing of memory and uses the standard
/// battery of allocator tests. It ends with the power-off: events that are
/// left over then are not looked at. Where the events run out first, the
/// last action returned is the one still pending.
pub fn rust_main(cpu_id: usize, arg: usize, config: LogConfig, events: &Vec<Event>) -> (trace: Vec<
    Action,
>)
    ensures
        action_views(trace@) == BootView::start(
            BootContext { cpu_id, boot_arg: arg },
            config,
            standard_battery(),
        ).run(events@),
{
    let context = BootContext { cpu_id, boot_arg: arg };
    let mut boot = Boot::new(context, config, standard_plan());
    let mut trace: Vec<Action> = Vec::new();
    let mut i: usize = 0;
    let ghost whole = BootView::start(context, config, standard_battery()).run(events@);
    proof {
        assert(events@.skip(0) =~= events@);
    }
    while i < events.len() && !boot.is_off()
        invariant
            i <= events@.len(),
            whole == action_views(trace@) + boot@.run(events@.skip(i as int)),
        decreases events@.len() - i,
    {
        let action = boot.pending();
        let ghost rest = events@.skip(i as int);
        proof {
            assert(rest.len() > 0);
            assert(rest[0] == events@[i as int]);
            assert(rest.drop_first() =~= events@.skip(i + 1));
            assert(action_views(trace@.push(action)) =~= action_views(trace@).push(action@));
        }
        trace.push(action);
        boot = boot.advance(&events[i]);
        i = i + 1;
    }
    let last = boot.pending();
    proof {
        assert(action_views(trace@.push(last)) =~= action_views(trace@).push(last@));
    }
    trace.push(last);
    trace
}

} // verus!
