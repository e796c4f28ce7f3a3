//! What holds of every boot: its run, and the bridge.

use vstd::prelude::*;
use crate::boot::{lemma_boot_next_well_formed, ActionView, BootView, Bridge, Event};
use crate::harness::Verdict;
use crate::harness_laws::law_rejection_fails;
use crate::logging::{Level, LineView};
use crate::report::{failure_text, verdict_text};
use crate::scenario::{judge, request_of, Reply};

verus! {

/// A run, taken apart: it begins with the pending action, and where it
/// goes on, it goes on as the run of the next state on the other events.
pub proof fn lemma_run_unfold(boot: BootView, events: Seq<Event>)
    ensures
        boot.run(events).len() >= 1,
        boot.run(events)[0] == boot.pending(),
        events.len() == 0 || boot.pending() is PowerOff ==> boot.run(events) == seq![boot.pending()],
        events.len() > 0 && !(boot.pending() is PowerOff) ==> boot.run(events).drop_first()
            == boot.next(events[0]).run(events.drop_first()),
{
    if events.len() > 0 && !(boot.pending() is PowerOff) {
        assert(boot.run(events).drop_first() =~= boot.next(events[0]).run(events.drop_first()));
    }
}

/// Once the bridge is triggered the boot never reaches its shutdown: all
/// that is left of the run is the line of the bridge and the power-off.
/// Nothing more is asked of the platform or of the allocator and no record
/// goes through the sink.
pub proof fn law_bridge_is_one_way(boot: BootView, events: Seq<Event>)
    requires
        boot.point is Diagnose || boot.point is Off,
    ensures
        !(boot.after(events).point is Shutdown),
        boot.after(events).bridge() != Bridge::Armed,
        boot.point is Off ==> boot.run(events) == seq![ActionView::PowerOff],
        boot.point is Diagnose && events.len() == 0 ==> boot.run(events) == seq![
            ActionView::Print(LineView { level: Level::Error, text: boot.fault }),
        ],
        boot.point is Diagnose && events.len() > 0 ==> boot.run(events) == seq![
            ActionView::Print(LineView { level: Level::Error, text: boot.fault }),
            ActionView::PowerOff,
        ],
        forall|i: int|
            0 <= i < boot.run(events).len() ==> (#[trigger] boot.run(events)[i]) is Print
                || boot.run(events)[i] is PowerOff,
{
    lemma_run_unfold(boot, events);
    if events.len() > 0 && !(boot.pending() is PowerOff) {
        let next = boot.next(events[0]);
        let rest = events.drop_first();
        lemma_run_unfold(next, rest);
        assert(next.after(rest) == next);
        assert(boot.run(events) =~= seq![boot.pending()] + next.run(rest));
        assert(boot.run(events) =~= seq![boot.pending(), ActionView::PowerOff]);
    }
}

/// The bridge, triggered, goes to its terminal state on any event at all,
/// and nothing leaves that state.
pub proof fn law_bridge_transitions(boot: BootView, event: Event)
    ensures
        boot.bridge() == Bridge::Triggered ==> boot.next(event).bridge() == Bridge::Terminal,
        boot.bridge() == Bridge::Terminal ==> boot.next(event) == boot,
        boot.bridge() == Bridge::Terminal ==> boot.pending() is PowerOff,
        boot.bridge() != Bridge::Armed ==> boot.next(event).bridge() != Bridge::Armed,
{
}

/// Events leave a well-formed boot well formed.
pub proof fn law_after_well_formed(boot: BootView, events: Seq<Event>)
    requires
        boot.well_formed(),
    ensures
        boot.after(events).well_formed(),
    decreases events.len(),
{
    if events.len() > 0 && !(boot.pending() is PowerOff) {
        lemma_boot_next_well_formed(boot, events[0]);
        law_after_well_formed(boot.next(events[0]), events.drop_first());
    }
}

/// A boot keeps its context, its configuration and its plan.
pub proof fn law_plan_is_kept(boot: BootView, events: Seq<Event>)
    ensures
        boot.after(events).context == boot.context,
        boot.after(events).config == boot.config,
        boot.after(events).harness.plan == boot.harness.plan,
    decreases events.len(),
{
    if events.len() > 0 && !(boot.pending() is PowerOff) {
        law_plan_is_kept(boot.next(events[0]), events.drop_first());
    }
}

/// An action further on in a run is an action of the run that the next
/// state makes of the other events.
pub proof fn lemma_run_step(boot: BootView, events: Seq<Event>, i: int)
    requires
        1 <= i < boot.run(events).len(),
    ensures
        events.len() >= 1,
        !(boot.pending() is PowerOff),
        i - 1 < boot.next(events[0]).run(events.drop_first()).len(),
        boot.next(events[0]).run(events.drop_first())[i - 1] == boot.run(events)[i],
{
    lemma_run_unfold(boot, events);
    assert(boot.run(events)[i] == boot.run(events).drop_first()[i - 1]);
}

/// Fail-fast, seen from the boot: a failed scenario ends it.
///
/// Take a boot in its tests and a reply that the harness rejects. The
/// verdict of the scenario under way is then a failure at the step at
/// hand, and from there on the allocator is asked nothing more, whatever
/// events follow: no later operation and no later scenario runs. Where the
/// failure line gets written, the run is that line, then the line of the
/// bridge, which names the scenario and says what was expected and what
/// was observed, then the power-off.
pub proof fn law_failure_ends_the_boot(boot: BootView, reply: Reply, events: Seq<Event>)
    requires
        boot.well_formed(),
        boot.point is Tests,
        boot.harness.stage is Running,
        request_of(boot.harness.op(), boot.harness.slots) is Some,
        judge(boot.harness.op(), boot.harness.slots, reply) is Reject,
    ensures
        ({
            let failed = boot.next(Event::Answer(reply));
            let verdict = Verdict::Fail {
                step: boot.harness.pc as usize,
                finding: judge(boot.harness.op(), boot.harness.slots, reply)->Reject_0,
            };
            let label = boot.harness.label(boot.harness.scenario as int);
            let told = ActionView::Log(
                LineView { level: Level::Error, text: verdict_text(label, verdict) },
            );
            let diagnosed = ActionView::Print(
                LineView { level: Level::Error, text: failure_text(label, verdict) },
            );
            &&& failed.bridge() == Bridge::Armed
            &&& failed.harness.report == boot.harness.report.push(verdict)
            &&& failed.pending() == told
            &&& forall|i: int|
                0 <= i < failed.run(events).len() ==> !(#[trigger] failed.run(events)[i] is Allocator)
            &&& failed.after(events).harness.report == failed.harness.report
            &&& events.len() >= 2 && (events[0] is Done || events[0] is Answer) ==> failed.run(events)
                == seq![told, diagnosed, ActionView::PowerOff]
        }),
{
    let failed = boot.next(Event::Answer(reply));
    law_rejection_fails(boot.harness, reply);
    lemma_boot_next_well_formed(boot, Event::Answer(reply));
    lemma_run_unfold(failed, events);
    if events.len() > 0 {
        let halted = failed.next(events[0]);
        let rest = events.drop_first();
        lemma_boot_next_well_formed(failed, events[0]);
        assert(halted.point is Diagnose);
        law_bridge_is_one_way(halted, rest);
        law_bridge_keeps_report(halted, rest);
        lemma_run_unfold(halted, rest);
        assert forall|i: int| 0 <= i < failed.run(events).len() implies !(
        #[trigger] failed.run(events)[i] is Allocator) by {
            if i > 0 {
                assert(failed.run(events)[i] == failed.run(events).drop_first()[i - 1]);
            }
        }
        if events.len() >= 2 && (events[0] is Done || events[0] is Answer) {
            let off = halted.next(rest[0]);
            lemma_run_unfold(off, rest.drop_first());
            assert(halted.run(rest) =~= seq![halted.pending()] + off.run(rest.drop_first()));
            assert(failed.run(events) =~= seq![failed.pending()] + halted.run(rest));
            assert(failed.run(events) =~= seq![
                failed.pending(),
                halted.pending(),
                ActionView::PowerOff,
            ]);
        }
    }
}

/// Behind the bridge the harness is not touched any more.
pub proof fn law_bridge_keeps_report(boot: BootView, events: Seq<Event>)
    requires
        boot.point is Diagnose || boot.point is Off,
    ensures
        boot.after(events).harness == boot.harness,
        boot.after(events).fault == boot.fault,
    decreases events.len(),
{
    if events.len() > 0 && !(boot.pending() is PowerOff) {
        law_bridge_keeps_report(boot.next(events[0]), events.drop_first());
    }
}

/// What triggers the bridge: a fault at any point before the shutdown, and
/// with it the description of the fault becomes the line of the bridge.
pub proof fn law_fault_triggers_the_bridge(boot: BootView, reason: String)
    requires
        boot.bridge() == Bridge::Armed,
        !(boot.point is Shutdown),
    ensures
        boot.next(Event::Fault(reason)).bridge() == Bridge::Triggered,
        boot.next(Event::Fault(reason)).fault == reason@,
        boot.next(Event::Fault(reason)).pending() == ActionView::Print(
            LineView { level: Level::Error, text: reason@ },
        ),
        boot.next(Event::Fault(reason)).harness == boot.harness,
{
}

} // verus!
