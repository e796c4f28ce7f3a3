//! What holds of every boot: the order of its phases.

use vstd::prelude::*;
use crate::boot::{
    greeting_text, lemma_boot_start_well_formed, phase_of, ActionView, BootContext, BootView, Event,
    Phase, Point,
};
use crate::boot_laws::{
    law_after_well_formed, law_bridge_is_one_way, law_plan_is_kept, lemma_run_step,
    lemma_run_unfold,
};
use crate::harness::{all_pass, plan_fits, ScenarioView};
use crate::logging::{Level, LineView, LogConfig};

verus! {

/// The phases of the actions of a run, in the order of the run.
pub open spec fn phases(actions: Seq<ActionView>) -> Seq<Phase>
    decreases actions.len(),
{
    if actions.len() == 0 {
        Seq::empty()
    } else {
        match phase_of(actions[0]) {
            Some(phase) => seq![phase] + phases(actions.drop_first()),
            None => phases(actions.drop_first()),
        }
    }
}

/// The phases that are still to come before the tests when the boot
/// stands at `point`.
pub open spec fn lead_of(point: Point) -> Seq<Phase> {
    match point {
        Point::Zero => seq![Phase::Zero, Phase::InitEarly, Phase::InitLater, Phase::LogInit],
        Point::InitEarly => seq![Phase::InitEarly, Phase::InitLater, Phase::LogInit],
        Point::InitLater => seq![Phase::InitLater, Phase::LogInit],
        Point::Greeting => seq![Phase::LogInit],
        Point::LogInit => seq![Phase::LogInit],
        _ => Seq::empty(),
    }
}

/// A word of phases is in order after `lead` when it is `lead`, then the
/// harness any number of times, then the shutdown, and nothing else.
pub open spec fn in_order(word: Seq<Phase>, lead: Seq<Phase>) -> bool {
    &&& word.len() > lead.len()
    &&& forall|i: int| 0 <= i < lead.len() ==> word[i] == lead[i]
    &&& forall|i: int| lead.len() <= i < word.len() - 1 ==> word[i] == Phase::Harness
    &&& word.last() == Phase::Shutdown
}

/// A phase in front of a word keeps it in order: in front of the lead
/// when it is the next phase of the lead, and anywhere when it is the
/// harness and the lead is through.
proof fn lemma_in_order_grows(word: Seq<Phase>, lead: Seq<Phase>, phase: Phase)
    requires
        in_order(word, lead),
    ensures
        in_order(seq![phase] + word, seq![phase] + lead),
        lead.len() == 0 && phase == Phase::Harness ==> in_order(seq![phase] + word, lead),
{
    let longer = seq![phase] + word;
    let ahead = seq![phase] + lead;
    assert forall|i: int| 0 <= i < ahead.len() implies longer[i] == ahead[i] by {
        if i > 0 {
            assert(longer[i] == word[i - 1]);
            assert(ahead[i] == lead[i - 1]);
        }
    }
    assert forall|i: int| ahead.len() <= i < longer.len() - 1 implies longer[i]
        == Phase::Harness by {
        assert(longer[i] == word[i - 1]);
    }
    assert(longer.last() == word.last());
    if lead.len() == 0 && phase == Phase::Harness {
        assert forall|i: int| 0 <= i < longer.len() - 1 implies longer[i] == Phase::Harness by {
            if i > 0 {
                assert(longer[i] == word[i - 1]);
            }
        }
    }
}

/// One step of a boot that stays clear of the bridge, in phases: the
/// pending action is the next phase of the lead, or a request of the
/// harness once the lead is through, or belongs to no phase.
proof fn lemma_step_lead(boot: BootView, event: Event)
    requires
        !(boot.pending() is PowerOff),
        !(boot.point is Diagnose),
        !(boot.next(event).point is Diagnose),
    ensures
        match phase_of(boot.pending()) {
            Some(phase) => lead_of(boot.point) == seq![phase] + lead_of(boot.next(event).point) || (
            phase == Phase::Harness && lead_of(boot.point).len() == 0 && lead_of(
                boot.next(event).point,
            ).len() == 0),
            None => lead_of(boot.point) == lead_of(boot.next(event).point),
        },
{
    match phase_of(boot.pending()) {
        Some(phase) => {
            assert(lead_of(boot.point) =~= seq![phase] + lead_of(boot.next(event).point) || (phase
                == Phase::Harness && lead_of(boot.point).len() == 0 && lead_of(
                boot.next(event).point,
            ).len() == 0));
        },
        None => {
            assert(lead_of(boot.point) =~= lead_of(boot.next(event).point));
        },
    }
}

/// The phases of a run that goes on are the phase of the pending action,
/// if it has one, and then the phases of the rest of the run.
proof fn lemma_phases_unfold(boot: BootView, events: Seq<Event>)
    requires
        events.len() > 0,
        !(boot.pending() is PowerOff),
    ensures
        phases(boot.run(events)) == match phase_of(boot.pending()) {
            Some(phase) => seq![phase] + phases(boot.next(events[0]).run(events.drop_first())),
            None => phases(boot.next(events[0]).run(events.drop_first())),
        },
{
    lemma_run_unfold(boot, events);
}

/// From any point of a boot, a run that ends in the shutdown goes through
/// the phases that are still to come, in their order, each once.
pub proof fn law_phases_from(boot: BootView, events: Seq<Event>)
    requires
        boot.after(events).point is Shutdown,
    ensures
        in_order(phases(boot.run(events)), lead_of(boot.point)),
    decreases events.len(),
{
    if boot.point is Diagnose || boot.point is Off {
        law_bridge_is_one_way(boot, events);
    } else if events.len() == 0 || boot.pending() is PowerOff {
        let run = boot.run(events);
        lemma_run_unfold(boot, events);
        assert(run.drop_first() =~= Seq::<ActionView>::empty());
        assert(phases(run.drop_first()) =~= Seq::<Phase>::empty());
        assert(phases(run) =~= seq![Phase::Shutdown]);
    } else {
        let next = boot.next(events[0]);
        let rest = events.drop_first();
        if next.point is Diagnose || next.point is Off {
            law_bridge_is_one_way(next, rest);
        } else {
            law_phases_from(next, rest);
            lemma_phases_unfold(boot, events);
            lemma_step_lead(boot, events[0]);
            match phase_of(boot.pending()) {
                Some(phase) => {
                    lemma_in_order_grows(phases(next.run(rest)), lead_of(next.point), phase);
                },
                None => {},
            }
        }
    }
}

/// The phase order of a boot.
///
/// A run that starts at the start and ends in the shutdown, which is a
/// run in which no fault came in and no scenario failed, goes through the
/// phases in exactly this order: zeroing, early initialisation, later
/// initialisation, installation of the sink, the harness with each of its
/// requests, shutdown. None is left out, none comes twice but the harness
/// with its requests, none comes out of turn. At the end every scenario of
/// the plan has its verdict, and each is a pass.
pub proof fn law_phase_order(
    context: BootContext,
    config: LogConfig,
    plan: Seq<ScenarioView>,
    events: Seq<Event>,
)
    requires
        plan_fits(plan),
        BootView::start(context, config, plan).after(events).point is Shutdown,
    ensures
        in_order(
            phases(BootView::start(context, config, plan).run(events)),
            seq![Phase::Zero, Phase::InitEarly, Phase::InitLater, Phase::LogInit],
        ),
        BootView::start(context, config, plan).after(events).harness.report.len() == plan.len(),
        all_pass(BootView::start(context, config, plan).after(events).harness.report),
{
    let start = BootView::start(context, config, plan);
    lemma_boot_start_well_formed(context, config, plan);
    law_phases_from(start, events);
    assert(lead_of(start.point) =~= seq![
        Phase::Zero,
        Phase::InitEarly,
        Phase::InitLater,
        Phase::LogInit,
    ]);
    law_after_well_formed(start, events);
    law_plan_is_kept(start, events);
}

/// The actions that need the prelude of a boot: the installation of the
/// sink, a record through it, a request of the harness.
pub open spec fn needs_prelude(action: ActionView) -> bool {
    action is LogInit || action is Log || action is Allocator
}

/// Where a run holds an action that needs the prelude and the pending
/// action is none, the pending action was completed without a fault and
/// the run goes on as the run of the next state.
proof fn lemma_peel(boot: BootView, events: Seq<Event>, i: int)
    requires
        0 <= i < boot.run(events).len(),
        needs_prelude(boot.run(events)[i]),
        !needs_prelude(boot.pending()),
    ensures
        i >= 1,
        events.len() >= 1,
        !(boot.next(events[0]).point is Diagnose),
        !(boot.next(events[0]).point is Off),
        boot.run(events) == seq![boot.pending()] + boot.next(events[0]).run(events.drop_first()),
        i - 1 < boot.next(events[0]).run(events.drop_first()).len(),
        boot.next(events[0]).run(events.drop_first())[i - 1] == boot.run(events)[i],
{
    lemma_run_unfold(boot, events);
    lemma_run_step(boot, events, i);
    let next = boot.next(events[0]);
    let rest = events.drop_first();
    assert(boot.run(events) =~= seq![boot.pending()] + next.run(rest));
    if next.point is Diagnose || next.point is Off {
        law_bridge_is_one_way(next, rest);
    }
}

/// The prelude of a boot is fixed.
///
/// Where a run from the start installs the sink, sends a record through
/// it or asks the allocator for something, at whatever place, four actions
/// came before and each was completed: the zeroing of memory first, then
/// the early initialisation, which makes the console usable, the later
/// initialisation, which alone may have been completed in part, and the
/// greeting. The sink is installed right after these; a record or a
/// request of the harness comes only after the sink was installed.
pub proof fn law_prelude(
    context: BootContext,
    config: LogConfig,
    plan: Seq<ScenarioView>,
    events: Seq<Event>,
    i: int,
)
    requires
        0 <= i < BootView::start(context, config, plan).run(events).len(),
        needs_prelude(BootView::start(context, config, plan).run(events)[i]),
    ensures
        i >= 4,
        events.len() >= 4,
        BootView::start(context, config, plan).run(events)[0] == ActionView::ZeroRegion,
        events[0] is Done,
        BootView::start(context, config, plan).run(events)[1] == ActionView::InitEarly(context),
        events[1] is Done,
        BootView::start(context, config, plan).run(events)[2] == ActionView::InitLater(context),
        events[2] is Done || events[2] is Degraded,
        BootView::start(context, config, plan).run(events)[3] == ActionView::Print(
            LineView { level: Level::Info, text: greeting_text() },
        ),
        events[3] is Done,
        BootView::start(context, config, plan).run(events)[4] == ActionView::LogInit(config),
        BootView::start(context, config, plan).run(events)[i] is LogInit ==> i == 4,
        !(BootView::start(context, config, plan).run(events)[i] is LogInit) ==> i >= 5
            && events.len() >= 5 && events[4] is Done,
{
    let b0 = BootView::start(context, config, plan);
    let e0 = events;
    lemma_peel(b0, e0, i);
    let b1 = b0.next(e0[0]);
    let e1 = e0.drop_first();
    assert(b1.point is InitEarly && b1.context == context && b1.config == config);
    lemma_peel(b1, e1, i - 1);
    let b2 = b1.next(e1[0]);
    let e2 = e1.drop_first();
    assert(b2.point is InitLater && b2.context == context && b2.config == config);
    lemma_peel(b2, e2, i - 2);
    let b3 = b2.next(e2[0]);
    let e3 = e2.drop_first();
    assert(b3.point is Greeting && b3.context == context && b3.config == config);
    lemma_peel(b3, e3, i - 3);
    let b4 = b3.next(e3[0]);
    let e4 = e3.drop_first();
    assert(b4.point is LogInit && b4.config == config);
    lemma_run_unfold(b4, e4);
    assert(b0.run(e0)[4] == b4.run(e4)[0]);
    if i > 4 {
        lemma_sink_is_installed_once(b4, e4, i - 4);
    }
}

/// The sink is installed once: where the run of a boot that is about to
/// install it holds a later action that needs the prelude, the sink was
/// installed and that action is none that installs it.
proof fn lemma_sink_is_installed_once(boot: BootView, events: Seq<Event>, i: int)
    requires
        boot.point is LogInit,
        1 <= i < boot.run(events).len(),
        needs_prelude(boot.run(events)[i]),
    ensures
        events.len() >= 1,
        events[0] is Done,
        !(boot.run(events)[i] is LogInit),
{
    lemma_run_step(boot, events, i);
    let next = boot.next(events[0]);
    let rest = events.drop_first();
    if next.point is Diagnose {
        law_bridge_is_one_way(next, rest);
    } else {
        law_phases_never_repeat(next, rest);
    }
}

/// Memory zeroing is complete before any record is emitted.
///
/// Where a run from the start holds a record that the sink forwarded, at
/// whatever place, the first action of the run was the zeroing of memory
/// and it was completed, and the record came after the sink was installed.
pub proof fn law_zeroing_precedes_logging(
    context: BootContext,
    config: LogConfig,
    plan: Seq<ScenarioView>,
    events: Seq<Event>,
    i: int,
)
    requires
        0 <= i < BootView::start(context, config, plan).run(events).len(),
        BootView::start(context, config, plan).run(events)[i] is Log,
    ensures
        BootView::start(context, config, plan).run(events)[0] == ActionView::ZeroRegion,
        events.len() >= 5,
        events[0] is Done,
        BootView::start(context, config, plan).run(events)[4] == ActionView::LogInit(config),
        events[4] is Done,
        i >= 5,
{
    law_prelude(context, config, plan, events, i);
}

/// The place of a phase in the order of the phases.
pub open spec fn rank(phase: Phase) -> nat {
    match phase {
        Phase::Zero => 0,
        Phase::InitEarly => 1,
        Phase::InitLater => 2,
        Phase::LogInit => 3,
        Phase::Harness => 4,
        Phase::Shutdown => 5,
    }
}

/// The rank of the first phase that can still come when the boot stands
/// at `point`.
pub open spec fn floor_of(point: Point) -> nat {
    match point {
        Point::Zero => 0,
        Point::InitEarly => 1,
        Point::InitLater => 2,
        Point::Greeting => 3,
        Point::LogInit => 3,
        Point::Notice => 4,
        Point::Announce => 4,
        Point::Tests => 4,
        _ => 5,
    }
}

/// Two actions of a run stand in the order of their phases: the later one
/// belongs to a later phase, or both are requests of the harness.
pub open spec fn in_turn(earlier: ActionView, later: ActionView) -> bool {
    match (phase_of(earlier), phase_of(later)) {
        (Some(first), Some(second)) => rank(first) < rank(second) || (first == Phase::Harness
            && second == Phase::Harness),
        _ => true,
    }
}

/// One step of a boot, in ranks: the pending action belongs to no phase
/// below the floor of the point, the floor never sinks, and it rises above
/// the phase of the pending action unless that action is a request of the
/// harness.
proof fn lemma_step_floor(boot: BootView, event: Event)
    ensures
        floor_of(boot.next(event).point) >= floor_of(boot.point),
        phase_of(boot.pending()) matches Some(phase) ==> rank(phase) >= floor_of(boot.point) && (
        floor_of(boot.next(event).point) > rank(phase) || boot.pending() is PowerOff || (phase
            == Phase::Harness && floor_of(boot.next(event).point) >= 4)),
{
}

/// No action of a run belongs to a phase below the floor of the point at
/// which the run begins.
proof fn lemma_floor_holds(boot: BootView, events: Seq<Event>, i: int)
    requires
        0 <= i < boot.run(events).len(),
    ensures
        phase_of(boot.run(events)[i]) matches Some(phase) ==> rank(phase) >= floor_of(boot.point),
    decreases events.len(),
{
    lemma_run_unfold(boot, events);
    if i == 0 {
        if events.len() > 0 {
            lemma_step_floor(boot, events[0]);
        } else {
            lemma_step_floor(boot, Event::Done);
        }
    } else {
        lemma_run_step(boot, events, i);
        lemma_step_floor(boot, events[0]);
        lemma_floor_holds(boot.next(events[0]), events.drop_first(), i - 1);
    }
}

/// Two actions of a run stand in the order of their phases.
proof fn lemma_in_turn(boot: BootView, events: Seq<Event>, i: int, j: int)
    requires
        0 <= i < j < boot.run(events).len(),
    ensures
        in_turn(boot.run(events)[i], boot.run(events)[j]),
    decreases events.len(),
{
    lemma_run_unfold(boot, events);
    lemma_run_step(boot, events, j);
    let next = boot.next(events[0]);
    let rest = events.drop_first();
    if i == 0 {
        lemma_step_floor(boot, events[0]);
        lemma_floor_holds(next, rest, j - 1);
    } else {
        lemma_run_step(boot, events, i);
        lemma_in_turn(next, rest, i - 1, j - 1);
    }
}

/// No phase comes twice and none comes out of turn, in any run at all.
///
/// Whatever the events are, faults among them or not, the actions of a run
/// stand in the order of their phases. So the region is zeroed once at
/// most, the platform is initialised early once at most and later once at
/// most, the sink is installed once at most, and the power goes off once.
pub proof fn law_phases_never_repeat(boot: BootView, events: Seq<Event>)
    ensures
        forall|i: int|
            0 <= i < boot.run(events).len() ==> (phase_of(
                #[trigger] boot.run(events)[i],
            ) matches Some(phase) ==> rank(phase) >= floor_of(boot.point)),
        forall|i: int, j: int|
            0 <= i < j < boot.run(events).len() ==> in_turn(
                #[trigger] boot.run(events)[i],
                #[trigger] boot.run(events)[j],
            ),
{
    let run = boot.run(events);
    assert forall|i: int| 0 <= i < run.len() implies (phase_of(#[trigger] run[i]) matches Some(
        phase,
    ) ==> rank(phase) >= floor_of(boot.point)) by {
        lemma_floor_holds(boot, events, i);
    }
    assert forall|i: int, j: int| 0 <= i < j < run.len() implies in_turn(
        #[trigger] run[i],
        #[trigger] run[j],
    ) by {
        lemma_in_turn(boot, events, i, j);
    }
}

} // verus!
