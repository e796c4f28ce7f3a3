//! The fixed battery of scenarios that a boot runs, in its fixed order.

use vstd::prelude::*;
use vstd::string::StringExecFns;
use crate::harness::{plan_view, Scenario, ScenarioView};
use crate::scenario::Op;

verus! {

/// One block: allocated, written in full, read back, given back; then a
/// second block of the same size, which has to be there and to be writable
/// in full again.
pub open spec fn round_trip_script(size: usize) -> Seq<Op> {
    seq![
        Op::Allocate { slot: 0, size },
        Op::Fill { slot: 0, seed: 0xA5 },
        Op::Verify { slot: 0, len: size, seed: 0xA5 },
        Op::Release { slot: 0 },
        Op::Allocate { slot: 0, size },
        Op::Fill { slot: 0, seed: 0x5A },
        Op::Verify { slot: 0, len: size, seed: 0x5A },
        Op::Release { slot: 0 },
    ]
}

/// Four blocks live at once, each written with a pattern of its own and
/// all read back after the last one was written.
pub open spec fn concurrent_script(size: usize) -> Seq<Op> {
    seq![
        Op::Allocate { slot: 0, size },
        Op::Allocate { slot: 1, size },
        Op::Allocate { slot: 2, size },
        Op::Allocate { slot: 3, size },
        Op::Fill { slot: 0, seed: 0x10 },
        Op::Fill { slot: 1, seed: 0x20 },
        Op::Fill { slot: 2, seed: 0x30 },
        Op::Fill { slot: 3, seed: 0x40 },
        Op::Verify { slot: 0, len: size, seed: 0x10 },
        Op::Verify { slot: 1, len: size, seed: 0x20 },
        Op::Verify { slot: 2, len: size, seed: 0x30 },
        Op::Verify { slot: 3, len: size, seed: 0x40 },
        Op::Release { slot: 0 },
        Op::Release { slot: 1 },
        Op::Release { slot: 2 },
        Op::Release { slot: 3 },
    ]
}

/// A block grows from `size` to `grown` bytes beside a live neighbour. Its
/// first `size` bytes have to read back as before, the neighbour has to be
/// untouched, and the grown block has to be writable in full.
pub open spec fn growth_script(size: usize, grown: usize) -> Seq<Op> {
    seq![
        Op::Allocate { slot: 0, size },
        Op::Allocate { slot: 1, size },
        Op::Fill { slot: 0, seed: 0xC3 },
        Op::Fill { slot: 1, seed: 0x3C },
        Op::Grow { slot: 0, size: grown },
        Op::Verify { slot: 0, len: size, seed: 0xC3 },
        Op::Verify { slot: 1, len: size, seed: 0x3C },
        Op::Fill { slot: 0, seed: 0x77 },
        Op::Verify { slot: 0, len: grown, seed: 0x77 },
        Op::Verify { slot: 1, len: size, seed: 0x3C },
        Op::Release { slot: 0 },
        Op::Release { slot: 1 },
    ]
}

/// Four blocks are given back out of order, then one block of `large`
/// bytes has to be there and to be writable in full.
pub open spec fn fragmentation_script(size: usize, large: usize) -> Seq<Op> {
    seq![
        Op::Allocate { slot: 0, size },
        Op::Allocate { slot: 1, size },
        Op::Allocate { slot: 2, size },
        Op::Allocate { slot: 3, size },
        Op::Release { slot: 1 },
        Op::Release { slot: 3 },
        Op::Release { slot: 0 },
        Op::Release { slot: 2 },
        Op::Allocate { slot: 4, size: large },
        Op::Fill { slot: 4, seed: 0x99 },
        Op::Verify { slot: 4, len: large, seed: 0x99 },
        Op::Release { slot: 4 },
    ]
}

/// A request for no bytes at all, made while one block is live. The
/// allocator may refuse it. Whatever it does, the live block has to read
/// back as before and a further block has to be there beside it.
pub open spec fn boundary_script(size: usize) -> Seq<Op> {
    seq![
        Op::Allocate { slot: 0, size },
        Op::Fill { slot: 0, seed: 0xE1 },
        Op::Probe { slot: 1, size: 0 },
        Op::Verify { slot: 0, len: size, seed: 0xE1 },
        Op::Release { slot: 1 },
        Op::Allocate { slot: 2, size },
        Op::Fill { slot: 2, seed: 0x1E },
        Op::Verify { slot: 2, len: size, seed: 0x1E },
        Op::Verify { slot: 0, len: size, seed: 0xE1 },
        Op::Release { slot: 2 },
        Op::Release { slot: 0 },
    ]
}

pub fn round_trip(size: usize) -> (scenario: Scenario)
    ensures
        scenario.label@ == "single allocation/deallocation round-trip"@,
        scenario.script@ == round_trip_script(size),
{
    let mut script: Vec<Op> = Vec::new();
    script.push(Op::Allocate { slot: 0, size });
    script.push(Op::Fill { slot: 0, seed: 0xA5 });
    script.push(Op::Verify { slot: 0, len: size, seed: 0xA5 });
    script.push(Op::Release { slot: 0 });
    script.push(Op::Allocate { slot: 0, size });
    script.push(Op::Fill { slot: 0, seed: 0x5A });
    script.push(Op::Verify { slot: 0, len: size, seed: 0x5A });
    script.push(Op::Release { slot: 0 });
    assert(script@ =~= round_trip_script(size));
    Scenario { label: String::from_str("single allocation/deallocation round-trip"), script }
}

pub fn concurrent(size: usize) -> (scenario: Scenario)
    ensures
        scenario.label@ == "multiple concurrent live allocations"@,
        scenario.script@ == concurrent_script(size),
{
    let mut script: Vec<Op> = Vec::new();
    script.push(Op::Allocate { slot: 0, size });
    script.push(Op::Allocate { slot: 1, size });
    script.push(Op::Allocate { slot: 2, size });
    script.push(Op::Allocate { slot: 3, size });
    script.push(Op::Fill { slot: 0, seed: 0x10 });
    script.push(Op::Fill { slot: 1, seed: 0x20 });
    script.push(Op::Fill { slot: 2, seed: 0x30 });
    script.push(Op::Fill { slot: 3, seed: 0x40 });
    script.push(Op::Verify { slot: 0, len: size, seed: 0x10 });
    script.push(Op::Verify { slot: 1, len: size, seed: 0x20 });
    script.push(Op::Verify { slot: 2, len: size, seed: 0x30 });
    script.push(Op::Verify { slot: 3, len: size, seed: 0x40 });
    script.push(Op::Release { slot: 0 });
    script.push(Op::Release { slot: 1 });
    script.push(Op::Release { slot: 2 });
    script.push(Op::Release { slot: 3 });
    assert(script@ =~= concurrent_script(size));
    Scenario { label: String::from_str("multiple concurrent live allocations"), script }
}

pub fn growth(size: usize, grown: usize) -> (scenario: Scenario)
    ensures
        scenario.label@ == "growth (reallocation)"@,
        scenario.script@ == growth_script(size, grown),
{
    let mut script: Vec<Op> = Vec::new();
    script.push(Op::Allocate { slot: 0, size });
    script.push(Op::Allocate { slot: 1, size });
    script.push(Op::Fill { slot: 0, seed: 0xC3 });
    script.push(Op::Fill { slot: 1, seed: 0x3C });
    script.push(Op::Grow { slot: 0, size: grown });
    script.push(Op::Verify { slot: 0, len: size, seed: 0xC3 });
    script.push(Op::Verify { slot: 1, len: size, seed: 0x3C });
    script.push(Op::Fill { slot: 0, seed: 0x77 });
    script.push(Op::Verify { slot: 0, len: grown, seed: 0x77 });
    script.push(Op::Verify { slot: 1, len: size, seed: 0x3C });
    script.push(Op::Release { slot: 0 });
    script.push(Op::Release { slot: 1 });
    assert(script@ =~= growth_script(size, grown));
    Scenario { label: String::from_str("growth (reallocation)"), script }
}

pub fn fragmentation(size: usize, large: usize) -> (scenario: Scenario)
    ensures
        scenario.label@ == "fragmentation/reuse after mixed free pattern"@,
        scenario.script@ == fragmentation_script(size, large),
{
    let mut script: Vec<Op> = Vec::new();
    script.push(Op::Allocate { slot: 0, size });
    script.push(Op::Allocate { slot: 1, size });
    script.push(Op::Allocate { slot: 2, size });
    script.push(Op::Allocate { slot: 3, size });
    script.push(Op::Release { slot: 1 });
    script.push(Op::Release { slot: 3 });
    script.push(Op::Release { slot: 0 });
    script.push(Op::Release { slot: 2 });
    script.push(Op::Allocate { slot: 4, size: large });
    script.push(Op::Fill { slot: 4, seed: 0x99 });
    script.push(Op::Verify { slot: 4, len: large, seed: 0x99 });
    script.push(Op::Release { slot: 4 });
    assert(script@ =~= fragmentation_script(size, large));
    Scenario { label: String::from_str("fragmentation/reuse after mixed free pattern"), script }
}

pub fn boundary(size: usize) -> (scenario: Scenario)
    ensures
        scenario.label@ == "zero-size / boundary requests"@,
        scenario.script@ == boundary_script(size),
{
    let mut script: Vec<Op> = Vec::new();
    script.push(Op::Allocate { slot: 0, size });
    script.push(Op::Fill { slot: 0, seed: 0xE1 });
    script.push(Op::Probe { slot: 1, size: 0 });
    script.push(Op::Verify { slot: 0, len: size, seed: 0xE1 });
    script.push(Op::Release { slot: 1 });
    script.push(Op::Allocate { slot: 2, size });
    script.push(Op::Fill { slot: 2, seed: 0x1E });
    script.push(Op::Verify { slot: 2, len: size, seed: 0x1E });
    script.push(Op::Verify { slot: 0, len: size, seed: 0xE1 });
    script.push(Op::Release { slot: 2 });
    script.push(Op::Release { slot: 0 });
    assert(script@ =~= boundary_script(size));
    Scenario { label: String::from_str("zero-size / boundary requests"), script }
}

/// The battery as contracts see it: five scenarios, always these and
/// always in this order.
pub open spec fn standard_battery() -> Seq<ScenarioView> {
    seq![
        ScenarioView {
            label: "single allocation/deallocation round-trip"@,
            script: round_trip_script(64),
        },
        ScenarioView {
            label: "multiple concurrent live allocations"@,
            script: concurrent_script(32),
        },
        ScenarioView { label: "growth (reallocation)"@, script: growth_script(32, 128) },
        ScenarioView {
            label: "fragmentation/reuse after mixed free pattern"@,
            script: fragmentation_script(64, 128),
        },
        ScenarioView { label: "zero-size / boundary requests"@, script: boundary_script(16) },
    ]
}

/// The battery that a boot runs.
pub fn standard_plan() -> (plan: Vec<Scenario>)
    ensures
        plan_view(plan@) == standard_battery(),
{
    let mut plan: Vec<Scenario> = Vec::new();
    plan.push(round_trip(64));
    plan.push(concurrent(32));
    plan.push(growth(32, 128));
    plan.push(fragmentation(64, 128));
    plan.push(boundary(16));
    assert(plan_view(plan@) =~= standard_battery());
    plan
}

} // verus!
