//! Verdicts in words: what goes to the console for each of them.

use vstd::prelude::*;
use vstd::string::StringExecFns;
use crate::harness::Verdict;
use crate::logging::Level;
use crate::scenario::Finding;
use crate::text::{decimal, push_decimal};

verus! {

/// A finding in words: what was expected, then what was observed.
pub open spec fn finding_text(finding: Finding) -> Seq<char> {
    match finding {
        Finding::Refused { size } => "expected a block of "@ + decimal(size as nat)
            + " bytes, observed a refusal"@,
        Finding::Null => "expected a block, observed the null address"@,
        Finding::Misaligned { addr } => "expected an address aligned to 8, observed "@ + decimal(
            addr as nat,
        ),
        Finding::OutOfRange { block } => "expected a block inside the address space, observed "@
            + decimal(block.size as nat) + " bytes at "@ + decimal(block.addr as nat),
        Finding::Overlap { block, slot, with } => "expected no conflict with slot "@ + decimal(
            slot as nat,
        ) + ", which holds "@ + decimal(with.size as nat) + " bytes at "@ + decimal(
            with.addr as nat,
        ) + ", observed "@ + decimal(block.size as nat) + " bytes at "@ + decimal(
            block.addr as nat,
        ),
        Finding::Corrupted { offset, expected, observed } => "expected byte "@ + decimal(
            expected as nat,
        ) + " at offset "@ + decimal(offset as nat) + ", observed byte "@ + decimal(
            observed as nat,
        ),
        Finding::Truncated { len, read } => "expected "@ + decimal(len as nat)
            + " bytes read back, observed "@ + decimal(read as nat),
        Finding::Unexpected => "expected a reply to the request, observed one of another kind"@,
    }
}

/// The status line of a scenario: its label and its verdict, and for a
/// failure the step and the finding.
pub open spec fn verdict_text(label: Seq<char>, verdict: Verdict) -> Seq<char> {
    match verdict {
        Verdict::Pass => "allocator test `"@ + label + "`: pass"@,
        Verdict::Fail { step, finding } => "allocator test `"@ + label + "`: FAIL at step "@
            + decimal(step as nat) + ": "@ + finding_text(finding),
    }
}

/// The severity of a status line: a pass is told, a failure is an error.
pub open spec fn verdict_level(verdict: Verdict) -> Level {
    match verdict {
        Verdict::Pass => Level::Info,
        Verdict::Fail { .. } => Level::Error,
    }
}

/// What the bridge says of a failed scenario before the power goes off.
pub open spec fn failure_text(label: Seq<char>, verdict: Verdict) -> Seq<char> {
    "allocator self-test failed: "@ + verdict_text(label, verdict)
}

pub fn render_finding(finding: Finding) -> (text: String)
    ensures
        text@ == finding_text(finding),
{
    match finding {
        Finding::Refused { size } => {
            let mut text = String::from_str("expected a block of ");
            push_decimal(&mut text, size);
            text.append(" bytes, observed a refusal");
            text
        },
        Finding::Null => String::from_str("expected a block, observed the null address"),
        Finding::Misaligned { addr } => {
            let mut text = String::from_str("expected an address aligned to 8, observed ");
            push_decimal(&mut text, addr);
            text
        },
        Finding::OutOfRange { block } => {
            let mut text = String::from_str(
                "expected a block inside the address space, observed ",
            );
            push_decimal(&mut text, block.size);
            text.append(" bytes at ");
            push_decimal(&mut text, block.addr);
            text
        },
        Finding::Overlap { block, slot, with } => {
            let mut text = String::from_str("expected no conflict with slot ");
            push_decimal(&mut text, slot);
            text.append(", which holds ");
            push_decimal(&mut text, with.size);
            text.append(" bytes at ");
            push_decimal(&mut text, with.addr);
            text.append(", observed ");
            push_decimal(&mut text, block.size);
            text.append(" bytes at ");
            push_decimal(&mut text, block.addr);
            text
        },
        Finding::Corrupted { offset, expected, observed } => {
            let mut text = String::from_str("expected byte ");
            push_decimal(&mut text, expected as usize);
            text.append(" at offset ");
            push_decimal(&mut text, offset);
            text.append(", observed byte ");
            push_decimal(&mut text, observed as usize);
            text
        },
        Finding::Truncated { len, read } => {
            let mut text = String::from_str("expected ");
            push_decimal(&mut text, len);
            text.append(" bytes read back, observed ");
            push_decimal(&mut text, read);
            text
        },
        Finding::Unexpected => String::from_str(
            "expected a reply to the request, observed one of another kind",
        ),
    }
}

pub fn render_verdict(label: &str, verdict: Verdict) -> (text: String)
    ensures
        text@ == verdict_text(label@, verdict),
{
    let mut text = String::from_str("allocator test `");
    text.append(label);
    match verdict {
        Verdict::Pass => {
            text.append("`: pass");
        },
        Verdict::Fail { step, finding } => {
            text.append("`: FAIL at step ");
            push_decimal(&mut text, step);
            text.append(": ");
            let found = render_finding(finding);
            text.append(found.as_str());
        },
    }
    text
}

pub fn level_of_verdict(verdict: Verdict) -> (level: Level)
    ensures
        level == verdict_level(verdict),
{
    match verdict {
        Verdict::Pass => Level::Info,
        Verdict::Fail { .. } => Level::Error,
    }
}

pub fn render_failure(label: &str, verdict: Verdict) -> (text: String)
    ensures
        text@ == failure_text(label@, verdict),
{
    let mut text = String::from_str("allocator self-test failed: ");
    let told = render_verdict(label, verdict);
    text.append(told.as_str());
    text
}

} // verus!
