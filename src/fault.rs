//! Classification of execution failures into a fixed set of categories,
//! by substring matching on the failure's rendered description.
use vstd::prelude::*;
use vstd::string::*;
use crate::text::{chars_of, contains, has_sub, seq_contains};

verus! {

broadcast use vstd::string::group_string_axioms;

#[verifier::external_type_specification]
#[verifier::external_body]
pub struct ExHostError(soroban_env_host::HostError);

/// What a failure of the execution host is taken to be.
#[derive(PartialEq, Eq, Structural, Clone, Copy, Debug)]
pub enum FaultCategory {
    UnreachableTrap,
    OutOfBoundsTrap,
    IntegerOverflowTrap,
    StackOverflowTrap,
    DivideByZeroTrap,
    GenericWasmTrap,
    HostInitiatedFault,
    UnclassifiedExecutionError,
}

/// The lowercase form of a string, as `str::to_lowercase` computes it.
pub uninterp spec fn lower_of(s: Seq<char>) -> Seq<char>;

/// Relies on `str::to_lowercase`: its result depends on the characters alone.
#[verifier::external_body]
fn lowercase(s: &str) -> (r: String)
    ensures
        r@ == lower_of(s@),
{
    s.to_lowercase()
}

/// The rendering of a host failure by soroban-env-host's `Debug` impl.
pub uninterp spec fn rendering_of(e: soroban_env_host::HostError) -> Seq<char>;

/// Relies on soroban-env-host's `Debug` impl for `HostError`: it depends on
/// the error alone, and its first line is `HostError: ` followed by the
/// error code.
#[verifier::external_body]
fn host_error_text(e: &soroban_env_host::HostError) -> (r: String)
    ensures
        r@ == rendering_of(*e),
        r@.len() >= 11,
        r@.subrange(0, 11) == "HostError: "@,
{
    format!("{:?}", e)
}

/// Lowercase marker of a trap raised by the VM.
pub open spec fn trap_marker() -> Seq<char> {
    "wasm trap"@
}

/// Marker of a fault raised by the host, matched with its case kept.
pub open spec fn host_marker() -> Seq<char> {
    "HostError"@
}

/// Category of a failure, given its raw description and the lowercase form
/// of that description.
pub open spec fn category_of(raw: Seq<char>, lowered: Seq<char>) -> FaultCategory {
    if has_sub(lowered, trap_marker()) {
        if has_sub(lowered, "unreachable"@) {
            FaultCategory::UnreachableTrap
        } else if has_sub(lowered, "out of bounds"@) {
            FaultCategory::OutOfBoundsTrap
        } else if has_sub(lowered, "integer overflow"@) {
            FaultCategory::IntegerOverflowTrap
        } else if has_sub(lowered, "stack overflow"@) {
            FaultCategory::StackOverflowTrap
        } else if has_sub(lowered, "divide by zero"@) {
            FaultCategory::DivideByZeroTrap
        } else {
            FaultCategory::GenericWasmTrap
        }
    } else if has_sub(raw, host_marker()) {
        FaultCategory::HostInitiatedFault
    } else {
        FaultCategory::UnclassifiedExecutionError
    }
}

/// Whether a category's message repeats the raw description.
pub open spec fn carries_description(c: FaultCategory) -> bool {
    match c {
        FaultCategory::GenericWasmTrap => true,
        FaultCategory::HostInitiatedFault => true,
        FaultCategory::UnclassifiedExecutionError => true,
        _ => false,
    }
}

/// The fixed part of a category's message: the whole message for a named
/// trap, the prefix put before the raw description otherwise.
pub open spec fn message_head(c: FaultCategory) -> Seq<char> {
    match c {
        FaultCategory::UnreachableTrap =>
            "Unreachable Instruction: The contract hit a panic or unreachable code path."@,
        FaultCategory::OutOfBoundsTrap =>
            "Out of Bounds Access: The contract tried to access invalid memory (OOB)."@,
        FaultCategory::IntegerOverflowTrap =>
            "Integer Overflow: A mathematical operation exceeded the type limits."@,
        FaultCategory::StackOverflowTrap =>
            "Stack Overflow: The contract's recursion or stack usage is too high."@,
        FaultCategory::DivideByZeroTrap =>
            "Division by Zero: The contract attempted to divide by zero."@,
        FaultCategory::GenericWasmTrap => "Wasm Trap: "@,
        FaultCategory::HostInitiatedFault => "Host-initiated Trap: "@,
        FaultCategory::UnclassifiedExecutionError => "Execution Error: "@,
    }
}

/// The message shown for a failure of category `c` described by `raw`.
pub open spec fn message_of(c: FaultCategory, raw: Seq<char>) -> Seq<char> {
    if carries_description(c) {
        message_head(c) + raw
    } else {
        message_head(c)
    }
}

/// The message shown for a failure described by `raw`, whose lowercase form
/// is `lowered`.
pub open spec fn classified_message(raw: Seq<char>, lowered: Seq<char>) -> Seq<char> {
    message_of(category_of(raw, lowered), raw)
}

fn head_text(c: FaultCategory) -> (r: &'static str)
    ensures
        r@ == message_head(c),
{
    match c {
        FaultCategory::UnreachableTrap =>
            "Unreachable Instruction: The contract hit a panic or unreachable code path.",
        FaultCategory::OutOfBoundsTrap =>
            "Out of Bounds Access: The contract tried to access invalid memory (OOB).",
        FaultCategory::IntegerOverflowTrap =>
            "Integer Overflow: A mathematical operation exceeded the type limits.",
        FaultCategory::StackOverflowTrap =>
            "Stack Overflow: The contract's recursion or stack usage is too high.",
        FaultCategory::DivideByZeroTrap =>
            "Division by Zero: The contract attempted to divide by zero.",
        FaultCategory::GenericWasmTrap => "Wasm Trap: ",
        FaultCategory::HostInitiatedFault => "Host-initiated Trap: ",
        FaultCategory::UnclassifiedExecutionError => "Execution Error: ",
    }
}

impl FaultCategory {
    /// The message shown for a failure of this category described by `raw`.
    pub fn message(self, raw: &str) -> (r: String)
        ensures
            r@ == message_of(self, raw@),
    {
        let mut s = String::from_str(head_text(self));
        match self {
            FaultCategory::GenericWasmTrap
            | FaultCategory::HostInitiatedFault
            | FaultCategory::UnclassifiedExecutionError => {
                s.append(raw);
            },
            _ => {},
        }
        s
    }
}

/// Category of a failure described by `raw`, with `lowered` the lowercase
/// form of `raw`.
pub fn category_lowered(raw: &str, lowered: &str) -> (r: FaultCategory)
    ensures
        r == category_of(raw@, lowered@),
{
    let low = chars_of(lowered);
    if seq_contains(&low, &chars_of("wasm trap")) {
        if seq_contains(&low, &chars_of("unreachable")) {
            FaultCategory::UnreachableTrap
        } else if seq_contains(&low, &chars_of("out of bounds")) {
            FaultCategory::OutOfBoundsTrap
        } else if seq_contains(&low, &chars_of("integer overflow")) {
            FaultCategory::IntegerOverflowTrap
        } else if seq_contains(&low, &chars_of("stack overflow")) {
            FaultCategory::StackOverflowTrap
        } else if seq_contains(&low, &chars_of("divide by zero")) {
            FaultCategory::DivideByZeroTrap
        } else {
            FaultCategory::GenericWasmTrap
        }
    } else if contains(raw, "HostError") {
        FaultCategory::HostInitiatedFault
    } else {
        FaultCategory::UnclassifiedExecutionError
    }
}

/// Classifies a failure described by `raw`, with `lowered` the lowercase
/// form of `raw`, and returns its category and message.
pub fn classify_lowered(raw: &str, lowered: &str) -> (r: (FaultCategory, String))
    ensures
        r.0 == category_of(raw@, lowered@),
        r.1@ == classified_message(raw@, lowered@),
{
    let c = category_lowered(raw, lowered);
    (c, c.message(raw))
}

/// Classifies a failure from its rendered description.
pub fn classify(description: &str) -> (r: (FaultCategory, String))
    ensures
        r.0 == category_of(description@, lower_of(description@)),
        r.1@ == classified_message(description@, lower_of(description@)),
{
    let lowered = lowercase(description);
    classify_lowered(description, lowered.as_str())
}

/// The message for the host failure `e`: the classification of its
/// rendering.
pub open spec fn host_fault_message(e: soroban_env_host::HostError) -> Seq<char> {
    classified_message(rendering_of(e), lower_of(rendering_of(e)))
}

/// Renders a failure of the execution host and turns it into a readable
/// message. A host failure's rendering names it as such, so the result is
/// never an unclassified execution error.
pub fn decode_wasm_trap(err: &soroban_env_host::HostError) -> (r: String)
    ensures
        r@ == host_fault_message(*err),
        has_sub(rendering_of(*err), host_marker()),
        category_of(rendering_of(*err), lower_of(rendering_of(*err)))
            != FaultCategory::UnclassifiedExecutionError,
{
    let text = host_error_text(err);
    proof {
        reveal_strlit("HostError: ");
        reveal_strlit("HostError");
        assert(text@.subrange(0, 0 + host_marker().len() as int) =~= host_marker());
        assert(has_sub(text@, host_marker()));
    }
    let (_c, msg) = classify(text.as_str());
    assert(classified_message(text@, lower_of(text@)) == msg@);
    msg
}

/// A trap reported together with an out-of-bounds access is an out-of-bounds
/// trap, with its fixed message, and not a generic trap, unless it is also
/// reported as unreachable code (which is checked first).
pub proof fn lemma_out_of_bounds_trap(raw: Seq<char>, lowered: Seq<char>)
    requires
        has_sub(lowered, "wasm trap"@),
        has_sub(lowered, "out of bounds"@),
        !has_sub(lowered, "unreachable"@),
    ensures
        category_of(raw, lowered) == FaultCategory::OutOfBoundsTrap,
        classified_message(raw, lowered)
            == "Out of Bounds Access: The contract tried to access invalid memory (OOB)."@,
{
}

} // verus!
