use soroban_env_host::xdr::{ScErrorCode, ScErrorType};
use soroban_env_host::HostError;
use simulator::fault::{classify, classify_lowered, FaultCategory};
use simulator::text::{contains, decimal_text};
use simulator::pipeline::init_text;

#[test]
fn out_of_bounds_trap_has_its_own_message() {
    let (c, m) = classify("Error(WasmVm, InvalidAction): wasm trap: out of bounds memory access");
    assert_eq!(c, FaultCategory::OutOfBoundsTrap);
    assert_eq!(m, "Out of Bounds Access: The contract tried to access invalid memory (OOB).");
}

#[test]
fn unreachable_is_checked_before_out_of_bounds() {
    let (c, m) = classify("wasm trap: unreachable after out of bounds");
    assert_eq!(c, FaultCategory::UnreachableTrap);
    assert_eq!(m, "Unreachable Instruction: The contract hit a panic or unreachable code path.");
}

#[test]
fn trap_kinds_each_have_a_fixed_message() {
    assert_eq!(
        classify("wasm trap: integer overflow").1,
        "Integer Overflow: A mathematical operation exceeded the type limits."
    );
    assert_eq!(
        classify("wasm trap: stack overflow").1,
        "Stack Overflow: The contract's recursion or stack usage is too high."
    );
    assert_eq!(
        classify("wasm trap: divide by zero").1,
        "Division by Zero: The contract attempted to divide by zero."
    );
}

#[test]
fn matching_ignores_case() {
    let (c, m) = classify("WASM TRAP: Divide By Zero");
    assert_eq!(c, FaultCategory::DivideByZeroTrap);
    assert_eq!(m, "Division by Zero: The contract attempted to divide by zero.");
}

#[test]
fn other_traps_repeat_the_description() {
    let (c, m) = classify("Wasm Trap: indirect call type mismatch");
    assert_eq!(c, FaultCategory::GenericWasmTrap);
    assert_eq!(m, "Wasm Trap: Wasm Trap: indirect call type mismatch");
}

#[test]
fn host_faults_are_named_with_case_kept() {
    let (c, m) = classify("HostError: Error(Storage, ExceededLimit)");
    assert_eq!(c, FaultCategory::HostInitiatedFault);
    assert_eq!(m, "Host-initiated Trap: HostError: Error(Storage, ExceededLimit)");
    let (c2, m2) = classify("hosterror: lowercase");
    assert_eq!(c2, FaultCategory::UnclassifiedExecutionError);
    assert_eq!(m2, "Execution Error: hosterror: lowercase");
}

#[test]
fn classification_from_a_given_lowercase_form() {
    let (c, m) = classify_lowered("RAW", "wasm trap: out of bounds");
    assert_eq!(c, FaultCategory::OutOfBoundsTrap);
    assert_eq!(m, "Out of Bounds Access: The contract tried to access invalid memory (OOB).");
    let (c2, m2) = classify_lowered("RAW", "nothing");
    assert_eq!(c2, FaultCategory::UnclassifiedExecutionError);
    assert_eq!(m2, "Execution Error: RAW");
}

#[test]
fn substring_search() {
    assert!(contains("abcabd", "abd"));
    assert!(contains("abc", ""));
    assert!(!contains("ab", "abc"));
    assert!(!contains("abcabc", "abd"));
    assert!(contains("héllo wörld", "ö"));
}

#[test]
fn decimal_rendering() {
    assert_eq!(decimal_text(0), "0");
    assert_eq!(decimal_text(7), "7");
    assert_eq!(decimal_text(1204), "1204");
    assert_eq!(decimal_text(usize::MAX), usize::MAX.to_string());
    assert_eq!(init_text(3), "Host Initialized. Loaded 3 Ledger Entries");
}

#[test]
fn host_failures_are_classified_from_their_rendering() {
    let he = HostError::from((ScErrorType::Storage, ScErrorCode::ExceededLimit));
    let msg = simulator::fault::decode_wasm_trap(&he);
    assert!(msg.starts_with("Host-initiated Trap: HostError: "));
    assert_eq!(msg, format!("Host-initiated Trap: {:?}", he));
}
