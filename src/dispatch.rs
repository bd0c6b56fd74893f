//! Walking a transaction's operations: each contract invocation is run on
//! the execution host, every other operation is logged as skipped.
use vstd::prelude::*;
use vstd::string::*;
use soroban_env_host::xdr::{
    FeeBumpTransactionInnerTx, HostFunction, InvokeContractArgs, Operation, OperationBody,
    TransactionEnvelope,
};
use soroban_env_host::{DiagnosticLevel, Host, HostError};
use crate::fault::{decode_wasm_trap, host_fault_message};

verus! {

broadcast use vstd::string::group_string_axioms;

#[verifier::external_type_specification]
#[verifier::external_body]
pub struct ExHost(Host);

#[verifier::external_type_specification]
#[verifier::external_body]
pub struct ExOperation(Operation);

#[verifier::external_type_specification]
#[verifier::external_body]
pub struct ExInvokeContractArgs(InvokeContractArgs);

/// What an operation is, as far as the dispatcher is concerned.
pub enum OperationKind {
    /// A host-function operation that invokes a contract.
    InvokeContract(InvokeContractArgs),
    /// A host-function operation of another kind (creation, upload).
    OtherHostFunction,
    /// An operation that is not a host-function operation.
    Other,
}

/// What the dispatcher does with an operation.
pub enum OperationAction {
    /// Invoke a contract; `address` is the rendering of its address.
    Invoke { address: String, args: InvokeContractArgs },
    /// Log a host function that is not a contract invocation as skipped.
    SkipHostFunction,
    /// Log an operation that is not a host-function operation as skipped.
    SkipOperation,
}

/// Relies on soroban-env-host's `Host::default`: a fresh host of its own,
/// with empty storage.
#[verifier::external_body]
pub(crate) fn host_new() -> (r: Host) {
    Host::default()
}

/// Relies on soroban-env-host's `Host::set_diagnostic_level`, here at the
/// most detailed level.
#[verifier::external_body]
pub(crate) fn host_set_debug(h: &Host) -> (r: Result<(), HostError>) {
    h.set_diagnostic_level(DiagnosticLevel::Debug)
}

/// Relies on soroban-env-host's `Host::invoke_function` on a contract
/// invocation; its value is dropped.
#[verifier::external_body]
fn host_invoke(h: &Host, args: &InvokeContractArgs) -> (r: Result<(), HostError>) {
    h.invoke_function(HostFunction::InvokeContract(args.clone())).map(|_| ())
}

/// Relies on soroban-env-host's `Host::get_events`, each event rendered with
/// its `Debug` impl, and so is a failure.
#[verifier::external_body]
pub(crate) fn host_events(h: &Host) -> (r: Result<Vec<String>, String>) {
    h.get_events()
        .map(|evs| evs.0.iter().map(|e| format!("{:?}", e)).collect())
        .map_err(|e| format!("{:?}", e))
}

/// The operations of an envelope's active variant, for a fee bump those of
/// its inner transaction, in envelope order.
pub uninterp spec fn ops_of(e: TransactionEnvelope) -> Seq<Operation>;

/// The kind of an operation, with a copy of its invocation's arguments.
pub uninterp spec fn kind_of(op: Operation) -> OperationKind;

/// The rendering of an invocation's contract address by stellar-xdr's
/// `Debug` impl for `ScAddress`.
pub uninterp spec fn address_rendering(args: InvokeContractArgs) -> Seq<char>;

/// Relies on stellar-xdr's `TransactionEnvelope`: the operations of the
/// active variant, for a fee bump those of its inner transaction.
#[verifier::external_body]
fn envelope_operations(e: &TransactionEnvelope) -> (r: Vec<Operation>)
    ensures
        r@ == ops_of(*e),
{
    match e {
        TransactionEnvelope::TxV0(t) => t.tx.operations.to_vec(),
        TransactionEnvelope::Tx(t) => t.tx.operations.to_vec(),
        TransactionEnvelope::TxFeeBump(b) => match &b.tx.inner_tx {
            FeeBumpTransactionInnerTx::Tx(t) => t.tx.operations.to_vec(),
        },
    }
}

/// Relies on stellar-xdr's `OperationBody` and `HostFunction`: tells their
/// variants apart.
#[verifier::external_body]
fn operation_kind(op: &Operation) -> (r: OperationKind)
    ensures
        r == kind_of(*op),
{
    match &op.body {
        OperationBody::InvokeHostFunction(f) => match &f.host_function {
            HostFunction::InvokeContract(a) => OperationKind::InvokeContract(a.clone()),
            _ => OperationKind::OtherHostFunction,
        },
        _ => OperationKind::Other,
    }
}

/// Relies on stellar-xdr's `Debug` impl for `ScAddress`, on the invoked
/// contract's address.
#[verifier::external_body]
fn address_text(args: &InvokeContractArgs) -> (r: String)
    ensures
        r@ == address_rendering(*args),
{
    format!("{:?}", args.contract_address)
}

/// The log line for a skipped host function.
pub open spec fn skip_host_function_line() -> Seq<char> {
    "Skipping non-InvokeContract Host Function"@
}

/// The log line for a skipped operation.
pub open spec fn skip_operation_line() -> Seq<char> {
    "Skipping non-InvokeHostFunction Operation"@
}

/// The log line for an action.
pub open spec fn log_line(a: OperationAction) -> Seq<char> {
    match a {
        OperationAction::Invoke { address, .. } => "Invoking Contract: "@ + address@,
        OperationAction::SkipHostFunction => skip_host_function_line(),
        OperationAction::SkipOperation => skip_operation_line(),
    }
}

/// The log lines for a sequence of actions, in order.
pub open spec fn logs_of(actions: Seq<OperationAction>) -> Seq<Seq<char>> {
    actions.map_values(|a: OperationAction| log_line(a))
}

/// The characters of each string, in order.
pub open spec fn views(v: Seq<String>) -> Seq<Seq<char>> {
    v.map_values(|s: String| s@)
}

impl OperationAction {
    /// The log line for this action.
    pub fn log_text(&self) -> (r: String)
        ensures
            r@ == log_line(*self),
    {
        match self {
            OperationAction::Invoke { address, .. } => {
                let mut s = String::from_str("Invoking Contract: ");
                s.append(address.as_str());
                s
            },
            OperationAction::SkipHostFunction => String::from_str(
                "Skipping non-InvokeContract Host Function",
            ),
            OperationAction::SkipOperation => String::from_str(
                "Skipping non-InvokeHostFunction Operation",
            ),
        }
    }
}

/// Whether an action of the given kind belongs to it.
pub open spec fn action_fits(k: OperationKind, a: OperationAction) -> bool {
    match k {
        OperationKind::InvokeContract(args) => a matches OperationAction::Invoke { address, args: b }
            && b == args && address@ == address_rendering(args),
        OperationKind::OtherHostFunction => a is SkipHostFunction,
        OperationKind::Other => a is SkipOperation,
    }
}

/// The action for an operation of kind `k`.
pub fn action_for(k: OperationKind) -> (r: OperationAction)
    ensures
        action_fits(k, r),
{
    match k {
        OperationKind::InvokeContract(args) => {
            let address = address_text(&args);
            OperationAction::Invoke { address, args }
        },
        OperationKind::OtherHostFunction => OperationAction::SkipHostFunction,
        OperationKind::Other => OperationAction::SkipOperation,
    }
}

/// `actions` holds, in order, the action for each operation of `e`.
pub open spec fn actions_match(e: TransactionEnvelope, actions: Seq<OperationAction>) -> bool {
    &&& actions.len() == ops_of(e).len()
    &&& forall|i: int|
        0 <= i < actions.len() ==> action_fits(kind_of(#[trigger] ops_of(e)[i]), actions[i])
}

/// The actions for the operations of an envelope, one per operation, in
/// envelope order.
pub fn plan(envelope: &TransactionEnvelope) -> (r: Vec<OperationAction>)
    ensures
        actions_match(*envelope, r@),
{
    let ops = envelope_operations(envelope);
    let mut out: Vec<OperationAction> = Vec::new();
    let mut i: usize = 0;
    while i < ops.len()
        invariant
            ops@ == ops_of(*envelope),
            i <= ops@.len(),
            out@.len() == i,
            forall|j: int| 0 <= j < i ==> action_fits(kind_of(#[trigger] ops@[j]), out@[j]),
        decreases ops.len() - i,
    {
        out.push(action_for(operation_kind(&ops[i])));
        i += 1;
    }
    out
}

proof fn lemma_logs_step(actions: Seq<OperationAction>, logs: Seq<String>, line: String, i: int)
    requires
        0 <= i < actions.len(),
        views(logs) == logs_of(actions.take(i)),
        line@ == log_line(actions[i]),
    ensures
        views(logs.push(line)) == logs_of(actions.take(i + 1)),
{
    let next = actions.take(i + 1);
    let lp = logs.push(line);
    assert(views(logs).len() == i);
    assert forall|j: int| 0 <= j < i + 1 implies views(lp)[j] == logs_of(next)[j] by {
        if j < i {
            assert(views(logs)[j] == logs_of(actions.take(i))[j]);
            assert(lp[j] == logs[j]);
        }
    }
    assert(views(lp) =~= logs_of(next));
}

/// The outcome of a run that stopped at the `k`th action, an invocation that
/// failed with `e`: the log up to that action's line, and `e`'s message.
pub open spec fn stopped_at(
    logs: Seq<String>,
    msg: Seq<char>,
    actions: Seq<OperationAction>,
    k: int,
    e: HostError,
) -> bool {
    &&& 0 <= k < actions.len()
    &&& actions[k] is Invoke
    &&& views(logs) == logs_of(actions.take(k + 1))
    &&& msg == host_fault_message(e)
}

/// Runs the actions in order on `host`, logging each one before it runs.
/// The first invocation that fails ends the run: the log then stops at that
/// invocation's line, and the classified message of its failure is
/// returned.
pub fn dispatch(host: &Host, actions: &Vec<OperationAction>) -> (r: (Vec<String>, Option<String>))
    ensures
        r.1 is None ==> views(r.0@) == logs_of(actions@),
        r.1 is Some ==> exists|k: int, e: HostError|
            #[trigger] stopped_at(r.0@, r.1->Some_0@, actions@, k, e),
{
    let mut logs: Vec<String> = Vec::new();
    let mut i: usize = 0;
    while i < actions.len()
        invariant
            i <= actions@.len(),
            views(logs@) == logs_of(actions@.take(i as int)),
        decreases actions.len() - i,
    {
        let a = &actions[i];
        let line = a.log_text();
        proof {
            lemma_logs_step(actions@, logs@, line, i as int);
        }
        logs.push(line);
        if let OperationAction::Invoke { args, .. } = a {
            if let Err(e) = host_invoke(host, args) {
                let msg = decode_wasm_trap(&e);
                let r = (logs, Some(msg));
                assert(stopped_at(r.0@, r.1->Some_0@, actions@, i as int, e));
                return r;
            }
        }
        i += 1;
    }
    assert(actions@.take(i as int) =~= actions@);
    (logs, None)
}

} // verus!
