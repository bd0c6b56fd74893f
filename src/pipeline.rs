//! One simulation, start to finish: decode the request, run its operations
//! on a fresh execution host, and assemble the response.
use vstd::prelude::*;
use vstd::string::*;
use soroban_env_host::Host;
use crate::codec::{
    base64_decoded, decode_entry, decode_envelope, decode_failure, decode_key, envelope_xdr_ok,
    failure_head, field_name, key_xdr_ok, DecodeError, DecodeStage, Field,
};
use crate::codec::envelope_of;
use crate::dispatch::{
    actions_match, dispatch, host_events, host_new, host_set_debug, kind_of, logs_of, ops_of, plan,
    stopped_at, views, OperationAction,
};
use soroban_env_host::xdr::TransactionEnvelope;
use soroban_env_host::HostError;
use crate::text::{decimal, decimal_text, has_sub};

verus! {

broadcast use vstd::string::group_string_axioms;

/// A simulation request: the base64 XDR transaction envelope, optional
/// result metadata kept for replay context, and optional ledger entries as
/// pairs of base64 XDR key and base64 XDR entry.
pub struct SimulationRequest {
    pub envelope_xdr: String,
    pub result_meta_xdr: Option<String>,
    pub ledger_entries: Option<Vec<(String, String)>>,
}

/// A simulation response: `status` is `success` or `error`, `error` holds
/// the message exactly when the status is `error`.
pub struct SimulationResponse {
    pub status: String,
    pub error: Option<String>,
    pub events: Vec<String>,
    pub logs: Vec<String>,
}

/// The status of a run that completed.
pub open spec fn success_status() -> Seq<char> {
    "success"@
}

/// The status of a run that failed.
pub open spec fn error_status() -> Seq<char> {
    "error"@
}

/// The first log line of a run that loaded `n` ledger entries.
pub open spec fn init_line(n: nat) -> Seq<char> {
    "Host Initialized. Loaded "@ + decimal(n) + " Ledger Entries"@
}

/// The line that stands for the events when the host fails to hand them out.
pub open spec fn events_failure_line(detail: Seq<char>) -> Seq<char> {
    "Failed to retrieve events: "@ + detail
}

/// `s` starts with `head`.
pub open spec fn starts_with(s: Seq<char>, head: Seq<char>) -> bool {
    head.len() <= s.len() && s.subrange(0, head.len() as int) == head
}

/// A response of either shape, and no other.
pub open spec fn response_wf(r: SimulationResponse) -> bool {
    ||| r.status@ == success_status() && r.error is None
    ||| r.status@ == error_status() && r.error is Some && r.events@.len() == 0
}

/// The ledger entries of a request, as text pairs.
pub open spec fn entries_view(entries: Option<Vec<(String, String)>>) -> Seq<(Seq<char>, Seq<char>)> {
    match entries {
        None => Seq::empty(),
        Some(v) => v@.map_values(|p: (String, String)| (p.0@, p.1@)),
    }
}

/// The first decode failure among the pairs, each key before its entry.
pub open spec fn entries_failure(es: Seq<(Seq<char>, Seq<char>)>) -> Option<(DecodeStage, Field)>
    decreases es.len(),
{
    if es.len() == 0 {
        None
    } else {
        match decode_failure(Field::LedgerKey, es[0].0) {
            Some(s) => Some((s, Field::LedgerKey)),
            None => match decode_failure(Field::LedgerEntry, es[0].1) {
                Some(s) => Some((s, Field::LedgerEntry)),
                None => entries_failure(es.drop_first()),
            },
        }
    }
}

/// The first decode failure of a request: the envelope, then the entries.
pub open spec fn request_failure(envelope: Seq<char>, es: Seq<(Seq<char>, Seq<char>)>) -> Option<
    (DecodeStage, Field),
> {
    match decode_failure(Field::Envelope, envelope) {
        Some(s) => Some((s, Field::Envelope)),
        None => entries_failure(es),
    }
}

proof fn lemma_starts_with(head: Seq<char>, tail: Seq<char>)
    ensures
        starts_with(head + tail, head),
{
    assert((head + tail).subrange(0, head.len() as int) =~= head);
}

/// The response for a failure with message `msg`.
pub fn error_response(msg: String, logs: Vec<String>) -> (r: SimulationResponse)
    ensures
        r.status@ == error_status(),
        r.error == Some(msg),
        r.events@.len() == 0,
        r.logs == logs,
{
    SimulationResponse { status: String::from_str("error"), error: Some(msg), events: Vec::new(), logs }
}

/// The first log line of a run that loaded `n` ledger entries.
pub fn init_text(n: usize) -> (r: String)
    ensures
        r@ == init_line(n as nat),
{
    let mut s = String::from_str("Host Initialized. Loaded ");
    s.append(decimal_text(n).as_str());
    s.append(" Ledger Entries");
    s
}

/// The line that stands for the events when the host fails to hand them
/// out, with the host's description of the failure.
pub fn events_failure_text(detail: &str) -> (r: String)
    ensures
        r@ == events_failure_line(detail@),
{
    let mut line = String::from_str("Failed to retrieve events: ");
    line.append(detail);
    line
}

/// Decodes every pair, key before entry, and counts them; stops at the
/// first failure.
pub fn decode_entries(entries: &Vec<(String, String)>) -> (r: Result<usize, DecodeError>)
    ensures
        r is Ok <==> entries_failure(entries_view(Some(*entries))) is None,
        r is Ok ==> r->Ok_0 == entries@.len(),
        r is Err ==> entries_failure(entries_view(Some(*entries))) == Some(
            (r->Err_0.stage, r->Err_0.field),
        ),
{
    let ghost es = entries_view(Some(*entries));
    assert(es.subrange(0, es.len() as int) =~= es);
    let mut i: usize = 0;
    while i < entries.len()
        invariant
            i <= entries@.len(),
            es.len() == entries@.len(),
            es == entries_view(Some(*entries)),
            entries_failure(es) == entries_failure(es.subrange(i as int, es.len() as int)),
        decreases entries.len() - i,
    {
        let ghost rest = es.subrange(i as int, es.len() as int);
        proof {
            assert(rest[0] == es[i as int]);
            assert(rest.drop_first() =~= es.subrange(i + 1, es.len() as int));
        }
        let pair = &entries[i];
        decode_key(pair.0.as_str())?;
        decode_entry(pair.1.as_str())?;
        i += 1;
    }
    proof {
        assert(es.subrange(i as int, es.len() as int).len() == 0);
    }
    Ok(i)
}

/// What a run after loading `entry_count` entries and with `actions` may
/// respond: the count line first, then on success the log of every action,
/// on failure the log up to an invocation that failed, and the classified
/// message of that invocation's failure.
pub open spec fn run_outcome(r: SimulationResponse, entry_count: nat, actions: Seq<OperationAction>) -> bool {
    &&& response_wf(r)
    &&& r.logs@.len() >= 1
    &&& r.logs@[0]@ == init_line(entry_count)
    &&& r.status@ == success_status() ==> views(r.logs@.drop_first()) == logs_of(actions)
    &&& r.status@ == error_status() ==> exists|k: int, e: HostError|
        #[trigger] stopped_at(r.logs@.drop_first(), r.error->Some_0@, actions, k, e)
}

/// Runs the actions on a fresh host after `entry_count` ledger entries were
/// loaded, and assembles the response: the count line, the action log, then
/// the events on success or the classified failure.
pub fn run(entry_count: usize, actions: &Vec<OperationAction>) -> (r: SimulationResponse)
    ensures
        run_outcome(r, entry_count as nat, actions@),
{
    proof {
        reveal_strlit("success");
        reveal_strlit("error");
    }
    let host: Host = host_new();
    // The level only decides how much the host records; a failure to raise
    // it leaves the outcome of the run unchanged.
    let _ = host_set_debug(&host);
    let (action_logs, fault) = dispatch(&host, actions);
    let mut logs: Vec<String> = Vec::new();
    logs.push(init_text(entry_count));
    let mut i: usize = 0;
    while i < action_logs.len()
        invariant
            i <= action_logs@.len(),
            logs@.len() == i + 1,
            logs@[0]@ == init_line(entry_count as nat),
            forall|j: int| 0 <= j < i ==> #[trigger] logs@[j + 1] == action_logs@[j],
        decreases action_logs.len() - i,
    {
        logs.push(action_logs[i].clone());
        i += 1;
    }
    proof {
        assert(logs@.drop_first() =~= action_logs@);
        assert(success_status().len() != error_status().len());
    }
    match fault {
        Some(msg) => error_response(msg, logs),
        None => {
            let events = match host_events(&host) {
                Ok(evs) => evs,
                Err(detail) => {
                    let mut v: Vec<String> = Vec::new();
                    v.push(events_failure_text(detail.as_str()));
                    v
                },
            };
            SimulationResponse { status: String::from_str("success"), error: None, events, logs }
        },
    }
}

/// What a simulation of `req` may respond. A request that does not decode
/// fails with the first decode failure's message, with no events and no
/// logs. Otherwise the envelope's operations, each turned into its action,
/// are run after the count line.
pub open spec fn simulation_outcome(req: SimulationRequest, r: SimulationResponse) -> bool {
    match request_failure(req.envelope_xdr@, entries_view(req.ledger_entries)) {
        Some((stage, field)) => {
            &&& r.status@ == error_status()
            &&& starts_with(r.error->Some_0@, failure_head(stage, field))
            &&& r.events@.len() == 0
            &&& r.logs@.len() == 0
        },
        None => exists|actions: Seq<OperationAction>|
            actions_match(envelope_of(base64_decoded(req.envelope_xdr@)->Some_0), actions)
                && #[trigger] run_outcome(r, entries_view(req.ledger_entries).len(), actions),
    }
}

/// Runs one simulation. A request that does not decode fails with the first
/// decode failure's message, before any host exists, with no events and no
/// logs. Otherwise the envelope's operations, each turned into its action,
/// are run after the count line.
pub fn simulate(req: &SimulationRequest) -> (r: SimulationResponse)
    ensures
        response_wf(r),
        simulation_outcome(*req, r),
{
    proof {
        reveal_strlit("success");
        reveal_strlit("error");
    }
    let envelope = match decode_envelope(req.envelope_xdr.as_str()) {
        Ok(e) => e,
        Err(e) => {
            let msg = e.message();
            proof {
                lemma_starts_with(failure_head(e.stage, e.field), e.detail@);
            }
            return error_response(msg, Vec::new());
        },
    };
    let count: usize = match &req.ledger_entries {
        None => 0,
        Some(entries) => match decode_entries(entries) {
            Ok(n) => n,
            Err(e) => {
                let msg = e.message();
                proof {
                    lemma_starts_with(failure_head(e.stage, e.field), e.detail@);
                }
                return error_response(msg, Vec::new());
            },
        },
    };
    let actions = plan(&envelope);
    let r = run(count, &actions);
    assert(run_outcome(r, entries_view(req.ledger_entries).len(), actions@));
    assert(simulation_outcome(*req, r));
    r
}

/// A run of an envelope none of whose operations invokes a contract
/// succeeds, and logs the count line, then one line per operation in
/// envelope order, whichever variant carries the operations.
pub proof fn lemma_no_invocation(
    r: SimulationResponse,
    entry_count: nat,
    e: TransactionEnvelope,
    actions: Seq<OperationAction>,
)
    requires
        run_outcome(r, entry_count, actions),
        actions_match(e, actions),
        forall|i: int| 0 <= i < ops_of(e).len() ==> !(kind_of(#[trigger] ops_of(e)[i]) is InvokeContract),
    ensures
        r.status@ == success_status(),
        r.error is None,
        r.logs@[0]@ == init_line(entry_count),
        views(r.logs@.drop_first()) == logs_of(actions),
{
    reveal_strlit("success");
    reveal_strlit("error");
    assert(success_status().len() != error_status().len());
    if r.status@ == error_status() {
        let (k, he) = choose|k: int, he: HostError|
            #[trigger] stopped_at(r.logs@.drop_first(), r.error->Some_0@, actions, k, he);
        assert(!(kind_of(ops_of(e)[k]) is InvokeContract));
    }
}

/// A run of an envelope with no operations succeeds, and its log is the
/// entry count line alone.
pub proof fn lemma_no_operations(
    r: SimulationResponse,
    entry_count: nat,
    e: TransactionEnvelope,
    actions: Seq<OperationAction>,
)
    requires
        run_outcome(r, entry_count, actions),
        actions_match(e, actions),
        ops_of(e).len() == 0,
    ensures
        r.status@ == success_status(),
        r.error is None,
        r.logs@.len() == 1,
        r.logs@[0]@ == init_line(entry_count),
{
    lemma_no_invocation(r, entry_count, e, actions);
    assert(views(r.logs@.drop_first()).len() == 0);
}

/// A request that decodes, whose envelope invokes no contract, succeeds,
/// and its first log line counts its ledger pairs.
pub proof fn lemma_entries_counted(req: SimulationRequest, r: SimulationResponse)
    requires
        simulation_outcome(req, r),
        request_failure(req.envelope_xdr@, entries_view(req.ledger_entries)) is None,
        forall|i: int|
            0 <= i < ops_of(envelope_of(base64_decoded(req.envelope_xdr@)->Some_0)).len()
                ==> !(kind_of(
                #[trigger] ops_of(envelope_of(base64_decoded(req.envelope_xdr@)->Some_0))[i],
            ) is InvokeContract),
    ensures
        r.status@ == success_status(),
        r.logs@[0]@ == init_line(entries_view(req.ledger_entries).len()),
{
    let e = envelope_of(base64_decoded(req.envelope_xdr@)->Some_0);
    let n = entries_view(req.ledger_entries).len();
    let actions = choose|actions: Seq<OperationAction>|
        actions_match(e, actions) && #[trigger] run_outcome(r, n, actions);
    lemma_no_invocation(r, n, e, actions);
}

/// When every pair before the `j`th decodes, the first failure of the pairs
/// is that of the pairs from the `j`th on.
proof fn lemma_entries_failure_from(es: Seq<(Seq<char>, Seq<char>)>, j: int)
    requires
        0 <= j <= es.len(),
        forall|i: int|
            0 <= i < j ==> decode_failure(Field::LedgerKey, #[trigger] es[i].0) is None
                && decode_failure(Field::LedgerEntry, es[i].1) is None,
    ensures
        entries_failure(es) == entries_failure(es.subrange(j, es.len() as int)),
    decreases j,
{
    if j == 0 {
        assert(es.subrange(0, es.len() as int) =~= es);
    } else {
        let rest = es.drop_first();
        assert forall|i: int| 0 <= i < j - 1 implies decode_failure(
            Field::LedgerKey,
            #[trigger] rest[i].0,
        ) is None && decode_failure(Field::LedgerEntry, rest[i].1) is None by {
            assert(rest[i] == es[i + 1]);
        }
        lemma_entries_failure_from(rest, j - 1);
        assert(rest.subrange(j - 1, rest.len() as int) =~= es.subrange(j, es.len() as int));
    }
}

proof fn lemma_sub_in_concat(a: Seq<char>, x: Seq<char>, c: Seq<char>, n: Seq<char>)
    requires
        has_sub(x, n),
    ensures
        has_sub(a + x + c, n),
{
    let i = choose|i: int| 0 <= i && i + n.len() <= x.len() && #[trigger] x.subrange(i, i + n.len()) == n;
    let k = a.len() + i;
    assert((a + x + c).subrange(k, k + n.len()) =~= x.subrange(i, i + n.len()));
}

/// The message head of a base64 failure names base64, and that of an XDR
/// failure names the field and XDR.
pub proof fn lemma_failure_head_names(field: Field)
    ensures
        has_sub(failure_head(DecodeStage::Base64, field), "Base64"@),
        has_sub(failure_head(DecodeStage::Xdr, field), field_name(field) + " XDR"@),
{
    reveal_strlit(" Base64: ");
    reveal_strlit("Base64");
    reveal_strlit(" XDR: ");
    reveal_strlit(" XDR");
    reveal_strlit(": ");
    let b = " Base64: "@;
    assert(b.subrange(1, 1 + "Base64"@.len() as int) =~= "Base64"@);
    lemma_sub_in_concat("Failed to decode "@ + field_name(field), b, Seq::empty(), "Base64"@);
    assert(failure_head(DecodeStage::Base64, field) =~= "Failed to decode "@ + field_name(field) + b
        + Seq::empty());
    let x = field_name(field) + " XDR"@;
    assert(x.subrange(0, 0 + x.len() as int) =~= x);
    lemma_sub_in_concat("Failed to parse "@, x, ": "@, x);
    assert(failure_head(DecodeStage::Xdr, field) =~= "Failed to parse "@ + x + ": "@);
}

/// A request fails at the base64 stage, with a message that names base64,
/// when the envelope text is not base64.
pub proof fn lemma_malformed_envelope_base64(env: Seq<char>, es: Seq<(Seq<char>, Seq<char>)>)
    requires
        base64_decoded(env) is None,
    ensures
        request_failure(env, es) == Some((DecodeStage::Base64, Field::Envelope)),
        has_sub(failure_head(DecodeStage::Base64, Field::Envelope), "Base64"@),
{
    lemma_failure_head_names(Field::Envelope);
}

/// A request whose envelope and first `j` ledger pairs decode, and whose
/// `j`th key, or else its `j`th entry, is not base64, fails at the base64
/// stage on that input, with a message that names base64.
pub proof fn lemma_malformed_entry_base64(env: Seq<char>, es: Seq<(Seq<char>, Seq<char>)>, j: int)
    requires
        decode_failure(Field::Envelope, env) is None,
        0 <= j < es.len(),
        forall|i: int|
            0 <= i < j ==> decode_failure(Field::LedgerKey, #[trigger] es[i].0) is None
                && decode_failure(Field::LedgerEntry, es[i].1) is None,
        base64_decoded(es[j].0) is None || (decode_failure(Field::LedgerKey, es[j].0) is None
            && base64_decoded(es[j].1) is None),
    ensures
        request_failure(env, es) == Some(
            (
                DecodeStage::Base64,
                if base64_decoded(es[j].0) is None {
                    Field::LedgerKey
                } else {
                    Field::LedgerEntry
                },
            ),
        ),
        has_sub(failure_head(DecodeStage::Base64, Field::LedgerKey), "Base64"@),
        has_sub(failure_head(DecodeStage::Base64, Field::LedgerEntry), "Base64"@),
{
    lemma_entries_failure_from(es, j);
    assert(es.subrange(j, es.len() as int)[0] == es[j]);
    lemma_failure_head_names(Field::LedgerKey);
    lemma_failure_head_names(Field::LedgerEntry);
}

/// A request whose envelope is base64 but not an envelope's XDR fails at the
/// XDR stage, with a message that names the envelope's XDR.
pub proof fn lemma_malformed_envelope_xdr(env: Seq<char>, es: Seq<(Seq<char>, Seq<char>)>)
    requires
        base64_decoded(env) is Some,
        !envelope_xdr_ok(base64_decoded(env)->Some_0),
    ensures
        request_failure(env, es) == Some((DecodeStage::Xdr, Field::Envelope)),
        has_sub(failure_head(DecodeStage::Xdr, Field::Envelope), "Envelope XDR"@),
{
    lemma_failure_head_names(Field::Envelope);
    reveal_strlit("Envelope XDR");
    reveal_strlit("Envelope");
    reveal_strlit(" XDR");
    assert(field_name(Field::Envelope) + " XDR"@ =~= "Envelope XDR"@);
}

/// A request whose envelope and first `j` ledger pairs decode, and whose
/// `j`th key is base64 but not a key's XDR, fails at the XDR stage on that
/// key, with a message that names the key's XDR.
pub proof fn lemma_malformed_key_xdr(env: Seq<char>, es: Seq<(Seq<char>, Seq<char>)>, j: int)
    requires
        decode_failure(Field::Envelope, env) is None,
        0 <= j < es.len(),
        forall|i: int|
            0 <= i < j ==> decode_failure(Field::LedgerKey, #[trigger] es[i].0) is None
                && decode_failure(Field::LedgerEntry, es[i].1) is None,
        base64_decoded(es[j].0) is Some,
        !key_xdr_ok(base64_decoded(es[j].0)->Some_0),
    ensures
        request_failure(env, es) == Some((DecodeStage::Xdr, Field::LedgerKey)),
        has_sub(failure_head(DecodeStage::Xdr, Field::LedgerKey), "LedgerKey XDR"@),
{
    lemma_entries_failure_from(es, j);
    assert(es.subrange(j, es.len() as int)[0] == es[j]);
    lemma_failure_head_names(Field::LedgerKey);
    reveal_strlit("LedgerKey XDR");
    reveal_strlit("LedgerKey");
    reveal_strlit(" XDR");
    assert(field_name(Field::LedgerKey) + " XDR"@ =~= "LedgerKey XDR"@);
}

} // verus!
