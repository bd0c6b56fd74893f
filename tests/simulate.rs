use base64::Engine;
use simulator::codec::{
    decode_entry, decode_envelope, decode_key, decode_result_metadata, DecodeStage, Field,
};
use simulator::pipeline::{simulate, SimulationRequest};
use soroban_env_host::xdr::{
    BytesM, ContractCodeEntry, ContractCodeEntryExt, ContractId, FeeBumpTransaction,
    FeeBumpTransactionEnvelope, FeeBumpTransactionExt, FeeBumpTransactionInnerTx,
    HostFunction, InvokeContractArgs, InvokeHostFunctionOp, LedgerEntry, LedgerEntryData,
    LedgerEntryExt, LedgerKey, LedgerKeyContractCode, Limits, Memo, MuxedAccount, Operation,
    OperationBody, Preconditions, ScAddress, ScSymbol, SequenceNumber, Transaction,
    TransactionEnvelope, TransactionExt, TransactionV0, TransactionV0Envelope, TransactionV0Ext,
    TransactionV1Envelope, Uint256, VecM, WriteXdr,
};

fn b64<T: WriteXdr>(v: &T) -> String {
    base64::engine::general_purpose::STANDARD.encode(v.to_xdr(Limits::none()).unwrap())
}

fn invoke_op() -> Operation {
    Operation {
        source_account: None,
        body: OperationBody::InvokeHostFunction(InvokeHostFunctionOp {
            host_function: HostFunction::InvokeContract(InvokeContractArgs {
                contract_address: ScAddress::Contract(ContractId(soroban_env_host::xdr::Hash([1; 32]))),
                function_name: ScSymbol("hello".try_into().unwrap()),
                args: VecM::default(),
            }),
            auth: VecM::default(),
        }),
    }
}

fn upload_op() -> Operation {
    Operation {
        source_account: None,
        body: OperationBody::InvokeHostFunction(InvokeHostFunctionOp {
            host_function: HostFunction::UploadContractWasm(BytesM::default()),
            auth: VecM::default(),
        }),
    }
}

fn inflation_op() -> Operation {
    Operation { source_account: None, body: OperationBody::Inflation }
}

fn v1(ops: Vec<Operation>) -> TransactionV1Envelope {
    TransactionV1Envelope {
        tx: Transaction {
            source_account: MuxedAccount::Ed25519(Uint256([3; 32])),
            fee: 100,
            seq_num: SequenceNumber(1),
            cond: Preconditions::None,
            memo: Memo::None,
            operations: ops.try_into().unwrap(),
            ext: TransactionExt::V0,
        },
        signatures: VecM::default(),
    }
}

fn envelope(ops: Vec<Operation>) -> TransactionEnvelope {
    TransactionEnvelope::Tx(v1(ops))
}

fn code_key(n: u8) -> LedgerKey {
    LedgerKey::ContractCode(LedgerKeyContractCode { hash: soroban_env_host::xdr::Hash([n; 32]) })
}

fn code_entry(n: u8) -> LedgerEntry {
    LedgerEntry {
        last_modified_ledger_seq: 1,
        data: LedgerEntryData::ContractCode(ContractCodeEntry {
            ext: ContractCodeEntryExt::V0,
            hash: soroban_env_host::xdr::Hash([n; 32]),
            code: BytesM::default(),
        }),
        ext: LedgerEntryExt::V0,
    }
}

fn request(env: String, entries: Option<Vec<(String, String)>>) -> SimulationRequest {
    SimulationRequest { envelope_xdr: env, result_meta_xdr: None, ledger_entries: entries }
}

#[test]
fn envelope_variants_decode_to_equal_values() {
    let tx = envelope(vec![inflation_op(), invoke_op()]);
    let v0 = TransactionEnvelope::TxV0(TransactionV0Envelope {
        tx: TransactionV0 {
            source_account_ed25519: Uint256([4; 32]),
            fee: 10,
            seq_num: SequenceNumber(2),
            time_bounds: None,
            memo: Memo::None,
            operations: vec![upload_op()].try_into().unwrap(),
            ext: TransactionV0Ext::V0,
        },
        signatures: VecM::default(),
    });
    let bump = TransactionEnvelope::TxFeeBump(FeeBumpTransactionEnvelope {
        tx: FeeBumpTransaction {
            fee_source: MuxedAccount::Ed25519(Uint256([5; 32])),
            fee: 200,
            inner_tx: FeeBumpTransactionInnerTx::Tx(v1(vec![invoke_op()])),
            ext: FeeBumpTransactionExt::V0,
        },
        signatures: VecM::default(),
    });
    for e in [tx, v0, bump] {
        let decoded = decode_envelope(&b64(&e)).ok().unwrap();
        assert_eq!(decoded, e);
    }
}

#[test]
fn bad_base64_is_a_base64_failure() {
    let e = decode_envelope("not base64!").err().unwrap();
    assert_eq!(e.stage, DecodeStage::Base64);
    assert_eq!(e.field, Field::Envelope);
    assert!(e.message().starts_with("Failed to decode Envelope Base64: "));
    let k = decode_key("@@@").err().unwrap();
    assert_eq!((k.stage, k.field), (DecodeStage::Base64, Field::LedgerKey));
    let en = decode_entry("@@@").err().unwrap();
    assert_eq!((en.stage, en.field), (DecodeStage::Base64, Field::LedgerEntry));
    let m = decode_result_metadata("@@@").err().unwrap();
    assert_eq!((m.stage, m.field), (DecodeStage::Base64, Field::ResultMeta));
    assert!(m.message().starts_with("Failed to decode ResultMeta Base64: "));
}

#[test]
fn bad_xdr_is_an_xdr_failure() {
    let e = decode_envelope("AAAA").err().unwrap();
    assert_eq!((e.stage, e.field), (DecodeStage::Xdr, Field::Envelope));
    assert!(e.message().starts_with("Failed to parse Envelope XDR: "));
    let k = decode_key("/////w==").err().unwrap();
    assert_eq!((k.stage, k.field), (DecodeStage::Xdr, Field::LedgerKey));
    assert!(k.message().starts_with("Failed to parse LedgerKey XDR: "));
    let en = decode_entry("AAAA").err().unwrap();
    assert_eq!((en.stage, en.field), (DecodeStage::Xdr, Field::LedgerEntry));
}

#[test]
fn keys_and_entries_decode() {
    assert_eq!(decode_key(&b64(&code_key(9))).ok().unwrap(), code_key(9));
    assert_eq!(decode_entry(&b64(&code_entry(9))).ok().unwrap(), code_entry(9));
}

#[test]
fn malformed_base64_request_fails_before_the_host() {
    let r = simulate(&request("%%%".to_string(), None));
    assert_eq!(r.status, "error");
    let msg = r.error.unwrap();
    assert!(msg.contains("Base64"));
    assert!(msg.starts_with("Failed to decode Envelope Base64: "));
    assert!(r.events.is_empty());
    assert!(r.logs.is_empty());

    let env = b64(&envelope(vec![]));
    let r2 = simulate(&request(env, Some(vec![("%%%".to_string(), "AAAA".to_string())])));
    assert_eq!(r2.status, "error");
    assert!(r2.error.unwrap().starts_with("Failed to decode LedgerKey Base64: "));
    assert!(r2.logs.is_empty());
}

#[test]
fn malformed_xdr_request_names_the_field() {
    let r = simulate(&request("AAAA".to_string(), None));
    assert_eq!(r.status, "error");
    assert!(r.error.unwrap().contains("Envelope XDR"));

    let env = b64(&envelope(vec![]));
    let r2 = simulate(&request(env.clone(), Some(vec![("/////w==".to_string(), "AAAA".to_string())])));
    assert_eq!(r2.status, "error");
    assert!(r2.error.unwrap().contains("LedgerKey XDR"));
    assert!(r2.events.is_empty());

    let good_key = b64(&code_key(1));
    let r3 = simulate(&request(env, Some(vec![(good_key, "AAAA".to_string())])));
    assert!(r3.error.unwrap().contains("LedgerEntry XDR"));
}

#[test]
fn no_operations_succeeds_with_only_the_count_line() {
    let r = simulate(&request(b64(&envelope(vec![])), None));
    assert_eq!(r.status, "success");
    assert!(r.error.is_none());
    assert!(r.events.is_empty());
    assert_eq!(r.logs, vec!["Host Initialized. Loaded 0 Ledger Entries".to_string()]);
}

#[test]
fn entry_count_is_logged() {
    let entries: Vec<(String, String)> =
        (1..=3).map(|n| (b64(&code_key(n)), b64(&code_entry(n)))).collect();
    let r = simulate(&request(b64(&envelope(vec![])), Some(entries)));
    assert_eq!(r.status, "success");
    assert_eq!(r.logs, vec!["Host Initialized. Loaded 3 Ledger Entries".to_string()]);
    let r0 = simulate(&request(b64(&envelope(vec![])), Some(vec![])));
    assert_eq!(r0.logs[0], "Host Initialized. Loaded 0 Ledger Entries");
}

#[test]
fn skipped_operations_are_logged_in_order() {
    let r = simulate(&request(b64(&envelope(vec![inflation_op(), upload_op()])), None));
    assert_eq!(r.status, "success");
    assert_eq!(
        r.logs,
        vec![
            "Host Initialized. Loaded 0 Ledger Entries".to_string(),
            "Skipping non-InvokeHostFunction Operation".to_string(),
            "Skipping non-InvokeContract Host Function".to_string(),
        ]
    );
}

#[test]
fn invocation_follows_an_unrelated_operation_in_order() {
    let r = simulate(&request(b64(&envelope(vec![inflation_op(), invoke_op()])), None));
    assert_eq!(r.logs.len(), 3);
    assert_eq!(r.logs[1], "Skipping non-InvokeHostFunction Operation");
    assert!(r.logs[2].starts_with("Invoking Contract: "));
}

#[test]
fn failed_invocation_stops_dispatch() {
    let r = simulate(&request(b64(&envelope(vec![invoke_op(), inflation_op()])), None));
    assert_eq!(r.status, "error");
    assert!(r.events.is_empty());
    assert_eq!(r.logs.len(), 2);
    assert!(r.logs[1].starts_with("Invoking Contract: "));
    assert!(r.error.unwrap().starts_with("Host-initiated Trap: HostError: "));
}

#[test]
fn same_request_gives_same_response() {
    let env = b64(&envelope(vec![upload_op(), inflation_op()]));
    let a = simulate(&request(env.clone(), None));
    let b = simulate(&request(env, None));
    assert_eq!(a.status, b.status);
    assert_eq!(a.error, b.error);
    assert_eq!(a.events, b.events);
    assert_eq!(a.logs, b.logs);
}

#[test]
fn operations_are_logged_alike_whatever_the_variant() {
    let ops = vec![upload_op(), inflation_op()];
    let v1_env = envelope(ops.clone());
    let bump = TransactionEnvelope::TxFeeBump(FeeBumpTransactionEnvelope {
        tx: FeeBumpTransaction {
            fee_source: MuxedAccount::Ed25519(Uint256([5; 32])),
            fee: 200,
            inner_tx: FeeBumpTransactionInnerTx::Tx(v1(ops)),
            ext: FeeBumpTransactionExt::V0,
        },
        signatures: VecM::default(),
    });
    let a = simulate(&request(b64(&v1_env), None));
    let b = simulate(&request(b64(&bump), None));
    assert_eq!(a.status, "success");
    assert_eq!(a.logs, b.logs);
    assert_eq!(a.status, b.status);
}
