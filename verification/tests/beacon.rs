use execution_beacon::{
    emit_execution, BeaconError, Caller, EmitExecution, ExecutionObserved, MemorySink, PublicKey,
};

fn key(last: u8) -> PublicKey {
    let mut bytes = [0u8; 32];
    bytes[0] = 0xA0;
    bytes[31] = last;
    PublicKey { bytes }
}

fn quote(last: u8) -> [u8; 32] {
    let mut id = [0u8; 32];
    id[31] = last;
    id
}

fn signed_by(public_key: PublicKey) -> EmitExecution {
    EmitExecution { payer: Caller::authenticated(public_key) }
}

#[test]
fn authenticated_call_emits_the_record_as_given() {
    let mut quote_id = [0u8; 32];
    for (i, byte) in quote_id.iter_mut().enumerate() {
        *byte = (i as u8).wrapping_mul(7).wrapping_add(3);
    }
    let p = key(9);
    let mut sink = MemorySink::new();
    assert_eq!(emit_execution(&signed_by(p), quote_id, &mut sink), Ok(()));
    assert_eq!(sink.len(), 1);
    assert_eq!(sink.records()[0].payer, p);
    assert_eq!(sink.records()[0].quote_id, quote_id);
}

#[test]
fn unauthenticated_call_is_rejected_and_emits_nothing() {
    let ctx = EmitExecution { payer: Caller::unauthenticated(key(1)) };
    let mut sink = MemorySink::new();
    assert_eq!(
        emit_execution(&ctx, quote(1), &mut sink),
        Err(BeaconError::Unauthenticated)
    );
    assert_eq!(sink.len(), 0);
    assert!(sink.records().is_empty());
    assert!(sink.is_available());
}

#[test]
fn unauthenticated_call_is_rejected_before_the_sink_is_tried() {
    let ctx = EmitExecution { payer: Caller { public_key: key(1), is_signer: false } };
    let mut sink = MemorySink::new();
    sink.set_available(false);
    assert_eq!(
        emit_execution(&ctx, quote(1), &mut sink),
        Err(BeaconError::Unauthenticated)
    );
    assert_eq!(sink.len(), 0);
}

#[test]
fn sink_failure_is_reported_and_nothing_is_committed() {
    let mut sink = MemorySink::new();
    sink.set_available(false);
    assert_eq!(
        emit_execution(&signed_by(key(1)), quote(1), &mut sink),
        Err(BeaconError::EmissionFailure)
    );
    assert_eq!(sink.len(), 0);
}

#[test]
fn sink_failure_keeps_earlier_records() {
    let p = key(1);
    let mut sink = MemorySink::new();
    assert_eq!(emit_execution(&signed_by(p), quote(1), &mut sink), Ok(()));
    sink.set_available(false);
    assert!(!sink.is_available());
    assert_eq!(
        emit_execution(&signed_by(p), quote(2), &mut sink),
        Err(BeaconError::EmissionFailure)
    );
    assert_eq!(
        sink.records().as_slice(),
        &[ExecutionObserved { payer: p, quote_id: quote(1) }]
    );
    sink.set_available(true);
    assert_eq!(emit_execution(&signed_by(p), quote(2), &mut sink), Ok(()));
    assert_eq!(sink.len(), 2);
    assert_eq!(sink.records()[1].quote_id, quote(2));
}

#[test]
fn different_signers_same_quote_give_two_distinct_events() {
    let a = key(1);
    let b = key(2);
    let mut sink = MemorySink::new();
    assert_eq!(emit_execution(&signed_by(a), quote(5), &mut sink), Ok(()));
    assert_eq!(emit_execution(&signed_by(b), quote(5), &mut sink), Ok(()));
    assert_eq!(sink.len(), 2);
    let records = sink.records();
    assert_eq!(records[0], ExecutionObserved { payer: a, quote_id: quote(5) });
    assert_eq!(records[1], ExecutionObserved { payer: b, quote_id: quote(5) });
    assert_ne!(records[0], records[1]);
    assert_ne!(records[0].payer, records[1].payer);
    assert_eq!(records[0].quote_id, records[1].quote_id);
}

#[test]
fn same_signer_same_quote_gives_exactly_two_events() {
    let p = key(3);
    let mut sink = MemorySink::new();
    assert_eq!(emit_execution(&signed_by(p), quote(5), &mut sink), Ok(()));
    assert_eq!(emit_execution(&signed_by(p), quote(5), &mut sink), Ok(()));
    assert_eq!(sink.len(), 2);
    assert_eq!(sink.records()[0], sink.records()[1]);
    assert_eq!(sink.records()[0], ExecutionObserved { payer: p, quote_id: quote(5) });
}

#[test]
fn second_quote_from_same_payer_is_a_second_event() {
    let p = key(7);
    let mut sink = MemorySink::new();
    assert_eq!(emit_execution(&signed_by(p), quote(1), &mut sink), Ok(()));
    assert_eq!(
        sink.records().as_slice(),
        &[ExecutionObserved { payer: p, quote_id: quote(1) }]
    );
    assert_eq!(emit_execution(&signed_by(p), quote(2), &mut sink), Ok(()));
    assert_eq!(
        sink.records().as_slice(),
        &[
            ExecutionObserved { payer: p, quote_id: quote(1) },
            ExecutionObserved { payer: p, quote_id: quote(2) },
        ]
    );
}

#[test]
fn new_sink_is_empty_and_available() {
    let sink = MemorySink::new();
    assert!(sink.is_available());
    assert_eq!(sink.len(), 0);
}

#[test]
fn caller_constructors_set_the_verdict() {
    let p = key(4);
    assert_eq!(Caller::authenticated(p), Caller { public_key: p, is_signer: true });
    assert_eq!(Caller::unauthenticated(p), Caller { public_key: p, is_signer: false });
}
