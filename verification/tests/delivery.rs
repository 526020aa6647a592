use narwhal_evm::abci_engine;
use narwhal_evm::delivery::{plan_delivery, prepare_batch, PlanEnd};
use narwhal_evm::error::EngineError;
use narwhal_evm::run::{DeliveryAction, DeliveryEvent, DeliveryRun, Flavor, RunPhase};
use narwhal_evm::shim_engine::Engine;
use narwhal_evm::transaction::{prepare_transaction, TxPreparation};
use narwhal_evm::worker_message::{decode_batch, decode_worker_message, WorkerMessage};

const ALICE: &str = "0xaaaaaaaaaaaaaaaaaaaaaaaaaaaaaaaaaaaaaaaa";
const BOB: &str = "0xbbbbbbbbbbbbbbbbbbbbbbbbbbbbbbbbbbbbbbbb";

fn transfer(from: &str, to: &str, value: u32) -> Vec<u8> {
    format!("{{\"from\":\"{}\",\"to\":\"{}\",\"value\":\"0x{:x}\"}}", from, to, value).into_bytes()
}

fn stored(tag: u32, txs: Vec<Vec<u8>>) -> Vec<u8> {
    bincode::serialize(&(tag, txs)).unwrap()
}

fn batch(txs: Vec<Vec<u8>>) -> Result<Vec<u8>, EngineError> {
    Ok(stored(0, txs))
}

#[test]
fn stored_batch_decodes() {
    let txs = vec![vec![1u8, 2], vec![], vec![3]];
    let bytes = stored(0, txs.clone());
    match decode_worker_message(&bytes) {
        Some(WorkerMessage::Batch(b)) => assert_eq!(b, txs),
        None => panic!("a batch message decodes"),
    }
    assert_eq!(decode_batch(&bytes).ok(), Some(txs));
}

#[test]
fn stored_batch_layout_is_read_as_written() {
    // Tag 0, one entry of two bytes, then a stray byte that is left unread.
    let bytes = [0u8, 0, 0, 0, 1, 0, 0, 0, 0, 0, 0, 0, 2, 0, 0, 0, 0, 0, 0, 0, 97, 98, 7];
    assert_eq!(decode_batch(&bytes).ok(), Some(vec![vec![97u8, 98]]));
    // The entry claims three bytes where two remain.
    let short = [0u8, 0, 0, 0, 1, 0, 0, 0, 0, 0, 0, 0, 3, 0, 0, 0, 0, 0, 0, 0, 97, 98];
    assert!(matches!(decode_batch(&short), Err(EngineError::UnrecognizedMessageFormat)));
    // A count far past the end fails without reading further.
    let huge = [0u8, 0, 0, 0, 255, 255, 255, 255, 255, 255, 255, 255];
    assert!(matches!(decode_batch(&huge), Err(EngineError::UnrecognizedMessageFormat)));
}

#[test]
fn other_messages_are_unrecognized() {
    let bytes = stored(1, vec![vec![1]]);
    assert!(decode_worker_message(&bytes).is_none());
    assert!(matches!(decode_batch(&bytes), Err(EngineError::UnrecognizedMessageFormat)));
    assert!(matches!(decode_batch(&[1, 2]), Err(EngineError::UnrecognizedMessageFormat)));
}

#[test]
fn transaction_to_an_address_is_ready() {
    let tx = transfer(ALICE, BOB, 1);
    match prepare_transaction(tx.clone()) {
        TxPreparation::Ready(p) => {
            assert_eq!(p.raw, tx);
            assert_eq!(p.recipient, [0xbb; 20]);
            assert_eq!(p.request.from, Some([0xaa; 20]));
            assert_eq!(p.request.to, Some([0xbb; 20]));
            assert_eq!(p.request.value, Some([1, 0, 0, 0]));
            assert_eq!(p.request.gas, None);
        }
        _ => panic!("expected a ready transaction"),
    }
}

#[test]
fn transaction_without_recipient_is_not_an_address() {
    let tx = format!("{{\"from\":\"{}\"}}", ALICE).into_bytes();
    assert!(matches!(prepare_transaction(tx), TxPreparation::NotAnAddress));
}

#[test]
fn garbage_transaction_is_undecodable() {
    let expected = serde_json::from_slice::<ethers_core::types::TransactionRequest>(b"not json")
        .unwrap_err()
        .to_string();
    match prepare_transaction(b"not json".to_vec()) {
        TxPreparation::Undecodable(m) => assert_eq!(m, expected),
        _ => panic!("expected the decoder's message"),
    }
    let ens = b"{\"to\":\"vitalik.eth\"}".to_vec();
    assert!(matches!(prepare_transaction(ens), TxPreparation::Undecodable(_)));
}

#[test]
fn batch_preparation_stops_at_first_bad_transaction() {
    let prepared = prepare_batch(vec![transfer(ALICE, BOB, 1), b"oops".to_vec(), transfer(BOB, ALICE, 2)]);
    assert_eq!(prepared.ready.len(), 1);
    let expected = serde_json::from_slice::<ethers_core::types::TransactionRequest>(b"oops")
        .unwrap_err()
        .to_string();
    match prepared.stop {
        Some(PlanEnd::Failed(EngineError::TransactionDecode(m))) => assert_eq!(m, expected),
        _ => panic!("expected the decoder's message"),
    }
}

#[test]
fn plan_sends_batches_in_order_and_counts_last_batch() {
    let t1 = transfer(ALICE, BOB, 1);
    let t2 = transfer(ALICE, BOB, 2);
    let t3 = transfer(BOB, ALICE, 3);
    let batches = vec![batch(vec![t1.clone(), t2.clone()]), batch(vec![t3.clone()])];
    let plan = plan_delivery(&batches);
    let raws: Vec<Vec<u8>> = plan.sends.iter().map(|p| p.raw.clone()).collect();
    assert_eq!(raws, vec![t1, t2, t3]);
    assert!(matches!(plan.end, PlanEnd::Completed(1)));
}

#[test]
fn empty_payload_completes_with_nothing() {
    let plan = plan_delivery(&vec![]);
    assert!(plan.sends.is_empty());
    assert!(matches!(plan.end, PlanEnd::Completed(0)));
}

#[test]
fn missing_batch_stops_after_earlier_batches() {
    let t1 = transfer(ALICE, BOB, 1);
    let batches = vec![
        batch(vec![t1.clone()]),
        Err(EngineError::DigestNotFound(vec![4, 4])),
        batch(vec![transfer(BOB, ALICE, 9)]),
    ];
    let plan = plan_delivery(&batches);
    assert_eq!(plan.sends.len(), 1);
    assert_eq!(plan.sends[0].raw, t1);
    match plan.end {
        PlanEnd::Failed(EngineError::DigestNotFound(d)) => assert_eq!(d, vec![4, 4]),
        _ => panic!("expected DigestNotFound"),
    }
}

#[test]
fn undecodable_batch_is_unrecognized() {
    let batches = vec![Ok(vec![9, 9, 9])];
    let plan = plan_delivery(&batches);
    assert!(plan.sends.is_empty());
    assert!(matches!(plan.end, PlanEnd::Failed(EngineError::UnrecognizedMessageFormat)));
}

#[test]
fn missing_recipient_aborts_the_delivery() {
    let no_to = format!("{{\"from\":\"{}\"}}", ALICE).into_bytes();
    let batches = vec![batch(vec![transfer(ALICE, BOB, 1), no_to, transfer(ALICE, BOB, 2)])];
    let plan = plan_delivery(&batches);
    assert_eq!(plan.sends.len(), 1);
    assert!(matches!(plan.end, PlanEnd::NotAnAddress));
}

#[test]
fn shim_run_sends_then_mines_last_batch_length() {
    let engine = Engine::new("127.0.0.1:8545".to_string(), "db-0");
    let batches = vec![
        batch(vec![transfer(ALICE, BOB, 1), transfer(ALICE, BOB, 2)]),
        batch(vec![transfer(BOB, ALICE, 3), transfer(BOB, ALICE, 4), transfer(BOB, ALICE, 5)]),
    ];
    let mut run = engine.handle_cert(&batches);
    let mut action = run.step(DeliveryEvent::Start);
    let mut sent = Vec::new();
    loop {
        match action {
            DeliveryAction::Send { index, await_receipt } => {
                assert!(!await_receipt);
                sent.push(index);
                action = run.step(DeliveryEvent::Sent(Ok(())));
            }
            DeliveryAction::Mine { blocks } => {
                assert_eq!(blocks, 3);
                action = run.step(DeliveryEvent::Mined(Ok(())));
            }
            DeliveryAction::Finished(r) => {
                assert!(r.is_ok());
                break;
            }
            DeliveryAction::NotAnAddress => panic!("every transaction goes to an address"),
            DeliveryAction::BeginBlock { .. } | DeliveryAction::EndBlock { .. } | DeliveryAction::Commit => {
                panic!("mining engines have no block lifecycle")
            }
        }
    }
    assert_eq!(sent, vec![0, 1, 2, 3, 4]);
    assert!(matches!(run.current_phase(), &RunPhase::Done));
}

#[test]
fn refused_send_ends_the_run_without_mining() {
    let engine = Engine::new("127.0.0.1:8545".to_string(), "db-0");
    let batches = vec![batch(vec![transfer(ALICE, BOB, 1), transfer(ALICE, BOB, 2)])];
    let mut run = engine.handle_cert(&batches);
    assert!(matches!(run.step(DeliveryEvent::Start), DeliveryAction::Send { index: 0, .. }));
    match run.step(DeliveryEvent::Sent(Err("nonce too low".to_string()))) {
        DeliveryAction::Finished(Err(EngineError::Application(m))) => assert_eq!(m, "nonce too low"),
        _ => panic!("expected the application's error"),
    }
}

#[test]
fn failed_mining_is_an_error() {
    let engine = Engine::new("127.0.0.1:8545".to_string(), "db-0");
    let mut run = engine.handle_cert(&vec![]);
    assert!(matches!(run.step(DeliveryEvent::Start), DeliveryAction::Mine { blocks: 0 }));
    assert!(matches!(
        run.step(DeliveryEvent::Mined(Err("down".to_string()))),
        DeliveryAction::Finished(Err(EngineError::Application(_)))
    ));
}

#[test]
fn abci_run_goes_through_the_block_lifecycle() {
    let mut engine = abci_engine::Engine::new("127.0.0.1:26658".to_string(), "db-0", 7);
    let batches = vec![batch(vec![transfer(ALICE, BOB, 1), transfer(ALICE, BOB, 2)])];
    let mut run = engine.handle_cert(&batches);
    assert_eq!(engine.last_block_height, 8);
    assert!(matches!(run.current_flavor(), &Flavor::BlockLifecycle { height: 8 }));
    assert!(matches!(run.step(DeliveryEvent::Start), DeliveryAction::BeginBlock { height: 8 }));
    assert!(matches!(
        run.step(DeliveryEvent::BlockBegun(Ok(()))),
        DeliveryAction::Send { index: 0, await_receipt: true }
    ));
    assert!(matches!(
        run.step(DeliveryEvent::Sent(Ok(()))),
        DeliveryAction::Send { index: 1, await_receipt: true }
    ));
    assert!(matches!(run.step(DeliveryEvent::Sent(Ok(()))), DeliveryAction::EndBlock { height: 8 }));
    assert!(matches!(run.step(DeliveryEvent::BlockEnded(Ok(()))), DeliveryAction::Commit));
    assert!(matches!(run.step(DeliveryEvent::Committed(Ok(()))), DeliveryAction::Finished(Ok(()))));
    assert!(matches!(run.current_phase(), &RunPhase::Done));
}

#[test]
fn abci_empty_certificate_is_still_a_block() {
    let mut engine = abci_engine::Engine::new("127.0.0.1:26658".to_string(), "db-0", 0);
    let mut run = engine.handle_cert(&vec![]);
    assert!(matches!(run.step(DeliveryEvent::Start), DeliveryAction::BeginBlock { height: 1 }));
    assert!(matches!(run.step(DeliveryEvent::BlockBegun(Ok(()))), DeliveryAction::EndBlock { height: 1 }));
    assert!(matches!(run.step(DeliveryEvent::BlockEnded(Ok(()))), DeliveryAction::Commit));
    match run.step(DeliveryEvent::Committed(Err("app crashed".to_string()))) {
        DeliveryAction::Finished(Err(EngineError::Application(m))) => assert_eq!(m, "app crashed"),
        _ => panic!("expected the application's error"),
    }
}

#[test]
fn abci_refused_begin_block_ends_the_run() {
    let mut engine = abci_engine::Engine::new("127.0.0.1:26658".to_string(), "db-0", 3);
    let mut run = engine.handle_cert(&vec![batch(vec![transfer(ALICE, BOB, 1)])]);
    assert!(matches!(run.step(DeliveryEvent::Start), DeliveryAction::BeginBlock { height: 4 }));
    assert!(matches!(
        run.step(DeliveryEvent::BlockBegun(Err("no".to_string()))),
        DeliveryAction::Finished(Err(EngineError::Application(_)))
    ));
}

#[test]
fn run_reports_plan_failure_after_sending_prefix() {
    let plan = plan_delivery(&vec![batch(vec![transfer(ALICE, BOB, 1)]), Err(EngineError::Store("corrupt".to_string()))]);
    let mut run = DeliveryRun::new(plan, Flavor::MineAfterDelivery);
    assert!(matches!(run.step(DeliveryEvent::Start), DeliveryAction::Send { index: 0, .. }));
    match run.step(DeliveryEvent::Sent(Ok(()))) {
        DeliveryAction::Finished(Err(EngineError::Store(m))) => assert_eq!(m, "corrupt"),
        _ => panic!("expected the store error"),
    }
}

#[test]
fn engine_addresses() {
    let engine = Engine::new("127.0.0.1:8545".to_string(), "db-2");
    assert_eq!(engine.app_url(), "http://127.0.0.1:8545");
    assert_eq!(engine.worker_db(5), "db-2-5");
}
