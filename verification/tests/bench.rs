use narwhal_evm::bench::{
    accounts_query, after_connect_attempt, balance_of_reply, WaitAction, RETRY_DELAY_MS, balance_query, account_list, burst_overran, dev_account_pairs, pair_accounts, transfer_batch, transfer_broadcast, transfer_text,
    ScheduleAction, ScheduleEvent, SendSchedule, BURST_DURATION, PRECISION,
};

#[test]
fn accounts_pair_with_their_predecessor() {
    let a = [1u8; 20];
    let b = [2u8; 20];
    let c = [3u8; 20];
    assert_eq!(pair_accounts(&vec![a, b, c]), vec![(a, c), (b, a), (c, b)]);
    assert_eq!(pair_accounts(&vec![a]), vec![(a, a)]);
    assert!(pair_accounts(&vec![]).is_empty());
}

#[test]
fn dev_accounts_from_reply() {
    let reply = br#"["0x0101010101010101010101010101010101010101","0x0202020202020202020202020202020202020202"]"#;
    let pairs = dev_account_pairs(reply).unwrap();
    assert_eq!(pairs, vec![([1u8; 20], [2u8; 20]), ([2u8; 20], [1u8; 20])]);
    assert!(dev_account_pairs(b"{\"error\":1}").is_none());
}

#[test]
fn transfer_json_text() {
    let t = transfer_text([0xaa; 20], [0xbb; 20], [1, 0, 0, 0]);
    assert_eq!(
        t,
        "{\"from\":\"0xaaaaaaaaaaaaaaaaaaaaaaaaaaaaaaaaaaaaaaaa\",\"to\":\"0xbbbbbbbbbbbbbbbbbbbbbbbbbbbbbbbbbbbbbbbb\",\"gas\":\"0x5208\",\"value\":\"0x1\"}"
    );
    let q = transfer_broadcast([0xaa; 20], [0xbb; 20], [100_000_000_000_000_000, 0, 0, 0]);
    assert!(q.tx.ends_with("\"value\":\"0x16345785d8a0000\"}"));
}

#[test]
fn transfer_batch_cycles_accounts() {
    let accounts = vec![([1u8; 20], [2u8; 20]), ([2u8; 20], [1u8; 20])];
    let txs = transfer_batch(&accounts);
    assert_eq!(txs.len(), 2);
    assert_eq!(txs[0], transfer_text([1u8; 20], [2u8; 20], [1, 0, 0, 0]).into_bytes());
    assert_eq!(txs[1], transfer_text([2u8; 20], [1u8; 20], [1, 0, 0, 0]).into_bytes());
}

#[test]
fn burst_size_and_duration() {
    assert_eq!(PRECISION, 20);
    assert_eq!(BURST_DURATION, 50);
    assert_eq!(SendSchedule::new(1000, 3).burst_size(), 50);
    assert_eq!(SendSchedule::new(19, 3).burst_size(), 0);
    assert!(burst_overran(51));
    assert!(!burst_overran(50));
}

#[test]
fn schedule_cycles_transactions_and_marks_one_sample() {
    // 80 tx/s: bursts of 4 transactions, cycling through 3 of them.
    let mut s = SendSchedule::new(80, 3);
    let mut bursts = Vec::new();
    for _ in 0..3 {
        let mut sent = Vec::new();
        let mut action = s.step(ScheduleEvent::Tick);
        loop {
            match action {
                ScheduleAction::Send { index, sample } => {
                    sent.push((index, sample));
                    action = s.step(ScheduleEvent::Sent(true));
                }
                ScheduleAction::EndBurst => break,
                ScheduleAction::Stop => panic!("no send failed"),
            }
        }
        bursts.push(sent);
    }
    assert_eq!(bursts[0], vec![(0, Some(0)), (1, None), (2, None), (0, None)]);
    assert_eq!(bursts[1], vec![(0, None), (1, Some(1)), (2, None), (0, None)]);
    assert_eq!(bursts[2], vec![(0, None), (1, None), (2, Some(2)), (0, None)]);
    assert_eq!(s.bursts_begun(), 3);
}

#[test]
fn schedule_stops_on_failed_send() {
    let mut s = SendSchedule::new(40, 1);
    assert!(matches!(s.step(ScheduleEvent::Tick), ScheduleAction::Send { index: 0, sample: Some(0) }));
    assert!(matches!(s.step(ScheduleEvent::Sent(false)), ScheduleAction::Stop));
}

#[test]
fn empty_bursts_only_count() {
    let mut s = SendSchedule::new(5, 2);
    assert!(matches!(s.step(ScheduleEvent::Tick), ScheduleAction::EndBurst));
    assert!(matches!(s.step(ScheduleEvent::Tick), ScheduleAction::EndBurst));
    assert_eq!(s.bursts_begun(), 2);
}

#[test]
fn account_list_reads_addresses() {
    let reply = br#"["0x0101010101010101010101010101010101010101"]"#;
    assert_eq!(account_list(reply), Some(vec![[1u8; 20]]));
    assert_eq!(account_list(b"[]"), Some(vec![]));
    assert_eq!(account_list(b"[1]"), None);
}

#[test]
fn big_transfer_values() {
    let q = transfer_broadcast([0xaa; 20], [0xbb; 20], [0, 0, 0, 1]);
    assert!(q.tx.ends_with("\"value\":\"0x1000000000000000000000000000000000000000000000000\"}"));
}

#[test]
fn balance_replies_and_queries() {
    assert_eq!(balance_of_reply(br#""0x64""#), Some([100, 0, 0, 0]));
    assert_eq!(balance_of_reply(br#""0x10000000000000000""#), Some([0, 1, 0, 0]));
    assert_eq!(balance_of_reply(b"\"error\""), None);
    let q = balance_query([0xab; 20]);
    assert_eq!(q.method, "eth_getBalance");
    assert_eq!(q.params, "[\"0xabababababababababababababababababababab\",\"latest\"]");
    let a = accounts_query();
    assert_eq!(a.method, "eth_accounts");
    assert_eq!(a.params, "[]");
}

#[test]
fn waiting_retries_until_online() {
    assert!(matches!(after_connect_attempt(true), WaitAction::Online));
    assert!(matches!(after_connect_attempt(false), WaitAction::RetryAfter(10)));
    assert_eq!(RETRY_DELAY_MS, 10);
}

#[test]
fn zero_value_transfer_writes_zero() {
    let t = transfer_text([0u8; 20], [0u8; 20], [0, 0, 0, 0]);
    assert!(t.ends_with("\"gas\":\"0x5208\",\"value\":\"0x0\"}"));
}
