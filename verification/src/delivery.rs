//! Which transactions a certificate delivers to the application, and how the
//! delivery ends.
//!
//! The batches of a certificate are read from the workers' stores first, in the
//! order of the certificate's payload. They are then taken one after another: each
//! is decoded, and each of its transactions is decoded and sent in turn. The first
//! batch or transaction that cannot be taken ends the delivery; what came before it
//! has been sent.
use vstd::prelude::*;
use vstd::pervasive::VecAdditionalExecFns;
use crate::error::{EngineError, EngineErrorView};
use crate::transaction::{decodes_to, json_request_recipient, json_transaction_request, prepare_transaction, PreparedTx, TxPreparation};
use crate::worker_message::{decode_batch, decoded_batch};

verus! {

/// How the delivery of a certificate ends, in terms of its inputs.
pub enum DeliveryEnd {
    /// Every transaction was taken; the number of transactions of the last batch
    /// (zero when the payload is empty).
    Completed(nat),
    /// A batch could not be read or decoded.
    Failed(EngineErrorView),
    /// A transaction did not decode as a JSON transaction request; the decoder's message.
    Undecodable(Seq<char>),
    /// A transaction decoded, but does not go to an address.
    NotAnAddress,
}

/// The transactions of a batch that are sent, in order, and why the batch stops
/// short where it does: all transactions up to the first one that does not decode
/// to a request to an address.
pub open spec fn tx_run(txs: Seq<Seq<u8>>) -> (Seq<Seq<u8>>, Option<DeliveryEnd>)
    decreases txs.len(),
{
    if txs.len() == 0 {
        (seq![], None)
    } else {
        match json_transaction_request(txs[0]) {
            Err(m) => (seq![], Some(DeliveryEnd::Undecodable(m))),
            Ok(r) => match r.to {
                None => (seq![], Some(DeliveryEnd::NotAnAddress)),
                Some(_) => {
                    let rest = tx_run(txs.drop_first());
                    (seq![txs[0]] + rest.0, rest.1)
                },
            },
        }
    }
}

/// The transactions sent for the batches `batches` (each the outcome of reading
/// it from its worker's store), in order, and how the delivery ends; `last` is the
/// number of transactions of the batch taken before them.
pub open spec fn delivery(batches: Seq<Result<Vec<u8>, EngineError>>, last: nat) -> (
    Seq<Seq<u8>>,
    DeliveryEnd,
)
    decreases batches.len(),
{
    if batches.len() == 0 {
        (seq![], DeliveryEnd::Completed(last))
    } else {
        match batches[0] {
            Err(e) => (seq![], DeliveryEnd::Failed(e@)),
            Ok(bytes) => match decoded_batch(bytes@) {
                None => (seq![], DeliveryEnd::Failed(EngineErrorView::UnrecognizedMessageFormat)),
                Some(txs) => {
                    let run = tx_run(txs);
                    match run.1 {
                        Some(end) => (run.0, end),
                        None => {
                            let rest = delivery(batches.drop_first(), txs.len());
                            (run.0 + rest.0, rest.1)
                        },
                    }
                },
            },
        }
    }
}

/// The delivery of a whole certificate whose batches read as `batches`.
pub open spec fn certificate_delivery(batches: Seq<Result<Vec<u8>, EngineError>>) -> (
    Seq<Seq<u8>>,
    DeliveryEnd,
) {
    delivery(batches, 0)
}

/// How a planned delivery ends.
pub enum PlanEnd {
    /// Every transaction is sent; the number of transactions of the last batch.
    Completed(usize),
    /// A batch or a transaction cannot be taken.
    Failed(EngineError),
    /// A transaction does not go to an address.
    NotAnAddress,
}

/// The transactions to send for a certificate, in order, and how the delivery ends
/// once they are sent.
pub struct DeliveryPlan {
    pub sends: Vec<PreparedTx>,
    pub end: PlanEnd,
}

impl PlanEnd {
    /// This end is the spec-level end `end`.
    pub open spec fn is(&self, end: DeliveryEnd) -> bool {
        match end {
            DeliveryEnd::Completed(n) => self matches PlanEnd::Completed(m) && m == n,
            DeliveryEnd::Failed(e) => self matches PlanEnd::Failed(x) && x@ == e,
            DeliveryEnd::Undecodable(m) => self matches PlanEnd::Failed(x) && x@
                == EngineErrorView::TransactionDecode(m),
            DeliveryEnd::NotAnAddress => self is NotAnAddress,
        }
    }
}

/// The bytes of the prepared transactions `sends`.
pub open spec fn sent_bytes(sends: Seq<PreparedTx>) -> Seq<Seq<u8>> {
    sends.map_values(|p: PreparedTx| p.raw@)
}

/// Every prepared transaction in `sends` carries the request that its bytes decode
/// to, and that request goes to its recipient.
pub open spec fn all_ready(sends: Seq<PreparedTx>) -> bool {
    forall|k: int|
        0 <= k < sends.len() ==> {
            &&& decodes_to((#[trigger] sends[k]).raw@, sends[k].request@)
            &&& json_request_recipient(sends[k].raw@) == Some(Some(sends[k].recipient@))
        }
}

impl DeliveryPlan {
    /// This plan carries out the delivery of a certificate whose batches read as `batches`.
    pub open spec fn delivers(&self, batches: Seq<Result<Vec<u8>, EngineError>>) -> bool {
        &&& sent_bytes(self.sends@) == certificate_delivery(batches).0
        &&& self.end.is(certificate_delivery(batches).1)
        &&& all_ready(self.sends@)
    }
}

/// Unfolds `tx_run` at position `j` of `txs` where the transaction there is ready.
proof fn lemma_tx_run_step(txs: Seq<Seq<u8>>, j: int)
    requires
        0 <= j < txs.len(),
        json_request_recipient(txs[j]) matches Some(Some(_)),
    ensures
        tx_run(txs.skip(j)) == (seq![txs[j]] + tx_run(txs.skip(j + 1)).0, tx_run(
            txs.skip(j + 1),
        ).1),
{
    assert(txs.skip(j).drop_first() =~= txs.skip(j + 1));
    assert(txs.skip(j)[0] == txs[j]);
}

/// Unfolds `delivery` at position `i` of `batches` where the batch there decodes
/// to `txs`, all of which are ready.
proof fn lemma_delivery_step(
    batches: Seq<Result<Vec<u8>, EngineError>>,
    i: int,
    last: nat,
    txs: Seq<Seq<u8>>,
)
    requires
        0 <= i < batches.len(),
        batches[i] matches Ok(bytes) && decoded_batch(bytes@) == Some(txs),
        tx_run(txs).1 is None,
    ensures
        delivery(batches.skip(i), last) == (tx_run(txs).0 + delivery(
            batches.skip(i + 1),
            txs.len(),
        ).0, delivery(batches.skip(i + 1), txs.len()).1),
{
    assert(batches.skip(i).drop_first() =~= batches.skip(i + 1));
    assert(batches.skip(i)[0] == batches[i]);
}

/// What preparing a batch gives: the prepared transactions up to the first one that
/// cannot be sent, and the end of the delivery when there is such a one.
pub struct BatchPreparation {
    pub ready: Vec<PreparedTx>,
    pub stop: Option<PlanEnd>,
}

/// Prepares the transactions of one batch, in order, up to the first one that
/// cannot be sent.
pub fn prepare_batch(txs: Vec<Vec<u8>>) -> (r: BatchPreparation)
    ensures
        sent_bytes(r.ready@) == tx_run(txs.deep_view()).0,
        all_ready(r.ready@),
        match tx_run(txs.deep_view()).1 {
            None => r.stop is None,
            Some(end) => r.stop matches Some(s) && s.is(end),
        },
{
    let ghost orig = txs.deep_view();
    let n = txs.len();
    let mut pending = txs;
    let mut ready: Vec<PreparedTx> = Vec::new();
    let mut j: usize = 0;
    assert(orig.skip(0) =~= orig);
    while j < n
        invariant_except_break
            n == orig.len(),
            orig == txs.deep_view(),
            pending.len() == n,
            j <= n,
            forall|k: int| j <= k < n ==> (#[trigger] pending[k])@ == orig[k],
            sent_bytes(ready@) + tx_run(orig.skip(j as int)).0 == tx_run(orig).0,
            tx_run(orig.skip(j as int)).1 == tx_run(orig).1,
            all_ready(ready@),
        ensures
            sent_bytes(ready@) == tx_run(orig).0,
            all_ready(ready@),
            tx_run(orig).1 is None,
        decreases n - j,
    {
        let mut tx: Vec<u8> = Vec::new();
        pending.set_and_swap(j, &mut tx);
        assert(tx@ == orig[j as int]);
        match prepare_transaction(tx) {
            TxPreparation::Ready(p) => {
                proof {
                    lemma_tx_run_step(orig, j as int);
                    assert(sent_bytes(ready@.push(p)) =~= sent_bytes(ready@).push(p.raw@));
                }
                ready.push(p);
                proof {
                    assert(sent_bytes(ready@) + tx_run(orig.skip(j + 1)).0 =~= tx_run(orig).0);
                }
                j = j + 1;
            },
            TxPreparation::Undecodable(msg) => {
                proof {
                    assert(orig.skip(j as int)[0] == orig[j as int]);
                    assert(tx_run(orig.skip(j as int)).0 =~= seq![]);
                    assert(sent_bytes(ready@) =~= tx_run(orig).0);
                }
                return BatchPreparation {
                    ready,
                    stop: Some(PlanEnd::Failed(EngineError::TransactionDecode(msg))),
                };
            },
            TxPreparation::NotAnAddress => {
                proof {
                    assert(orig.skip(j as int)[0] == orig[j as int]);
                    assert(tx_run(orig.skip(j as int)).0 =~= seq![]);
                    assert(sent_bytes(ready@) =~= tx_run(orig).0);
                }
                return BatchPreparation { ready, stop: Some(PlanEnd::NotAnAddress) };
            },
        }
    }
    proof {
        assert(orig.skip(n as int) =~= seq![]);
        assert(sent_bytes(ready@) =~= sent_bytes(ready@) + tx_run(orig.skip(n as int)).0);
    }
    BatchPreparation { ready, stop: None }
}

/// Plans the delivery of a certificate whose batches read as `batches` (in the
/// order of its payload): the transactions to send, in order, and how the delivery
/// ends once they are sent.
pub fn plan_delivery(batches: &Vec<Result<Vec<u8>, EngineError>>) -> (plan: DeliveryPlan)
    ensures
        plan.delivers(batches@),
        plan.sends.len() <= batch_transactions(batches@).len(),
        sent_bytes(plan.sends@) == batch_transactions(batches@).take(plan.sends.len() as int),
{
    let ghost bs = batches@;
    proof {
        law_delivery_sends_a_prefix(bs);
    }
    let n = batches.len();
    let mut sends: Vec<PreparedTx> = Vec::new();
    let mut last: usize = 0;
    let mut i: usize = 0;
    assert(bs.skip(0) =~= bs);
    while i < n
        invariant_except_break
            n == bs.len(),
            bs == batches@,
            i <= n,
            sent_bytes(sends@) + delivery(bs.skip(i as int), last as nat).0 == certificate_delivery(bs).0,
            delivery(bs.skip(i as int), last as nat).1 == certificate_delivery(bs).1,
            all_ready(sends@),
            certificate_delivery(bs).0.len() <= batch_transactions(bs).len(),
            certificate_delivery(bs).0 == batch_transactions(bs).take(certificate_delivery(bs).0.len() as int),
        ensures
            sent_bytes(sends@) + delivery(bs.skip(i as int), last as nat).0 == certificate_delivery(bs).0,
            delivery(bs.skip(i as int), last as nat).1 == certificate_delivery(bs).1,
            all_ready(sends@),
            i == n,
        decreases n - i,
    {
        proof {
            assert(bs.skip(i as int)[0] == bs[i as int]);
        }
        match &batches[i] {
            Err(e) => {
                proof {
                    assert(delivery(bs.skip(i as int), last as nat).0 =~= seq![]);
                    assert(sent_bytes(sends@) + seq![] =~= sent_bytes(sends@));
                }
                return DeliveryPlan { sends, end: PlanEnd::Failed(e.duplicate()) };
            },
            Ok(bytes) => {
                match decode_batch(bytes.as_slice()) {
                    Err(_) => {
                        proof {
                            assert(delivery(bs.skip(i as int), last as nat).0 =~= seq![]);
                            assert(sent_bytes(sends@) + seq![] =~= sent_bytes(sends@));
                        }
                        return DeliveryPlan {
                            sends,
                            end: PlanEnd::Failed(EngineError::UnrecognizedMessageFormat),
                        };
                    },
                    Ok(txs) => {
                        let ghost txs_view = txs.deep_view();
                        let count = txs.len();
                        let prepared = prepare_batch(txs);
                        let mut ready = prepared.ready;
                        proof {
                            assert(sent_bytes(sends@ + ready@) =~= sent_bytes(sends@) + sent_bytes(ready@));
                        }
                        let ghost before = sends@;
                        sends.append(&mut ready);
                        assert(sends@ == before + prepared.ready@);
                        match prepared.stop {
                            Some(end) => {
                                proof {
                                    assert(sent_bytes(sends@) =~= sent_bytes(before) + tx_run(txs_view).0);
                                }
                                return DeliveryPlan { sends, end };
                            },
                            None => {
                                proof {
                                    lemma_delivery_step(bs, i as int, last as nat, txs_view);
                                    assert(sent_bytes(sends@) + delivery(bs.skip(i + 1), count as nat).0
                                        =~= certificate_delivery(bs).0);
                                    assert forall|k: int| 0 <= k < sends@.len() implies
                                        decodes_to((#[trigger] sends@[k]).raw@, sends@[k].request@)
                                        && json_request_recipient(sends@[k].raw@) == Some(Some(sends@[k].recipient@)) by {
                                        if k >= before.len() {
                                            assert(sends@[k] == prepared.ready@[k - before.len()]);
                                        } else {
                                            assert(sends@[k] == before[k]);
                                        }
                                    }
                                }
                                last = count;
                                i = i + 1;
                            },
                        }
                    },
                }
            },
        }
    }
    proof {
        assert(bs.skip(n as int) =~= seq![]);
        assert(sent_bytes(sends@) =~= sent_bytes(sends@) + delivery(bs.skip(n as int), last as nat).0);
    }
    DeliveryPlan { sends, end: PlanEnd::Completed(last) }
}

/// Every batch of `batches` was read and decodes as a worker's batch message.
pub open spec fn all_batches_decode(batches: Seq<Result<Vec<u8>, EngineError>>) -> bool {
    forall|i: int|
        0 <= i < batches.len() ==> (#[trigger] batches[i] matches Ok(b) && decoded_batch(b@) is Some)
}

/// The transactions of the batches `batches`, concatenated in order (a batch that
/// cannot be read or decoded contributes nothing, and neither do those after it).
pub open spec fn batch_transactions(batches: Seq<Result<Vec<u8>, EngineError>>) -> Seq<Seq<u8>>
    decreases batches.len(),
{
    if batches.len() == 0 {
        seq![]
    } else {
        match batches[0] {
            Ok(b) => match decoded_batch(b@) {
                Some(txs) => txs + batch_transactions(batches.drop_first()),
                None => seq![],
            },
            Err(_) => seq![],
        }
    }
}

/// The number of transactions of the last batch of `batches`, or zero where there is none.
pub open spec fn last_batch_len(batches: Seq<Result<Vec<u8>, EngineError>>) -> nat {
    if batches.len() == 0 {
        0
    } else {
        match batches.last() {
            Ok(b) => match decoded_batch(b@) {
                Some(txs) => txs.len(),
                None => 0,
            },
            Err(_) => 0,
        }
    }
}

/// A batch whose transactions all go out is sent whole.
proof fn lemma_tx_run_whole(txs: Seq<Seq<u8>>)
    ensures
        tx_run(txs).1 is None ==> tx_run(txs).0 == txs,
        tx_run(txs).1 matches Some(end) ==> end is Undecodable || end is NotAnAddress,
    decreases txs.len(),
{
    if txs.len() > 0 {
        lemma_tx_run_whole(txs.drop_first());
        if tx_run(txs).1 is None {
            assert(seq![txs[0]] + txs.drop_first() =~= txs);
        }
    }
}

proof fn lemma_delivery_completed(batches: Seq<Result<Vec<u8>, EngineError>>, last: nat)
    ensures
        delivery(batches, last).1 matches DeliveryEnd::Completed(n) ==> {
            &&& all_batches_decode(batches)
            &&& delivery(batches, last).0 == batch_transactions(batches)
            &&& n == if batches.len() == 0 {
                last
            } else {
                last_batch_len(batches)
            }
        },
    decreases batches.len(),
{
    if batches.len() > 0 {
        let rest = batches.drop_first();
        lemma_delivery_completed(rest, 0);
        if let Ok(b) = batches[0] {
            if let Some(txs) = decoded_batch(b@) {
                lemma_tx_run_whole(txs);
                lemma_delivery_completed(rest, txs.len());
                if delivery(batches, last).1 is Completed {
                    assert(all_batches_decode(rest));
                    assert forall|i: int| 0 <= i < batches.len() implies
                        (#[trigger] batches[i] matches Ok(x) && decoded_batch(x@) is Some) by {
                        if i > 0 {
                            assert(batches[i] == rest[i - 1]);
                        }
                    }
                    if rest.len() > 0 {
                        assert(rest.last() == batches.last());
                    }
                }
            }
        }
    }
}

/// A certificate's delivery completes only when every batch of its payload was
/// read and decoded and every transaction went out; then the transactions sent are
/// those of the batches, in the payload's order, and the number of blocks to mine
/// is the number of transactions of the last batch (zero for an empty payload).
pub proof fn law_completed_delivery_sends_every_batch(batches: Seq<Result<Vec<u8>, EngineError>>)
    requires
        certificate_delivery(batches).1 is Completed,
    ensures
        all_batches_decode(batches),
        certificate_delivery(batches).0 == batch_transactions(batches),
        certificate_delivery(batches).1 == DeliveryEnd::Completed(last_batch_len(batches)),
{
    lemma_delivery_completed(batches, 0);
}

/// A batch's run of transactions is the start of the batch; where it stops short,
/// the transaction it stops at is the one that does not decode (with the decoder's
/// message) or that goes to no address.
proof fn lemma_tx_run_prefix(txs: Seq<Seq<u8>>)
    ensures
        tx_run(txs).0.len() <= txs.len(),
        tx_run(txs).0 == txs.take(tx_run(txs).0.len() as int),
        tx_run(txs).1 is None ==> tx_run(txs).0 == txs,
        tx_run(txs).1 matches Some(DeliveryEnd::Undecodable(m)) ==> {
            &&& tx_run(txs).0.len() < txs.len()
            &&& json_transaction_request(txs[tx_run(txs).0.len() as int]) matches Err(x) && x == m
        },
        tx_run(txs).1 matches Some(DeliveryEnd::NotAnAddress) ==> {
            &&& tx_run(txs).0.len() < txs.len()
            &&& json_transaction_request(txs[tx_run(txs).0.len() as int]) matches Ok(r) && r.to is None
        },
        tx_run(txs).1 matches Some(end) ==> end is Undecodable || end is NotAnAddress,
    decreases txs.len(),
{
    if txs.len() == 0 {
        assert(txs.take(0) =~= txs);
    } else {
        let rest = txs.drop_first();
        lemma_tx_run_prefix(rest);
        let r = tx_run(rest);
        match json_transaction_request(txs[0]) {
            Err(_) => {
                assert(txs.take(0) =~= seq![]);
            },
            Ok(q) => match q.to {
                None => {
                    assert(txs.take(0) =~= seq![]);
                },
                Some(_) => {
                    assert(tx_run(txs).0 == seq![txs[0]] + r.0);
                    assert(seq![txs[0]] + rest.take(r.0.len() as int) =~= txs.take(r.0.len() + 1 as int));
                    assert(seq![txs[0]] + rest =~= txs);
                    if r.0.len() < rest.len() {
                        assert(txs[r.0.len() + 1 as int] == rest[r.0.len() as int]);
                    }
                },
            },
        }
    }
}

/// `delivery` sends the start of the batches' transactions (see
/// `law_delivery_sends_a_prefix`).
proof fn lemma_delivery_prefix(batches: Seq<Result<Vec<u8>, EngineError>>, last: nat)
    ensures
        ({
            let sent = delivery(batches, last).0;
            let all = batch_transactions(batches);
            &&& sent.len() <= all.len()
            &&& sent == all.take(sent.len() as int)
            &&& delivery(batches, last).1 is Failed ==> sent == all
            &&& delivery(batches, last).1 matches DeliveryEnd::Undecodable(m) ==> {
                &&& sent.len() < all.len()
                &&& json_transaction_request(all[sent.len() as int]) matches Err(x) && x == m
            }
            &&& delivery(batches, last).1 is NotAnAddress ==> {
                &&& sent.len() < all.len()
                &&& json_transaction_request(all[sent.len() as int]) matches Ok(r) && r.to is None
            }
        }),
    decreases batches.len(),
{
    if batches.len() == 0 {
        assert(seq![].take(0) =~= Seq::<Seq<u8>>::empty());
    } else {
        let rest = batches.drop_first();
        match batches[0] {
            Err(_) => {
                assert(Seq::<Seq<u8>>::empty().take(0) =~= Seq::<Seq<u8>>::empty());
            },
            Ok(b) => match decoded_batch(b@) {
                None => {
                    assert(Seq::<Seq<u8>>::empty().take(0) =~= Seq::<Seq<u8>>::empty());
                },
                Some(txs) => {
                    let run = tx_run(txs);
                    let all = batch_transactions(batches);
                    assert(all == txs + batch_transactions(rest));
                    lemma_tx_run_prefix(txs);
                    match run.1 {
                        Some(end) => {
                            assert(all.take(run.0.len() as int) =~= txs.take(run.0.len() as int));
                            if run.0.len() < txs.len() {
                                assert(all[run.0.len() as int] == txs[run.0.len() as int]);
                            }
                        },
                        None => {
                            let r = delivery(rest, txs.len());
                            lemma_delivery_prefix(rest, txs.len());
                            let bt = batch_transactions(rest);
                            assert(delivery(batches, last).0 == txs + r.0);
                            assert(all.take((txs.len() + r.0.len()) as int) =~= txs + bt.take(r.0.len() as int));
                            if r.0.len() < bt.len() {
                                assert(all[(txs.len() + r.0.len()) as int] == bt[r.0.len() as int]);
                            }
                        },
                    }
                },
            },
        }
    }
}

/// Whatever the end of a certificate's delivery, the transactions sent are the
/// first ones of its batches, in the payload's order: nothing of a batch after the
/// one where the delivery stops is sent. Where a batch cannot be read or decoded,
/// everything before it was sent. Where a transaction stops the delivery, it is the
/// next one of the payload after those sent, and it does not decode (the decoder's
/// message is the delivery's error) or goes to no address.
pub proof fn law_delivery_sends_a_prefix(batches: Seq<Result<Vec<u8>, EngineError>>)
    ensures
        certificate_delivery(batches).0.len() <= batch_transactions(batches).len(),
        certificate_delivery(batches).0 == batch_transactions(batches).take(
            certificate_delivery(batches).0.len() as int,
        ),
        certificate_delivery(batches).1 is Failed ==> certificate_delivery(batches).0 == batch_transactions(batches),
        certificate_delivery(batches).1 matches DeliveryEnd::Undecodable(m) ==> {
            &&& certificate_delivery(batches).0.len() < batch_transactions(batches).len()
            &&& json_transaction_request(batch_transactions(batches)[certificate_delivery(batches).0.len() as int])
                matches Err(x) && x == m
        },
        certificate_delivery(batches).1 is NotAnAddress ==> {
            &&& certificate_delivery(batches).0.len() < batch_transactions(batches).len()
            &&& json_transaction_request(batch_transactions(batches)[certificate_delivery(batches).0.len() as int])
                matches Ok(r) && r.to is None
        },
{
    lemma_delivery_prefix(batches, 0);
}

/// Where every batch reads and decodes and every transaction goes to an address,
/// the delivery completes.
proof fn lemma_delivery_total(batches: Seq<Result<Vec<u8>, EngineError>>, last: nat)
    requires
        all_batches_decode(batches),
        forall|t: Seq<u8>| batch_transactions(batches).contains(t) ==> (#[trigger] json_request_recipient(t)) matches Some(Some(_)),
    ensures
        delivery(batches, last).1 is Completed,
    decreases batches.len(),
{
    if batches.len() > 0 {
        let rest = batches.drop_first();
        let txs = match batches[0] { Ok(b) => decoded_batch(b@).unwrap(), Err(_) => seq![] };
        assert(batches[0] matches Ok(b) && decoded_batch(b@) is Some);
        assert(batch_transactions(batches) == txs + batch_transactions(rest));
        lemma_tx_run_ready(txs);
        assert forall|i: int| 0 <= i < rest.len() implies
            (#[trigger] rest[i] matches Ok(x) && decoded_batch(x@) is Some) by {
            assert(rest[i] == batches[i + 1]);
        }
        assert forall|t: Seq<u8>| batch_transactions(rest).contains(t) implies
            (#[trigger] json_request_recipient(t)) matches Some(Some(_)) by {
            let k = choose|k: int| 0 <= k < batch_transactions(rest).len() && batch_transactions(rest)[k] == t;
            assert(batch_transactions(batches)[txs.len() + k] == t);
        }
        assert forall|j: int| 0 <= j < txs.len() implies (#[trigger] json_request_recipient(txs[j])) matches Some(Some(_)) by {
            assert(batch_transactions(batches)[j] == txs[j]);
        }
        lemma_delivery_total(rest, txs.len());
    }
}

proof fn lemma_tx_run_ready(txs: Seq<Seq<u8>>)
    ensures
        (forall|j: int| 0 <= j < txs.len() ==> (#[trigger] json_request_recipient(txs[j])) matches Some(Some(_)))
            ==> tx_run(txs).1 is None,
    decreases txs.len(),
{
    if txs.len() > 0 {
        lemma_tx_run_ready(txs.drop_first());
        if forall|j: int| 0 <= j < txs.len() ==> (#[trigger] json_request_recipient(txs[j])) matches Some(Some(_)) {
            assert(json_request_recipient(txs[0]) matches Some(Some(_)));
            assert forall|j: int| 0 <= j < txs.drop_first().len() implies
                (#[trigger] json_request_recipient(txs.drop_first()[j])) matches Some(Some(_)) by {
                assert(txs.drop_first()[j] == txs[j + 1]);
            }
        }
    }
}

/// Conversely, a certificate whose batches all read and decode, and whose
/// transactions all decode to requests to an address, is delivered completely.
pub proof fn law_readable_certificate_completes(batches: Seq<Result<Vec<u8>, EngineError>>)
    requires
        all_batches_decode(batches),
        forall|t: Seq<u8>| batch_transactions(batches).contains(t) ==> (#[trigger] json_request_recipient(t)) matches Some(Some(_)),
    ensures
        certificate_delivery(batches).1 is Completed,
{
    lemma_delivery_total(batches, 0);
}

} // verus!
