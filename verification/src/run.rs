//! Carrying out a planned delivery: the engine sends the planned transactions one
//! by one and stops at the first one that the application refuses. Where the
//! engine mines blocks itself, it mines once everything was delivered; where each
//! certificate is a block of the application, the transactions are delivered
//! between BeginBlock and EndBlock, and the block is committed afterwards.
use vstd::prelude::*;
use crate::delivery::{DeliveryPlan, PlanEnd};
use crate::transaction::PreparedTx;
use crate::error::{EngineError, EngineErrorView};

verus! {

/// What the application is asked to do with delivered transactions.
pub enum Flavor {
    /// Transactions are left pending; once all are delivered the engine asks the
    /// application to mine as many blocks as the last batch had transactions.
    MineAfterDelivery,
    /// The certificate is the block at `height`: BeginBlock, then each transaction
    /// (its receipt awaited), then EndBlock and Commit.
    BlockLifecycle { height: i64 },
}

/// Where a delivery run stands.
pub enum RunPhase {
    /// Not started.
    Ready,
    /// Waiting for BeginBlock to be acknowledged.
    Beginning,
    Sending,
    /// Waiting for EndBlock to be acknowledged.
    Ending,
    /// Waiting for Commit to be acknowledged.
    Committing,
    Mining,
    Done,
}

/// What the engine reports back to a delivery run. Each result is `Ok` or the
/// application's message.
pub enum DeliveryEvent {
    /// The run begins.
    Start,
    /// BeginBlock was acknowledged or refused.
    BlockBegun(Result<(), String>),
    /// The last transaction asked for was sent (and its receipt came, where one
    /// was awaited) or it was refused.
    Sent(Result<(), String>),
    /// EndBlock was acknowledged or refused.
    BlockEnded(Result<(), String>),
    /// Commit was acknowledged or refused.
    Committed(Result<(), String>),
    /// The blocks asked for were mined, or not.
    Mined(Result<(), String>),
}

/// What a delivery run asks the engine to do next.
pub enum DeliveryAction {
    /// Begin the block at this height.
    BeginBlock { height: i64 },
    /// Send the planned transaction at this index; with `await_receipt`, also wait
    /// for its receipt.
    Send { index: usize, await_receipt: bool },
    /// End the block at this height.
    EndBlock { height: i64 },
    /// Commit the block.
    Commit,
    /// Ask the application to mine this many blocks.
    Mine { blocks: u64 },
    /// The certificate is handled: successfully or with this error.
    Finished(Result<(), EngineError>),
    /// A transaction does not go to an address: the engine gives up (it panics).
    NotAnAddress,
}

/// A delivery in progress. It never counts more sends than were planned, it
/// begins a block before sending, and it ends, commits or mines only after sending
/// everything of a plan that completes.
pub struct DeliveryRun {
    plan: DeliveryPlan,
    flavor: Flavor,
    /// The number of planned transactions sent so far.
    sent: usize,
    phase: RunPhase,
}

impl DeliveryRun {
    #[verifier::type_invariant]
    spec fn wf(&self) -> bool {
        &&& self.sent <= self.plan.sends.len()
        &&& (self.phase is Ready || self.phase is Beginning) ==> self.sent == 0
        &&& self.phase is Beginning ==> self.flavor is BlockLifecycle
        &&& self.phase is Mining ==> {
            &&& self.sent == self.plan.sends.len()
            &&& self.plan.end is Completed
            &&& self.flavor is MineAfterDelivery
        }
        &&& (self.phase is Ending || self.phase is Committing) ==> {
            &&& self.sent == self.plan.sends.len()
            &&& self.plan.end is Completed
            &&& self.flavor is BlockLifecycle
        }
    }

    /// The plan being carried out.
    pub closed spec fn plan(&self) -> DeliveryPlan {
        self.plan
    }

    /// What the application is asked to do.
    pub closed spec fn flavor(&self) -> Flavor {
        self.flavor
    }

    /// The number of planned transactions sent so far.
    pub closed spec fn sent(&self) -> nat {
        self.sent as nat
    }

    /// Where the run stands.
    pub closed spec fn phase(&self) -> RunPhase {
        self.phase
    }

    /// Mining, ending or committing happens only once every planned transaction of a
    /// plan that completes was sent, and only in the flavor that does it; a block is
    /// begun before anything is sent.
    pub open spec fn closes_only_after_delivery(&self) -> bool {
        &&& self.sent() <= self.plan().sends.len()
        &&& self.phase() is Beginning ==> self.sent() == 0 && self.flavor() is BlockLifecycle
        &&& self.phase() is Mining ==> {
            &&& self.sent() == self.plan().sends.len()
            &&& self.plan().end is Completed
            &&& self.flavor() is MineAfterDelivery
        }
        &&& (self.phase() is Ending || self.phase() is Committing) ==> {
            &&& self.sent() == self.plan().sends.len()
            &&& self.plan().end is Completed
            &&& self.flavor() is BlockLifecycle
        }
    }

    /// The planned transaction at `index`, or `None` past the last one.
    pub fn planned(&self, index: usize) -> (p: Option<&PreparedTx>)
        ensures
            index < self.plan().sends.len() ==> p == Some(&self.plan().sends@[index as int]),
            index >= self.plan().sends.len() ==> p is None,
    {
        if index < self.plan.sends.len() {
            Some(&self.plan.sends[index])
        } else {
            None
        }
    }

    /// Where the run stands.
    pub fn current_phase(&self) -> (p: &RunPhase)
        ensures
            *p == self.phase(),
    {
        &self.phase
    }

    /// What the application is asked to do.
    pub fn current_flavor(&self) -> (f: &Flavor)
        ensures
            *f == self.flavor(),
    {
        &self.flavor
    }

    /// `event` is one that the run can be told in its phase.
    pub open spec fn accepts(&self, event: DeliveryEvent) -> bool {
        match event {
            DeliveryEvent::Start => self.phase() is Ready,
            DeliveryEvent::BlockBegun(_) => self.phase() is Beginning,
            DeliveryEvent::Sent(_) => self.phase() is Sending && self.sent() < self.plan().sends.len(),
            DeliveryEvent::BlockEnded(_) => self.phase() is Ending,
            DeliveryEvent::Committed(_) => self.phase() is Committing,
            DeliveryEvent::Mined(_) => self.phase() is Mining,
        }
    }

    /// The action, and the phase that follows, once `sent` planned transactions
    /// have been sent: the next send, or the end of the plan.
    pub open spec fn proceed(&self, sent: nat, action: DeliveryAction, phase: RunPhase) -> bool {
        if sent < self.plan().sends.len() {
            &&& action == (DeliveryAction::Send {
                index: sent as usize,
                await_receipt: self.flavor() is BlockLifecycle,
            })
            &&& phase is Sending
        } else {
            match self.plan().end {
                PlanEnd::Completed(n) => match self.flavor() {
                    Flavor::MineAfterDelivery => action == (DeliveryAction::Mine { blocks: n as u64 })
                        && phase is Mining,
                    Flavor::BlockLifecycle { height } => action == (DeliveryAction::EndBlock {
                        height,
                    }) && phase is Ending,
                },
                PlanEnd::Failed(e) => action matches DeliveryAction::Finished(Err(x)) && x@ == e@
                    && phase is Done,
                PlanEnd::NotAnAddress => action is NotAnAddress && phase is Done,
            }
        }
    }

    /// The run ends with the application's message `m`.
    pub open spec fn refused(action: DeliveryAction, m: String) -> bool {
        action matches DeliveryAction::Finished(Err(e)) && e@ == EngineErrorView::Application(m@)
    }

    /// Readies `plan` to be carried out.
    pub fn new(plan: DeliveryPlan, flavor: Flavor) -> (run: DeliveryRun)
        ensures
            run.plan() == plan,
            run.flavor() == flavor,
            run.sent() == 0,
            run.phase() is Ready,
    {
        DeliveryRun { plan, flavor, sent: 0, phase: RunPhase::Ready }
    }

    /// The action that follows once `self.sent` transactions are sent.
    fn next_action(&mut self) -> (action: DeliveryAction)
        requires
            old(self).phase is Sending,
        ensures
            final(self).plan == old(self).plan,
            final(self).flavor == old(self).flavor,
            final(self).sent == old(self).sent,
            old(self).proceed(old(self).sent as nat, action, final(self).phase),
    {
        proof {
            use_type_invariant(&*self);
        }
        if self.sent < self.plan.sends.len() {
            let await_receipt = match self.flavor {
                Flavor::MineAfterDelivery => false,
                Flavor::BlockLifecycle { .. } => true,
            };
            DeliveryAction::Send { index: self.sent, await_receipt }
        } else {
            match &self.plan.end {
                PlanEnd::Completed(n) => match self.flavor {
                    Flavor::MineAfterDelivery => {
                        let blocks = *n as u64;
                        self.phase = RunPhase::Mining;
                        DeliveryAction::Mine { blocks }
                    },
                    Flavor::BlockLifecycle { height } => {
                        self.phase = RunPhase::Ending;
                        DeliveryAction::EndBlock { height }
                    },
                },
                PlanEnd::Failed(e) => {
                    let e = e.duplicate();
                    self.phase = RunPhase::Done;
                    DeliveryAction::Finished(Err(e))
                },
                PlanEnd::NotAnAddress => {
                    self.phase = RunPhase::Done;
                    DeliveryAction::NotAnAddress
                },
            }
        }
    }

    /// Ends the run with the application's message `m`.
    fn refuse(&mut self, m: String) -> (action: DeliveryAction)
        ensures
            final(self).plan == old(self).plan,
            final(self).flavor == old(self).flavor,
            final(self).sent == old(self).sent,
            final(self).phase is Done,
            Self::refused(action, m),
    {
        proof {
            use_type_invariant(&*self);
        }
        self.phase = RunPhase::Done;
        DeliveryAction::Finished(Err(EngineError::Application(m)))
    }

    /// Once `sent` planned transactions are sent, a run never reports success: it
    /// sends the next one, or, with all of them sent, mines or ends the block of a
    /// plan that completes, fails with the plan's error, or gives up on a
    /// transaction without an address. Success comes only from the application
    /// acknowledging the mining or the commit that follow a completed plan.
    pub proof fn law_proceeding_follows_the_plan(&self, sent: nat, action: DeliveryAction, phase: RunPhase)
        requires
            self.proceed(sent, action, phase),
        ensures
            !(action matches DeliveryAction::Finished(Ok(()))),
            sent < self.plan().sends.len() ==> (action matches DeliveryAction::Send { index, .. } && index == sent),
            sent >= self.plan().sends.len() ==> !(action is Send),
            (action is Mine || action is EndBlock) ==> self.plan().end is Completed,
            sent >= self.plan().sends.len() && self.plan().end is Completed ==> (action is Mine || action is EndBlock),
            sent >= self.plan().sends.len() && self.plan().end is NotAnAddress ==> action is NotAnAddress,
            action is NotAnAddress ==> self.plan().end is NotAnAddress,
            sent >= self.plan().sends.len() ==> (self.plan().end matches PlanEnd::Failed(e) ==> (action matches
                DeliveryAction::Finished(Err(x)) && x@ == e@)),
            action matches DeliveryAction::Finished(Err(x)) ==> (self.plan().end matches PlanEnd::Failed(e) && x@ == e@),
            action matches DeliveryAction::Send { await_receipt, .. } ==> (await_receipt <==> self.flavor() is BlockLifecycle),
            action matches DeliveryAction::Mine { blocks } ==> (self.flavor() is MineAfterDelivery
                && (self.plan().end matches PlanEnd::Completed(n) && blocks == n)),
            action matches DeliveryAction::EndBlock { height } ==> (self.flavor() matches Flavor::BlockLifecycle {
                height: h } && h == height),
    {
    }

    /// Takes what the engine reports and says what it does next.
    pub fn step(&mut self, event: DeliveryEvent) -> (action: DeliveryAction)
        requires
            old(self).accepts(event),
        ensures
            final(self).plan() == old(self).plan(),
            final(self).flavor() == old(self).flavor(),
            final(self).closes_only_after_delivery(),
            match event {
                DeliveryEvent::Start => (match old(self).flavor() {
                    Flavor::MineAfterDelivery => old(self).proceed(0, action, final(self).phase()),
                    Flavor::BlockLifecycle { height } => action == (DeliveryAction::BeginBlock {
                        height,
                    }) && final(self).phase() is Beginning,
                }) && final(self).sent() == 0,
                DeliveryEvent::BlockBegun(Ok(())) => old(self).proceed(0, action, final(self).phase())
                    && final(self).sent() == 0,
                DeliveryEvent::Sent(Ok(())) => old(self).proceed(
                    (old(self).sent() + 1) as nat,
                    action,
                    final(self).phase(),
                ) && final(self).sent() == old(self).sent() + 1,
                DeliveryEvent::BlockEnded(Ok(())) => action is Commit && final(self).phase() is Committing
                    && final(self).sent() == old(self).sent(),
                DeliveryEvent::Committed(Ok(())) | DeliveryEvent::Mined(Ok(())) => action matches DeliveryAction::Finished(Ok(()))
                    && final(self).phase() is Done && final(self).sent() == old(self).sent(),
                DeliveryEvent::BlockBegun(Err(m)) | DeliveryEvent::Sent(Err(m))
                | DeliveryEvent::BlockEnded(Err(m)) | DeliveryEvent::Committed(Err(m))
                | DeliveryEvent::Mined(Err(m)) => Self::refused(action, m) && final(self).phase() is Done
                    && final(self).sent() == old(self).sent(),
            },
            action matches DeliveryAction::Finished(Ok(())) ==> {
                &&& old(self).plan().end is Completed
                &&& final(self).sent() == old(self).plan().sends.len()
            },
            action is NotAnAddress ==> {
                &&& old(self).plan().end is NotAnAddress
                &&& final(self).sent() == old(self).plan().sends.len()
            },
    {
        proof {
            use_type_invariant(&*self);
        }
        match event {
            DeliveryEvent::Start => match self.flavor {
                Flavor::MineAfterDelivery => {
                    self.phase = RunPhase::Sending;
                    self.next_action()
                },
                Flavor::BlockLifecycle { height } => {
                    self.phase = RunPhase::Beginning;
                    DeliveryAction::BeginBlock { height }
                },
            },
            DeliveryEvent::BlockBegun(Ok(())) => {
                self.phase = RunPhase::Sending;
                self.next_action()
            },
            DeliveryEvent::Sent(Ok(())) => {
                self.sent = self.sent + 1;
                self.next_action()
            },
            DeliveryEvent::BlockEnded(Ok(())) => {
                self.phase = RunPhase::Committing;
                DeliveryAction::Commit
            },
            DeliveryEvent::Committed(Ok(())) | DeliveryEvent::Mined(Ok(())) => {
                self.phase = RunPhase::Done;
                DeliveryAction::Finished(Ok(()))
            },
            DeliveryEvent::BlockBegun(Err(m)) | DeliveryEvent::Sent(Err(m))
            | DeliveryEvent::BlockEnded(Err(m)) | DeliveryEvent::Committed(Err(m))
            | DeliveryEvent::Mined(Err(m)) => self.refuse(m),
        }
    }
}

} // verus!
