//! The escrow state machine: fixed configuration, lifecycle phase, and the
//! three operations that create, fund and settle an agreement.

use vstd::prelude::*;

use crate::errors::EscrowError;

verus! {

/// The fixed reward paid to the notary on settlement, in the ledger's minor
/// unit (here one whole unit of the ledger's currency). The configured cost
/// must exceed it, so the payout after the fee deduction is positive.
pub const MINIMUM_FEE: u128 = 1_000_000_000_000_000_000_000_000;

/// An opaque account reference in the external ledger, used for
/// authorization comparisons and as a transfer destination.
#[derive(Clone, Copy, Debug, PartialEq, Eq, Structural)]
pub struct Identity {
    pub id: u64,
}

/// The lifecycle phase of an agreement. The phase makes the sequencing
/// explicit — fund before unlock, settle once — so a second deposit or a
/// second unlock is rejected instead of repeated.
#[derive(Clone, Copy, Debug, PartialEq, Eq, Structural)]
pub enum Phase {
    /// Created; the deposit has not been made yet.
    Configured,
    /// The buyer has deposited the full cost.
    Funded,
    /// The escrowed value has been released; the agreement is finished.
    Settled,
}

/// An irrevocable transfer instruction for the external ledger: pay `amount`
/// to `to`. The machine only issues these; executing them is the ledger's
/// business.
#[derive(Clone, Copy, Debug, PartialEq, Eq, Structural)]
pub struct Transfer {
    pub to: Identity,
    pub amount: u128,
}

/// One escrow agreement: the configuration fixed at creation and the current
/// lifecycle phase. The fields are the read-only configuration surface.
///
/// The machine does not touch balances itself. The host hands each operation
/// the ambient facts it needs (whether state already exists, the caller of
/// the current call, the attached amount) as plain arguments, and executes
/// the `Transfer` instructions that `unlock` returns.
#[derive(Clone, Copy, Debug, PartialEq, Eq, Structural)]
pub struct Escrow {
    /// Total value the buyer must deposit; fixed at creation.
    pub cost: u128,
    /// The party that funds the escrow.
    pub buyer: Identity,
    /// The party paid when the deal completes.
    pub seller: Identity,
    /// The neutral party rewarded with the minimum fee on settlement.
    pub notary: Identity,
    /// Where in its lifecycle the agreement stands.
    pub phase: Phase,
}

impl Escrow {
    /// The configuration invariant: the cost strictly exceeds the minimum
    /// fee, so `cost - MINIMUM_FEE` is a positive payout. The initializer
    /// establishes it and no operation changes the configuration.
    pub open spec fn wf(self) -> bool {
        self.cost > MINIMUM_FEE
    }

    /// The identity authorized to call `unlock`.
    ///
    /// Which party controls settlement is a deliberate configuration
    /// decision, fixed in this one function: the buyer. One might expect the
    /// notary, as the neutral third party, to hold that right instead; this
    /// machine reserves it to the buyer, and `unlock`'s contract and tests
    /// are stated against this function, so changing the decision means
    /// changing exactly this body.
    pub open spec fn unlock_authorizer(self) -> Identity {
        self.buyer
    }

    /// Creates the agreement. `state_exists` is the host's answer to "does
    /// persisted contract state already exist?": creation is one-shot and is
    /// refused, whatever the arguments, once state exists. The cost must
    /// exceed the minimum fee. On success the four configuration fields are
    /// held verbatim and the phase is `Configured`; no transfer is issued
    /// here.
    pub fn new(
        state_exists: bool,
        cost: u128,
        buyer: Identity,
        seller: Identity,
        notary: Identity,
    ) -> (r: Result<Escrow, EscrowError>)
        ensures
            state_exists ==> r == Err::<Escrow, EscrowError>(EscrowError::Reinitialization),
            !state_exists && cost <= MINIMUM_FEE ==> r == Err::<Escrow, EscrowError>(
                EscrowError::InvalidConfiguration,
            ),
            r is Ok <==> !state_exists && cost > MINIMUM_FEE,
            r matches Ok(e) ==> e == (Escrow {
                cost,
                buyer,
                seller,
                notary,
                phase: Phase::Configured,
            }),
            r matches Ok(e) ==> e.wf(),
    {
        if state_exists {
            return Err(EscrowError::Reinitialization);
        }
        if cost <= MINIMUM_FEE {
            return Err(EscrowError::InvalidConfiguration);
        }
        Ok(Escrow { cost, buyer, seller, notary, phase: Phase::Configured })
    }

    /// Validates the funding call. `caller` is the identity behind the
    /// current call and `attached` the amount that call carries; the ledger
    /// has already credited the attached amount to the contract's balance,
    /// so the machine only validates and records the phase change.
    ///
    /// Only the buyer may fund, and only with exactly `cost` — no partial or
    /// over-deposit. The checks run in that order, so an outsider attaching
    /// a wrong amount is told about authorization, not about the amount. A
    /// correctly shaped second call is rejected by the phase guard instead
    /// of accepting a second payment. On rejection the machine is unchanged.
    pub fn deposit(&mut self, caller: Identity, attached: u128) -> (r: Result<(), EscrowError>)
        ensures
            caller != old(self).buyer ==> r == Err::<(), EscrowError>(
                EscrowError::UnauthorizedCaller,
            ),
            caller == old(self).buyer && attached != old(self).cost ==> r == Err::<
                (),
                EscrowError,
            >(EscrowError::IncorrectAmount { expected: old(self).cost, given: attached }),
            caller == old(self).buyer && attached == old(self).cost && old(self).phase is Funded
                ==> r == Err::<(), EscrowError>(EscrowError::AlreadyFunded),
            caller == old(self).buyer && attached == old(self).cost && old(self).phase is Settled
                ==> r == Err::<(), EscrowError>(EscrowError::AlreadySettled),
            r is Ok <==> caller == old(self).buyer && attached == old(self).cost && old(
                self,
            ).phase is Configured,
            r is Ok ==> *final(self) == (Escrow { phase: Phase::Funded, ..*old(self) }),
            r is Err ==> *final(self) == *old(self),
            old(self).wf() ==> final(self).wf(),
    {
        if caller != self.buyer {
            return Err(EscrowError::UnauthorizedCaller);
        }
        if attached != self.cost {
            return Err(EscrowError::IncorrectAmount { expected: self.cost, given: attached });
        }
        match self.phase {
            Phase::Configured => {
                self.phase = Phase::Funded;
                Ok(())
            },
            Phase::Funded => Err(EscrowError::AlreadyFunded),
            Phase::Settled => Err(EscrowError::AlreadySettled),
        }
    }

    /// Settles the agreement. `caller` is the identity behind the current
    /// call; only `unlock_authorizer` (the buyer — see there) may settle.
    /// On success exactly two transfer instructions come back, in order: the
    /// minimum fee to the notary, then the remainder `cost - MINIMUM_FEE` to
    /// the buyer if `cancel` (refund minus fee) or to the seller otherwise
    /// (payout minus fee); the two amounts sum to `cost`. The phase becomes
    /// `Settled`, so a second call is rejected rather than paying twice.
    ///
    /// An unfunded escrow cannot be settled, and a stored cost below the
    /// minimum fee — impossible through the initializer — is rejected as an
    /// invariant violation instead of wrapping the subtraction around. On
    /// rejection the machine is unchanged and no instruction is issued.
    pub fn unlock(&mut self, caller: Identity, cancel: bool) -> (r: Result<
        Vec<Transfer>,
        EscrowError,
    >)
        ensures
            caller != old(self).unlock_authorizer() ==> r == Err::<Vec<Transfer>, EscrowError>(
                EscrowError::UnauthorizedCaller,
            ),
            caller == old(self).unlock_authorizer() && old(self).phase is Configured ==> r
                == Err::<Vec<Transfer>, EscrowError>(EscrowError::NotFunded),
            caller == old(self).unlock_authorizer() && old(self).phase is Settled ==> r == Err::<
                Vec<Transfer>,
                EscrowError,
            >(EscrowError::AlreadySettled),
            caller == old(self).unlock_authorizer() && old(self).phase is Funded && old(self).cost
                < MINIMUM_FEE ==> r == Err::<Vec<Transfer>, EscrowError>(
                EscrowError::ArithmeticInvariant,
            ),
            r is Ok <==> caller == old(self).unlock_authorizer() && old(self).phase is Funded
                && old(self).cost >= MINIMUM_FEE,
            r matches Ok(ts) ==> {
                &&& ts@.len() == 2
                &&& ts@[0].to == old(self).notary
                &&& ts@[0].amount == MINIMUM_FEE
                &&& ts@[1].to == (if cancel {
                    old(self).buyer
                } else {
                    old(self).seller
                })
                &&& ts@[1].amount == old(self).cost - MINIMUM_FEE
                &&& ts@[0].amount + ts@[1].amount == old(self).cost
            },
            r is Ok ==> *final(self) == (Escrow { phase: Phase::Settled, ..*old(self) }),
            r is Err ==> *final(self) == *old(self),
            old(self).wf() ==> final(self).wf(),
    {
        if caller != self.buyer {
            return Err(EscrowError::UnauthorizedCaller);
        }
        match self.phase {
            Phase::Configured => Err(EscrowError::NotFunded),
            Phase::Settled => Err(EscrowError::AlreadySettled),
            Phase::Funded => {
                if self.cost < MINIMUM_FEE {
                    return Err(EscrowError::ArithmeticInvariant);
                }
                let remainder = self.cost - MINIMUM_FEE;
                let recipient = if cancel {
                    self.buyer
                } else {
                    self.seller
                };
                let mut ts: Vec<Transfer> = Vec::new();
                ts.push(Transfer { to: self.notary, amount: MINIMUM_FEE });
                ts.push(Transfer { to: recipient, amount: remainder });
                self.phase = Phase::Settled;
                Ok(ts)
            },
        }
    }
}

} // verus!
