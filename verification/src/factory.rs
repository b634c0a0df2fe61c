//! The factory.
//!
//! A factory [`Contract`] holds one read-only blob: the packaged code that
//! every new auction instance runs. Deploying is not atomic — the batched
//! creation (create the child account, move the deposit, install the code,
//! call its initialization entry point) is dispatched as one unit whose
//! outcome arrives only later, as a [`DeployOutcome`] token handed to a
//! separate callback operation. [`Contract::deploy_new_auction`] therefore
//! only validates and returns the [`DeployPlan`] continuation record; the
//! callback runs the one compensating path: on failure the full attached
//! deposit goes back to the original caller.

use vstd::prelude::*;

use crate::account::{valid_account_seq, AccountId};
use crate::auction::TokenId;
use crate::errors::AuctionError;
use crate::gateway::{dispatches_view, send_native, Dispatch, DispatchView};

verus! {

/// The price of one byte of stored code, in the smallest native-asset unit.
pub const NEAR_PER_STORAGE: u128 = 10000000000000000000;

/// The least deposit that covers storing `code_len` bytes of packaged code.
pub open spec fn min_deposit(code_len: nat) -> nat {
    code_len * (NEAR_PER_STORAGE as nat)
}

/// The child identity derived from a deployment name: the name, the
/// separator reserved for hierarchical addressing, then the factory's own
/// identity.
pub open spec fn child_account_seq(name: Seq<u8>, parent: Seq<u8>) -> Seq<u8> {
    name + seq![46u8] + parent
}

/// The configuration handed to a new auction instance's initialization
/// entry point. The factory provisions the full variant: fungible-asset
/// bidding with a collectible payout.
#[derive(Debug)]
pub struct AuctionInitArgs {
    pub end_time: u64,
    pub auctioneer: AccountId,
    pub ft_contract: AccountId,
    pub nft_contract: AccountId,
    pub token_id: TokenId,
    pub starting_price: u128,
}

pub ghost struct InitArgsView {
    pub end_time: u64,
    pub auctioneer: Seq<u8>,
    pub ft_contract: Seq<u8>,
    pub nft_contract: Seq<u8>,
    pub token_id: Seq<char>,
    pub starting_price: u128,
}

impl View for AuctionInitArgs {
    type V = InitArgsView;

    open spec fn view(&self) -> InitArgsView {
        InitArgsView {
            end_time: self.end_time,
            auctioneer: self.auctioneer@,
            ft_contract: self.ft_contract@,
            nft_contract: self.nft_contract@,
            token_id: self.token_id@,
            starting_price: self.starting_price,
        }
    }
}

/// The continuation record of one deployment attempt: everything the host
/// needs to issue the batched creation, plus where the deposit must go back
/// should the outcome come back failed.
#[derive(Debug)]
pub struct DeployPlan {
    /// The derived child identity the batch creates.
    pub subaccount: AccountId,
    /// The whole attached deposit, moved to the child by the batch.
    pub attached: u128,
    /// The original caller — the refund target of the compensating path.
    pub user: AccountId,
    /// What the child's initialization entry point is called with.
    pub args: AuctionInitArgs,
}

pub ghost struct DeployPlanView {
    pub subaccount: Seq<u8>,
    pub attached: u128,
    pub user: Seq<u8>,
    pub args: InitArgsView,
}

impl View for DeployPlan {
    type V = DeployPlanView;

    open spec fn view(&self) -> DeployPlanView {
        DeployPlanView {
            subaccount: self.subaccount@,
            attached: self.attached,
            user: self.user@,
            args: self.args@,
        }
    }
}

/// The opaque outcome token of a previously dispatched batched creation,
/// observed only by the callback operation.
#[derive(Clone, Copy, PartialEq, Eq, Structural, Debug)]
pub enum DeployOutcome {
    Succeeded,
    Failed,
}

/// The factory's whole durable state: the packaged code for new auction
/// instances, read-only after initialization and shared by all deployments.
pub struct Contract {
    code: Vec<u8>,
}

impl View for Contract {
    type V = Seq<u8>;

    closed spec fn view(&self) -> Seq<u8> {
        self.code@
    }
}

impl Contract {
    /// Fixes the packaged code that every deployment will install.
    pub fn new(code: Vec<u8>) -> (c: Contract)
        ensures
            c@ == code@,
    {
        Contract { code }
    }

    /// The packaged code.
    pub fn code(&self) -> (r: &Vec<u8>)
        ensures
            r@ == self@,
    {
        &self.code
    }

    /// Validates a deployment request and, if it is acceptable, returns the
    /// continuation record for the host to dispatch as one batched creation.
    /// `current_account` is the factory's own identity, `predecessor` the
    /// caller, `attached` the deposit attached to the call. Both rejections
    /// happen before anything is dispatched, so no compensation is ever
    /// needed for them; the deposit never left the caller's custody.
    pub fn deploy_new_auction(
        &mut self,
        current_account: &AccountId,
        predecessor: &AccountId,
        attached: u128,
        name: Vec<u8>,
        args: AuctionInitArgs,
    ) -> (r: Result<DeployPlan, AuctionError>)
        ensures
            final(self)@ == old(self)@,
            r is Ok <==> valid_account_seq(child_account_seq(name@, current_account@)) && attached
                as nat >= min_deposit(old(self)@.len()),
            !valid_account_seq(child_account_seq(name@, current_account@)) ==> r == Err::<
                DeployPlan,
                AuctionError,
            >(AuctionError::InvalidSubaccountName),
            valid_account_seq(child_account_seq(name@, current_account@)) && (attached as nat)
                < min_deposit(old(self)@.len()) ==> r == Err::<DeployPlan, AuctionError>(
                AuctionError::InsufficientDeposit,
            ),
            r matches Ok(plan) ==> plan@ == (DeployPlanView {
                subaccount: child_account_seq(name@, current_account@),
                attached: attached,
                user: predecessor@,
                args: args@,
            }),
    {
        // Derive the child identity and hold it to the account grammar.
        let ghost name_view = name@;
        let mut child_bytes = name;
        child_bytes.push(46);
        let parent = current_account.as_bytes();
        let n = parent.len();
        let mut i: usize = 0;
        while i < n
            invariant
                0 <= i <= n,
                n == parent@.len(),
                child_bytes@ == child_account_seq(name_view, parent@.take(i as int)),
            decreases n - i,
        {
            child_bytes.push(parent[i]);
            i = i + 1;
        }
        proof {
            assert(parent@.take(n as int) =~= parent@);
        }
        let subaccount = match AccountId::new(child_bytes) {
            Option::Some(a) => a,
            Option::None => {
                return Err(AuctionError::InvalidSubaccountName);
            },
        };
        // The storage cost of the packaged code, at the fixed per-byte price.
        let code_len = self.code.len();
        proof {
            assert((code_len as nat) * (NEAR_PER_STORAGE as nat) <= (u64::MAX as nat) * (
            NEAR_PER_STORAGE as nat)) by (nonlinear_arith)
                requires
                    code_len as nat <= u64::MAX as nat,
            ;
        }
        let minimum_needed = (code_len as u128) * NEAR_PER_STORAGE;
        if attached < minimum_needed {
            return Err(AuctionError::InsufficientDeposit);
        }
        Ok(DeployPlan { subaccount, attached, user: predecessor.clone(), args })
    }

    /// Observes the outcome of a previously dispatched deployment, strictly
    /// from the outcome token. Success is only recorded; failure triggers the
    /// compensating transaction: the full attached deposit goes back to the
    /// original caller, exactly once.
    pub fn create_factory_subaccount_and_deploy_callback(
        &mut self,
        _account: AccountId,
        user: AccountId,
        attached: u128,
        outcome: DeployOutcome,
    ) -> (r: (bool, Vec<Dispatch>))
        ensures
            final(self)@ == old(self)@,
            r.0 == (outcome is Succeeded),
            outcome is Succeeded ==> dispatches_view(r.1@) == Seq::<DispatchView>::empty(),
            outcome is Failed ==> dispatches_view(r.1@) == seq![
                DispatchView::Native { to: user@, amount: attached },
            ],
    {
        let mut out: Vec<Dispatch> = Vec::new();
        match outcome {
            DeployOutcome::Succeeded => {
                proof {
                    assert(dispatches_view(out@) =~= Seq::<DispatchView>::empty());
                }
                (true, out)
            },
            DeployOutcome::Failed => {
                out.push(send_native(user, attached));
                proof {
                    assert(dispatches_view(out@) =~= seq![
                        DispatchView::Native { to: user@, amount: attached },
                    ]);
                }
                (false, out)
            },
        }
    }
}

} // verus!
