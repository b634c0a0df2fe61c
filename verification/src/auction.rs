//! The auction state machine.
//!
//! One [`Contract`] owns one auction: its immutable configuration and its
//! single mutable record, the current highest bid plus the `claimed` flag.
//! Each operation takes the transaction context (the host timestamp, the
//! caller, the attached or transferred amount) as plain values, applies one
//! atomic transition, and returns the dispatches the host must issue after
//! the transition is committed — so a later read of the record never races
//! against a not-yet-issued refund.
//!
//! The whole behaviour of every operation is the spec-level transition
//! ([`spec_bid`], [`spec_ft_on_transfer`], [`spec_claim`]) applied to the
//! contract's view. Timing policy: the auction is open strictly before
//! `end_time` and ended from `end_time` on; bids are accepted only while
//! open, claims only once ended. A new bid must be strictly greater than the
//! incumbent amount — ties favour the incumbent. Settlement policy: the
//! proceeds leg is issued before the collectible leg, and both are skipped
//! when the highest bidder is still the sentinel (the auction's own
//! identity), since no external funds were ever escrowed.

use vstd::prelude::*;

use crate::account::AccountId;
use crate::errors::AuctionError;
use crate::gateway::{dispatches_view, send_collectible, send_fungible, send_native};
use crate::gateway::{Dispatch, DispatchView};

verus! {

/// A collectible identifier within its registry.
pub type TokenId = String;

/// The asset kind the auction is denominated in.
#[derive(Debug)]
pub enum AssetKind {
    /// Bids attach native-asset value to the call itself.
    Native,
    /// Bids arrive as transfer notifications from this fungible-asset
    /// registry; a notification from any other origin is rejected.
    Fungible { ft_contract: AccountId },
}

pub ghost enum AssetKindView {
    Native,
    Fungible { registry: Seq<u8> },
}

impl View for AssetKind {
    type V = AssetKindView;

    open spec fn view(&self) -> AssetKindView {
        match self {
            AssetKind::Native => AssetKindView::Native,
            AssetKind::Fungible { ft_contract } => AssetKindView::Fungible {
                registry: ft_contract@,
            },
        }
    }
}

/// Whether a collectible is paid out to the winner on claim.
#[derive(Debug)]
pub enum Collectible {
    NoCollectible,
    WithCollectible { nft_contract: AccountId, token_id: TokenId },
}

pub ghost enum CollectibleView {
    NoCollectible,
    WithCollectible { registry: Seq<u8>, token_id: Seq<char> },
}

impl View for Collectible {
    type V = CollectibleView;

    open spec fn view(&self) -> CollectibleView {
        match self {
            Collectible::NoCollectible => CollectibleView::NoCollectible,
            Collectible::WithCollectible { nft_contract, token_id } => (
            CollectibleView::WithCollectible {
                registry: nft_contract@,
                token_id: token_id@,
            }),
        }
    }
}

/// The single current highest bid: who supplied the current amount, and how
/// much it is.
#[derive(Debug)]
pub struct Bid {
    pub bidder: AccountId,
    pub bid: u128,
}

pub ghost struct BidView {
    pub bidder: Seq<u8>,
    pub amount: u128,
}

impl View for Bid {
    type V = BidView;

    open spec fn view(&self) -> BidView {
        BidView { bidder: self.bidder@, amount: self.bid }
    }
}

impl Clone for Bid {
    fn clone(&self) -> (r: Self)
        ensures
            r@ == self@,
    {
        Bid { bidder: self.bidder.clone(), bid: self.bid }
    }
}

/// One auction instance's whole durable state, over plain values.
pub ghost struct AuctionView {
    /// The auction's own identity; also the sentinel bidder before any
    /// external bid arrives.
    pub account: Seq<u8>,
    pub highest_bid: BidView,
    /// The deadline, a monotonic logical timestamp.
    pub end_time: u64,
    /// The beneficiary of the proceeds.
    pub auctioneer: Seq<u8>,
    pub claimed: bool,
    pub asset: AssetKindView,
    pub collectible: CollectibleView,
}

/// One auction instance. The configuration never changes after [`Contract::init`];
/// `bid` replaces the highest bid and `claim` flips `claimed` false-to-true
/// exactly once.
pub struct Contract {
    account: AccountId,
    highest_bid: Bid,
    auction_end_time: u64,
    auctioneer: AccountId,
    claimed: bool,
    asset: AssetKind,
    collectible: Collectible,
}

impl View for Contract {
    type V = AuctionView;

    closed spec fn view(&self) -> AuctionView {
        AuctionView {
            account: self.account@,
            highest_bid: self.highest_bid@,
            end_time: self.auction_end_time,
            auctioneer: self.auctioneer@,
            claimed: self.claimed,
            asset: self.asset@,
            collectible: self.collectible@,
        }
    }
}

/// The state after a transition together with what the operation returned:
/// either the dispatches now owed, or the reason the operation was rejected
/// with nothing changed and nothing owed.
pub ghost struct Step {
    pub state: AuctionView,
    pub result: Result<Seq<DispatchView>, AuctionError>,
}

/// `s` with a new highest bid and everything else unchanged.
pub open spec fn with_highest(s: AuctionView, bidder: Seq<u8>, amount: u128) -> AuctionView {
    AuctionView { highest_bid: BidView { bidder, amount }, ..s }
}

/// The message that returns the incumbent's funds, in the auction's asset
/// kind.
pub open spec fn refund_dispatch(s: AuctionView) -> DispatchView {
    match s.asset {
        AssetKindView::Native => DispatchView::Native {
            to: s.highest_bid.bidder,
            amount: s.highest_bid.amount,
        },
        AssetKindView::Fungible { registry } => DispatchView::Fungible {
            registry,
            to: s.highest_bid.bidder,
            amount: s.highest_bid.amount,
        },
    }
}

/// What a successful bid owes the displaced incumbent: exactly one return of
/// the incumbent's own amount, or nothing while the incumbent is still the
/// sentinel (no external funds were escrowed yet).
pub open spec fn refund_dispatches(s: AuctionView) -> Seq<DispatchView> {
    if s.highest_bid.bidder == s.account {
        seq![]
    } else {
        seq![refund_dispatch(s)]
    }
}

/// The transition of a native-asset bid.
pub open spec fn spec_bid(s: AuctionView, now: u64, bidder: Seq<u8>, amount: u128) -> Step {
    if now >= s.end_time {
        Step { state: s, result: Err(AuctionError::AuctionEnded) }
    } else if !(s.asset is Native) {
        Step { state: s, result: Err(AuctionError::UnsupportedAsset) }
    } else if amount <= s.highest_bid.amount {
        Step { state: s, result: Err(AuctionError::BidTooLow) }
    } else {
        Step { state: with_highest(s, bidder, amount), result: Ok(refund_dispatches(s)) }
    }
}

/// The transition of a fungible-asset transfer notification treated as a bid.
/// `origin` is the registry that sent the notification; `sender` is the party
/// whose tokens it carries.
pub open spec fn spec_ft_on_transfer(
    s: AuctionView,
    now: u64,
    origin: Seq<u8>,
    sender: Seq<u8>,
    amount: u128,
) -> Step {
    if now >= s.end_time {
        Step { state: s, result: Err(AuctionError::AuctionEnded) }
    } else {
        match s.asset {
            AssetKindView::Native => Step { state: s, result: Err(AuctionError::UnsupportedAsset) },
            AssetKindView::Fungible { registry } => {
                if origin != registry {
                    Step { state: s, result: Err(AuctionError::UnsupportedAsset) }
                } else if amount <= s.highest_bid.amount {
                    Step { state: s, result: Err(AuctionError::BidTooLow) }
                } else {
                    Step {
                        state: with_highest(s, sender, amount),
                        result: Ok(refund_dispatches(s)),
                    }
                }
            },
        }
    }
}

/// The proceeds leg of settlement, in the auction's asset kind.
pub open spec fn proceeds_dispatch(s: AuctionView) -> DispatchView {
    match s.asset {
        AssetKindView::Native => DispatchView::Native {
            to: s.auctioneer,
            amount: s.highest_bid.amount,
        },
        AssetKindView::Fungible { registry } => DispatchView::Fungible {
            registry,
            to: s.auctioneer,
            amount: s.highest_bid.amount,
        },
    }
}

/// The collectible leg of settlement, if one is configured.
pub open spec fn collectible_dispatches(s: AuctionView) -> Seq<DispatchView> {
    match s.collectible {
        CollectibleView::NoCollectible => seq![],
        CollectibleView::WithCollectible { registry, token_id } => seq![
            DispatchView::Collectible { registry, to: s.highest_bid.bidder, token_id },
        ],
    }
}

/// What a successful claim owes: the proceeds to the beneficiary, then the
/// collectible to the winner; both skipped when no external bid ever arrived.
pub open spec fn payout_dispatches(s: AuctionView) -> Seq<DispatchView> {
    if s.highest_bid.bidder == s.account {
        seq![]
    } else {
        seq![proceeds_dispatch(s)] + collectible_dispatches(s)
    }
}

/// The transition of a claim.
pub open spec fn spec_claim(s: AuctionView, now: u64) -> Step {
    if now < s.end_time {
        Step { state: s, result: Err(AuctionError::NotEnded) }
    } else if s.claimed {
        Step { state: s, result: Err(AuctionError::AlreadyClaimed) }
    } else {
        Step {
            state: AuctionView { claimed: true, ..s },
            result: Ok(payout_dispatches(s)),
        }
    }
}

/// What an operation's runtime result looks like at the spec level.
pub open spec fn step_result_view(r: Result<Vec<Dispatch>, AuctionError>) -> Result<
    Seq<DispatchView>,
    AuctionError,
> {
    match r {
        Ok(v) => Ok(dispatches_view(v@)),
        Err(e) => Err(e),
    }
}

impl Contract {
    /// Creates the record of a fresh auction. `account` is the auction's own
    /// identity; the highest bid starts at the sentinel (`account`,
    /// `starting_price`), meaning no external bidder yet.
    pub fn init(
        account: AccountId,
        end_time: u64,
        auctioneer: AccountId,
        asset: AssetKind,
        collectible: Collectible,
        starting_price: u128,
    ) -> (c: Contract)
        ensures
            c@ == (AuctionView {
                account: account@,
                highest_bid: BidView { bidder: account@, amount: starting_price },
                end_time: end_time,
                auctioneer: auctioneer@,
                claimed: false,
                asset: asset@,
                collectible: collectible@,
            }),
    {
        let sentinel = account.clone();
        Contract {
            account,
            highest_bid: Bid { bidder: sentinel, bid: starting_price },
            auction_end_time: end_time,
            auctioneer,
            claimed: false,
            asset,
            collectible,
        }
    }

    /// Rebuilds an auction record as reloaded from persistent storage. The
    /// host persists the whole record between operations; this puts the
    /// reloaded plain values back into one.
    pub fn from_record(
        account: AccountId,
        highest_bid: Bid,
        end_time: u64,
        auctioneer: AccountId,
        claimed: bool,
        asset: AssetKind,
        collectible: Collectible,
    ) -> (c: Contract)
        ensures
            c@ == (AuctionView {
                account: account@,
                highest_bid: highest_bid@,
                end_time: end_time,
                auctioneer: auctioneer@,
                claimed: claimed,
                asset: asset@,
                collectible: collectible@,
            }),
    {
        Contract {
            account,
            highest_bid,
            auction_end_time: end_time,
            auctioneer,
            claimed,
            asset,
            collectible,
        }
    }

    /// A native-asset bid. `now` is the transaction timestamp, `bidder` the
    /// caller, `amount` the native value attached to the call. On success the
    /// new highest bid is committed and the displaced incumbent's refund is
    /// returned for the host to dispatch; every rejection leaves the record
    /// untouched and owes nothing.
    pub fn bid(&mut self, now: u64, bidder: AccountId, amount: u128) -> (r: Result<
        Vec<Dispatch>,
        AuctionError,
    >)
        ensures
            final(self)@ == spec_bid(old(self)@, now, bidder@, amount).state,
            step_result_view(r) == spec_bid(old(self)@, now, bidder@, amount).result,
            r is Ok <==> now < old(self)@.end_time && old(self)@.asset is Native && amount > old(
                self,
            )@.highest_bid.amount,
            r is Err ==> final(self)@ == old(self)@,
            now >= old(self)@.end_time ==> r == Err::<Vec<Dispatch>, AuctionError>(
                AuctionError::AuctionEnded,
            ),
            now < old(self)@.end_time && !(old(self)@.asset is Native) ==> r == Err::<
                Vec<Dispatch>,
                AuctionError,
            >(AuctionError::UnsupportedAsset),
            now < old(self)@.end_time && old(self)@.asset is Native && amount <= old(
                self,
            )@.highest_bid.amount ==> r == Err::<Vec<Dispatch>, AuctionError>(
                AuctionError::BidTooLow,
            ),
            r is Ok ==> final(self)@ == with_highest(old(self)@, bidder@, amount),
            final(self)@.highest_bid.amount >= old(self)@.highest_bid.amount,
    {
        if now >= self.auction_end_time {
            return Err(AuctionError::AuctionEnded);
        }
        match &self.asset {
            AssetKind::Fungible { .. } => {
                return Err(AuctionError::UnsupportedAsset);
            },
            AssetKind::Native => {},
        }
        if amount <= self.highest_bid.bid {
            return Err(AuctionError::BidTooLow);
        }
        // Commit the new highest bid before the refund is even formed, so a
        // reentrant read during the refund's execution sees the new bid.
        let prev = self.highest_bid.clone();
        self.highest_bid = Bid { bidder, bid: amount };
        let mut out: Vec<Dispatch> = Vec::new();
        if !(prev.bidder == self.account) {
            out.push(send_native(prev.bidder, prev.bid));
        }
        proof {
            assert(dispatches_view(out@) =~= refund_dispatches(old(self)@));
        }
        Ok(out)
    }

    /// A bid carried by a fungible-asset transfer notification. `predecessor`
    /// is the registry that delivered the notification — only the configured
    /// one is accepted, since any other origin never escrowed anything here.
    /// An `Err` tells the host to report the whole amount as non-accepted;
    /// on `Ok` the full amount is escrowed and the incumbent's refund is owed.
    pub fn ft_on_transfer(
        &mut self,
        now: u64,
        predecessor: AccountId,
        sender_id: AccountId,
        amount: u128,
        _msg: String,
    ) -> (r: Result<Vec<Dispatch>, AuctionError>)
        ensures
            final(self)@ == spec_ft_on_transfer(
                old(self)@,
                now,
                predecessor@,
                sender_id@,
                amount,
            ).state,
            step_result_view(r) == spec_ft_on_transfer(
                old(self)@,
                now,
                predecessor@,
                sender_id@,
                amount,
            ).result,
            r is Ok <==> now < old(self)@.end_time && (old(self)@.asset matches
            AssetKindView::Fungible { registry } && registry == predecessor@) && amount > old(
                self,
            )@.highest_bid.amount,
            r is Err ==> final(self)@ == old(self)@,
            now >= old(self)@.end_time ==> r == Err::<Vec<Dispatch>, AuctionError>(
                AuctionError::AuctionEnded,
            ),
            now < old(self)@.end_time && !(old(self)@.asset matches AssetKindView::Fungible {
                registry,
            } && registry == predecessor@) ==> r == Err::<Vec<Dispatch>, AuctionError>(
                AuctionError::UnsupportedAsset,
            ),
            r is Ok ==> final(self)@ == with_highest(old(self)@, sender_id@, amount),
            final(self)@.highest_bid.amount >= old(self)@.highest_bid.amount,
    {
        if now >= self.auction_end_time {
            return Err(AuctionError::AuctionEnded);
        }
        let registry = match &self.asset {
            AssetKind::Native => {
                return Err(AuctionError::UnsupportedAsset);
            },
            AssetKind::Fungible { ft_contract } => ft_contract.clone(),
        };
        if !(predecessor == registry) {
            return Err(AuctionError::UnsupportedAsset);
        }
        if amount <= self.highest_bid.bid {
            return Err(AuctionError::BidTooLow);
        }
        // Commit first, then form the refund (same ordering rule as `bid`).
        let prev = self.highest_bid.clone();
        self.highest_bid = Bid { bidder: sender_id, bid: amount };
        let mut out: Vec<Dispatch> = Vec::new();
        if !(prev.bidder == self.account) {
            out.push(send_fungible(registry, prev.bidder, prev.bid));
        }
        proof {
            assert(dispatches_view(out@) =~= refund_dispatches(old(self)@));
        }
        Ok(out)
    }

    /// Settlement. From the deadline on, the first claim flips `claimed` —
    /// the authoritative record that settlement happened — and returns the
    /// payout dispatches; every later claim is rejected with nothing changed
    /// and nothing paid again.
    pub fn claim(&mut self, now: u64) -> (r: Result<Vec<Dispatch>, AuctionError>)
        ensures
            final(self)@ == spec_claim(old(self)@, now).state,
            step_result_view(r) == spec_claim(old(self)@, now).result,
            r is Ok <==> now >= old(self)@.end_time && !old(self)@.claimed,
            r is Err ==> final(self)@ == old(self)@,
            now < old(self)@.end_time ==> r == Err::<Vec<Dispatch>, AuctionError>(
                AuctionError::NotEnded,
            ),
            now >= old(self)@.end_time && old(self)@.claimed ==> r == Err::<
                Vec<Dispatch>,
                AuctionError,
            >(AuctionError::AlreadyClaimed),
            r is Ok ==> final(self)@ == (AuctionView { claimed: true, ..old(self)@ }),
            final(self)@.highest_bid == old(self)@.highest_bid,
    {
        if now < self.auction_end_time {
            return Err(AuctionError::NotEnded);
        }
        if self.claimed {
            return Err(AuctionError::AlreadyClaimed);
        }
        // The flag is committed before any payout is formed: it, not remote
        // confirmation, is the record that settlement was triggered.
        self.claimed = true;
        let mut out: Vec<Dispatch> = Vec::new();
        if !(self.highest_bid.bidder == self.account) {
            match &self.asset {
                AssetKind::Native => {
                    out.push(send_native(self.auctioneer.clone(), self.highest_bid.bid));
                },
                AssetKind::Fungible { ft_contract } => {
                    out.push(
                        send_fungible(
                            ft_contract.clone(),
                            self.auctioneer.clone(),
                            self.highest_bid.bid,
                        ),
                    );
                },
            }
            match &self.collectible {
                Collectible::NoCollectible => {},
                Collectible::WithCollectible { nft_contract, token_id } => {
                    out.push(
                        send_collectible(
                            nft_contract.clone(),
                            self.highest_bid.bidder.clone(),
                            token_id.clone(),
                        ),
                    );
                },
            }
        }
        proof {
            assert(dispatches_view(out@) =~= payout_dispatches(old(self)@));
        }
        Ok(out)
    }

    /// The current highest bid.
    pub fn get_highest_bid(&self) -> (r: Bid)
        ensures
            r@ == self@.highest_bid,
    {
        self.highest_bid.clone()
    }

    /// The deadline.
    pub fn get_auction_end_time(&self) -> (r: u64)
        ensures
            r == self@.end_time,
    {
        self.auction_end_time
    }

    /// The whole record, read-only.
    pub fn get_auction_info(&self) -> (r: &Contract)
        ensures
            r == self,
    {
        self
    }

    /// The auction's own identity.
    pub fn account(&self) -> (r: &AccountId)
        ensures
            r@ == self@.account,
    {
        &self.account
    }

    /// The beneficiary of the proceeds.
    pub fn auctioneer(&self) -> (r: &AccountId)
        ensures
            r@ == self@.auctioneer,
    {
        &self.auctioneer
    }

    /// Whether settlement has been triggered.
    pub fn claimed(&self) -> (r: bool)
        ensures
            r == self@.claimed,
    {
        self.claimed
    }

    /// The asset kind the auction is denominated in.
    pub fn asset(&self) -> (r: &AssetKind)
        ensures
            r@ == self@.asset,
    {
        &self.asset
    }

    /// The collectible configuration.
    pub fn collectible(&self) -> (r: &Collectible)
        ensures
            r@ == self@.collectible,
    {
        &self.collectible
    }
}

} // verus!
