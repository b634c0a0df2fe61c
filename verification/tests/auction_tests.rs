use auction::account::AccountId;
use auction::auction::{AssetKind, Collectible, Contract};
use auction::errors::AuctionError;
use auction::gateway::Dispatch;

fn acct(s: &str) -> AccountId {
    AccountId::new(s.as_bytes().to_vec()).unwrap()
}

fn native_contract(end_time: u64) -> Contract {
    Contract::init(
        acct("contract.near"),
        end_time,
        acct("auctioneer.near"),
        AssetKind::Native,
        Collectible::NoCollectible,
        0,
    )
}

fn assert_native(d: &Dispatch, to: &str, amount: u128) {
    match d {
        Dispatch::Native { to: t, amount: a } => {
            assert_eq!(t, &acct(to));
            assert_eq!(*a, amount);
        }
        _ => panic!("expected a native dispatch"),
    }
}

fn assert_fungible(d: &Dispatch, registry: &str, to: &str, amount: u128) {
    match d {
        Dispatch::Fungible { registry: r, to: t, amount: a } => {
            assert_eq!(r, &acct(registry));
            assert_eq!(t, &acct(to));
            assert_eq!(*a, amount);
        }
        _ => panic!("expected a fungible dispatch"),
    }
}

#[test]
fn init_contract() {
    let end_time: u64 = 1000;
    let alice = acct("alice.near");
    let nft_contract = acct("nft.near");
    let token_id: String = "1".to_string();
    let contract = Contract::init(
        acct("contract.near"),
        end_time,
        alice.clone(),
        AssetKind::Native,
        Collectible::WithCollectible { nft_contract: nft_contract.clone(), token_id: token_id.clone() },
        1,
    );

    let default_bid = contract.get_highest_bid();
    assert_eq!(default_bid.bidder, acct("contract.near"));
    assert_eq!(default_bid.bid, 1);

    let auction_info = contract.get_auction_info();
    assert_eq!(auction_info.get_auction_end_time(), end_time);
    assert_eq!(auction_info.account(), &acct("contract.near"));
    assert_eq!(auction_info.auctioneer(), &alice);
    assert!(matches!(auction_info.asset(), AssetKind::Native));
    match auction_info.collectible() {
        Collectible::WithCollectible { nft_contract: n, token_id: t } => {
            assert_eq!(n, &nft_contract);
            assert_eq!(t, &token_id);
        }
        Collectible::NoCollectible => panic!("expected a collectible"),
    }
    assert_eq!(auction_info.claimed(), false);
}

#[test]
fn scenario_native_auction() {
    // Deadline one minute ahead; the highest bid starts at the sentinel
    // (the auction itself, 0 units).
    let now: u64 = 1_000_000_000;
    let end_time = now + 60;
    let nft = acct("nft-contract.near");
    let mut c = Contract::init(
        acct("contract.near"),
        end_time,
        acct("auctioneer.near"),
        AssetKind::Native,
        Collectible::WithCollectible { nft_contract: nft.clone(), token_id: "1".to_string() },
        0,
    );

    // Bidder A bids 1 unit: accepted, no refund (the incumbent is the sentinel).
    let r = c.bid(now + 1, acct("alice.near"), 1).unwrap();
    assert_eq!(r.len(), 0);
    assert_eq!(c.get_highest_bid().bidder, acct("alice.near"));
    assert_eq!(c.get_highest_bid().bid, 1);

    // Bidder B bids 2 units: accepted, A's 1 unit goes back.
    let r = c.bid(now + 2, acct("bob.near"), 2).unwrap();
    assert_eq!(r.len(), 1);
    assert_native(&r[0], "alice.near", 1);
    assert_eq!(c.get_highest_bid().bidder, acct("bob.near"));
    assert_eq!(c.get_highest_bid().bid, 2);

    // A bids 1 unit again: rejected, nothing changes.
    let e = c.bid(now + 3, acct("alice.near"), 1).unwrap_err();
    assert_eq!(e, AuctionError::BidTooLow);
    assert_eq!(c.get_highest_bid().bidder, acct("bob.near"));
    assert_eq!(c.get_highest_bid().bid, 2);

    // After the deadline the claim settles both legs: the proceeds to the
    // auctioneer, the collectible to the winner.
    let r = c.claim(end_time).unwrap();
    assert!(c.claimed());
    assert_eq!(r.len(), 2);
    assert_native(&r[0], "auctioneer.near", 2);
    match &r[1] {
        Dispatch::Collectible { registry, to, token_id } => {
            assert_eq!(registry, &nft);
            assert_eq!(to, &acct("bob.near"));
            assert_eq!(token_id, "1");
        }
        _ => panic!("expected a collectible dispatch"),
    }

    // A second claim is rejected and pays nothing again.
    let e = c.claim(end_time + 1).unwrap_err();
    assert_eq!(e, AuctionError::AlreadyClaimed);
    assert!(c.claimed());
}

#[test]
fn ascending_bids_refund_each_outbid_bidder() {
    let mut c = native_contract(100);
    let mut dispatches: Vec<Dispatch> = Vec::new();
    dispatches.extend(c.bid(10, acct("a1.near"), 10).unwrap());
    dispatches.extend(c.bid(20, acct("a2.near"), 20).unwrap());
    dispatches.extend(c.bid(30, acct("a3.near"), 30).unwrap());
    dispatches.extend(c.bid(40, acct("a4.near"), 40).unwrap());

    // The most recent call's (bidder, amount) is the record.
    assert_eq!(c.get_highest_bid().bidder, acct("a4.near"));
    assert_eq!(c.get_highest_bid().bid, 40);

    // Exactly one return to each previously-outbid bidder, of its own amount.
    assert_eq!(dispatches.len(), 3);
    assert_native(&dispatches[0], "a1.near", 10);
    assert_native(&dispatches[1], "a2.near", 20);
    assert_native(&dispatches[2], "a3.near", 30);
}

#[test]
fn bid_not_above_incumbent_changes_nothing() {
    let mut c = native_contract(100);
    c.bid(1, acct("alice.near"), 50).unwrap();

    // Equal amount: ties favour the incumbent.
    let e = c.bid(2, acct("bob.near"), 50).unwrap_err();
    assert_eq!(e, AuctionError::BidTooLow);
    // Lower amount.
    let e = c.bid(3, acct("bob.near"), 49).unwrap_err();
    assert_eq!(e, AuctionError::BidTooLow);

    assert_eq!(c.get_highest_bid().bidder, acct("alice.near"));
    assert_eq!(c.get_highest_bid().bid, 50);
}

#[test]
fn bid_after_deadline_fails() {
    let mut c = native_contract(100);
    c.bid(1, acct("alice.near"), 5).unwrap();

    // At the deadline and beyond, bids are rejected and nothing changes.
    let e = c.bid(100, acct("bob.near"), 50).unwrap_err();
    assert_eq!(e, AuctionError::AuctionEnded);
    let e = c.bid(101, acct("bob.near"), 50).unwrap_err();
    assert_eq!(e, AuctionError::AuctionEnded);
    assert_eq!(c.get_highest_bid().bidder, acct("alice.near"));
    assert_eq!(c.get_highest_bid().bid, 5);
}

#[test]
fn claim_before_deadline_fails() {
    let mut c = native_contract(100);
    c.bid(1, acct("alice.near"), 5).unwrap();

    let e = c.claim(99).unwrap_err();
    assert_eq!(e, AuctionError::NotEnded);
    assert!(!c.claimed());
}

#[test]
fn claim_without_external_bidder_pays_nothing() {
    let mut c = native_contract(100);
    let r = c.claim(100).unwrap();
    assert!(c.claimed());
    assert_eq!(r.len(), 0);
}

#[test]
fn fungible_auction_flow() {
    let ft = acct("ft-contract.near");
    let mut c = Contract::init(
        acct("contract.near"),
        100,
        acct("auctioneer.near"),
        AssetKind::Fungible { ft_contract: ft.clone() },
        Collectible::NoCollectible,
        1000,
    );

    // Below or at the starting price: rejected.
    let e = c
        .ft_on_transfer(1, ft.clone(), acct("alice.near"), 1000, String::new())
        .unwrap_err();
    assert_eq!(e, AuctionError::BidTooLow);

    // First real bid: accepted, no refund owed to the sentinel.
    let r = c
        .ft_on_transfer(2, ft.clone(), acct("alice.near"), 2000, String::new())
        .unwrap();
    assert_eq!(r.len(), 0);
    assert_eq!(c.get_highest_bid().bidder, acct("alice.near"));

    // Second bid: the displaced bidder's tokens go back through the registry.
    let r = c
        .ft_on_transfer(3, ft.clone(), acct("bob.near"), 3000, String::new())
        .unwrap();
    assert_eq!(r.len(), 1);
    assert_fungible(&r[0], "ft-contract.near", "alice.near", 2000);

    // Settlement pays the proceeds through the registry.
    let r = c.claim(100).unwrap();
    assert_eq!(r.len(), 1);
    assert_fungible(&r[0], "ft-contract.near", "auctioneer.near", 3000);
}

#[test]
fn fungible_bid_from_wrong_registry_fails() {
    let ft = acct("ft-contract.near");
    let mut c = Contract::init(
        acct("contract.near"),
        100,
        acct("auctioneer.near"),
        AssetKind::Fungible { ft_contract: ft },
        Collectible::NoCollectible,
        0,
    );

    let e = c
        .ft_on_transfer(1, acct("rogue.near"), acct("alice.near"), 50, String::new())
        .unwrap_err();
    assert_eq!(e, AuctionError::UnsupportedAsset);
    assert_eq!(c.get_highest_bid().bidder, acct("contract.near"));
    assert_eq!(c.get_highest_bid().bid, 0);
}

#[test]
fn native_bid_on_fungible_auction_fails() {
    let ft = acct("ft-contract.near");
    let mut c = Contract::init(
        acct("contract.near"),
        100,
        acct("auctioneer.near"),
        AssetKind::Fungible { ft_contract: ft },
        Collectible::NoCollectible,
        0,
    );

    let e = c.bid(1, acct("alice.near"), 50).unwrap_err();
    assert_eq!(e, AuctionError::UnsupportedAsset);
}

#[test]
fn fungible_notification_on_native_auction_fails() {
    let mut c = native_contract(100);
    let e = c
        .ft_on_transfer(1, acct("ft-contract.near"), acct("alice.near"), 50, String::new())
        .unwrap_err();
    assert_eq!(e, AuctionError::UnsupportedAsset);
}
