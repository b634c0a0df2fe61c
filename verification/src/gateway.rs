//! The settlement gateway.
//!
//! External asset registries are reachable only by one-way, unconfirmed
//! messages. A transition of the auction or of the factory never sends
//! anything itself: it returns the exact sequence of [`Dispatch`] values it
//! owes, already committed to its own state, and the host issues them
//! afterwards, fire-and-forget. Nothing here waits for, inspects or retries
//! a remote outcome; at most one message leaves per dispatch.

use vstd::prelude::*;

use crate::account::AccountId;

verus! {

/// What one outbound transfer message says, over plain values.
pub ghost enum DispatchView {
    /// Move `amount` of the native asset to `to`.
    Native { to: Seq<u8>, amount: u128 },
    /// Ask the fungible-asset registry `registry` to move `amount` to `to`.
    Fungible { registry: Seq<u8>, to: Seq<u8>, amount: u128 },
    /// Ask the non-fungible-asset registry `registry` to hand the collectible
    /// `token_id` to `to`.
    Collectible { registry: Seq<u8>, to: Seq<u8>, token_id: Seq<char> },
}

/// A one-way, unconfirmed outbound transfer, ready for the host to send.
#[derive(Debug)]
pub enum Dispatch {
    Native { to: AccountId, amount: u128 },
    Fungible { registry: AccountId, to: AccountId, amount: u128 },
    Collectible { registry: AccountId, to: AccountId, token_id: String },
}

impl View for Dispatch {
    type V = DispatchView;

    open spec fn view(&self) -> DispatchView {
        match self {
            Dispatch::Native { to, amount } => DispatchView::Native { to: to@, amount: *amount },
            Dispatch::Fungible { registry, to, amount } => DispatchView::Fungible {
                registry: registry@,
                to: to@,
                amount: *amount,
            },
            Dispatch::Collectible { registry, to, token_id } => DispatchView::Collectible {
                registry: registry@,
                to: to@,
                token_id: token_id@,
            },
        }
    }
}

/// The views of a whole batch of dispatches, in the order they are issued.
pub open spec fn dispatches_view(s: Seq<Dispatch>) -> Seq<DispatchView> {
    s.map_values(|d: Dispatch| d@)
}

/// One native-asset transfer message.
pub fn send_native(to: AccountId, amount: u128) -> (d: Dispatch)
    ensures
        d@ == (DispatchView::Native { to: to@, amount }),
{
    Dispatch::Native { to, amount }
}

/// One fungible-asset transfer message through `registry`.
pub fn send_fungible(registry: AccountId, to: AccountId, amount: u128) -> (d: Dispatch)
    ensures
        d@ == (DispatchView::Fungible { registry: registry@, to: to@, amount }),
{
    Dispatch::Fungible { registry, to, amount }
}

/// One collectible transfer message through `registry`.
pub fn send_collectible(registry: AccountId, to: AccountId, token_id: String) -> (d: Dispatch)
    ensures
        d@ == (DispatchView::Collectible { registry: registry@, to: to@, token_id: token_id@ }),
{
    Dispatch::Collectible { registry, to, token_id }
}

} // verus!
