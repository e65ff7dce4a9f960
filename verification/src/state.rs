//! Listing lifecycle state machine.
//!
//! A listing moves through `Create -> AwaitNft -> Active` and from `Active`
//! into one of the terminal states `Filled`, `Cancelled` or `Expired` (a bid
//! re-enters `Active`). `Create` and `AwaitNft` are pre-escrow placeholder
//! states: events targeting them are skipped by every persistence path, which
//! is why both paths share the classification function below.

use vstd::prelude::*;

verus! {

/// Lifecycle state of a marketplace listing (direct sell, direct buy, auction).
#[derive(Clone, Copy, Debug, PartialEq, Eq, Structural)]
pub enum ListingState {
    Create,
    AwaitNft,
    Active,
    Filled,
    Cancelled,
    Expired,
}

/// Target state denoted by the raw `to` field of a state-changed event, or
/// `None` for a byte outside the encoding.
pub open spec fn spec_state_of(to: u8) -> Option<ListingState> {
    if to == 0 {
        Some(ListingState::Create)
    } else if to == 1 {
        Some(ListingState::AwaitNft)
    } else if to == 2 {
        Some(ListingState::Active)
    } else if to == 3 {
        Some(ListingState::Filled)
    } else if to == 4 {
        Some(ListingState::Cancelled)
    } else if to == 5 {
        Some(ListingState::Expired)
    } else {
        None
    }
}

/// Decode the raw `to` byte of a state-changed event.
pub fn state_from_raw(to: u8) -> (r: Option<ListingState>)
    ensures
        r == spec_state_of(to),
{
    if to == 0 {
        Some(ListingState::Create)
    } else if to == 1 {
        Some(ListingState::AwaitNft)
    } else if to == 2 {
        Some(ListingState::Active)
    } else if to == 3 {
        Some(ListingState::Filled)
    } else if to == 4 {
        Some(ListingState::Cancelled)
    } else if to == 5 {
        Some(ListingState::Expired)
    } else {
        None
    }
}

/// Pre-escrow states are never persisted to current state and never archived.
pub open spec fn spec_is_pre_escrow(s: ListingState) -> bool {
    s == ListingState::Create || s == ListingState::AwaitNft
}

/// Shared skip classification for the entity path and the raw-envelope path.
pub fn is_pre_escrow(s: ListingState) -> (r: bool)
    ensures
        r == spec_is_pre_escrow(s),
{
    matches!(s, ListingState::Create | ListingState::AwaitNft)
}

} // verus!
