//! A verified model of a price-oracle bridge component.
//!
//! The bridge pulls a price reading from one fixed external price oracle and
//! reflects it into locally owned ledger state, in one of two deployment
//! variants: overwriting a tracked record in place, or minting new units of a
//! proxy asset sized to the reading.  The oracle call and the ledger's
//! resource subsystem live at the edge of the system; this crate verifies the
//! synchronization logic itself, over plain models of the ledger values: a
//! fixed-point decimal, an asset container, a mintable supply, and an
//! authorization credential.

use vstd::prelude::*;

pub mod mint;
pub mod price;
pub mod record;

verus! {

/// Why a synchronization step was rejected.  A rejected step leaves all owned
/// state exactly as it was before the call.
#[derive(Clone, Copy, Debug, PartialEq, Eq, Structural)]
pub enum SyncError {
    /// The oracle reported a negative price to the minting path.
    NegativePrice,
    /// Minting the reported price would overflow the total issued supply.
    SupplyOverflow,
    /// A record mutation was attempted with a credential other than the one
    /// the record was constructed with.
    Unauthorized,
}

} // verus!
