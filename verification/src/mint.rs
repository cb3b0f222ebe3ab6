//! The mint-on-read deployment variant: a mintable fungible supply, the
//! containers in which minted units are handed to the caller, and the client
//! that turns oracle readings into freshly minted proxy units.

use vstd::prelude::*;

use crate::SyncError;
use crate::price::Decimal;
use crate::price::PriceData;

verus! {

/// A container of units of one fungible resource, as handed back to the
/// caller of a synchronization call.  A container can be created empty by
/// anyone; a non-empty container comes only out of a mint.
#[derive(Debug)]
pub struct AssetContainer {
    resource: u64,
    amount: Decimal,
}

impl AssetContainer {
    /// The resource the contained units belong to.
    pub closed spec fn spec_resource(&self) -> u64 {
        self.resource
    }

    /// How many attos of the resource the container holds.
    pub closed spec fn spec_quantity(&self) -> int {
        self.amount.value()
    }

    /// Creates an empty container of the given resource.
    pub fn new(resource: u64) -> (r: AssetContainer)
        ensures
            r.spec_resource() == resource,
            r.spec_quantity() == 0,
    {
        AssetContainer { resource, amount: Decimal::zero() }
    }

    /// Fills a container during a mint.  Crate-internal: callers outside the
    /// crate obtain non-empty containers only through `ProxySupply::mint`.
    pub(crate) fn filled(resource: u64, amount: Decimal) -> (r: AssetContainer)
        ensures
            r.spec_resource() == resource,
            r.spec_quantity() == amount.value(),
    {
        AssetContainer { resource, amount }
    }

    /// The resource the contained units belong to.
    #[verifier::when_used_as_spec(spec_resource)]
    pub fn resource_address(&self) -> (r: u64)
        ensures
            r == self.spec_resource(),
    {
        self.resource
    }

    /// The quantity of contained units.
    pub fn quantity(&self) -> (r: Decimal)
        ensures
            r.value() == self.spec_quantity(),
    {
        self.amount
    }
}

/// The resource-management handle of the proxy asset: it records the resource
/// identity and the total quantity issued so far, and it alone can mint.  The
/// total starts at zero and only grows; no upper bound is enforced beyond the
/// width of the counter.
#[derive(Debug)]
pub struct ProxySupply {
    resource: u64,
    total: Decimal,
}

impl ProxySupply {
    /// The resource this handle manages.
    pub closed spec fn spec_resource(&self) -> u64 {
        self.resource
    }

    /// The total quantity issued so far, in attos.
    pub closed spec fn spec_total(&self) -> int {
        self.total.value()
    }

    /// A supply is well formed when its total is not negative: it starts at
    /// zero and every successful mint adds a non-negative quantity.
    pub open spec fn wf(&self) -> bool {
        0 <= self.spec_total()
    }

    /// Creates the resource with no initial supply.  A deployment calls this
    /// exactly once, at construction.
    pub fn create(resource: u64) -> (r: ProxySupply)
        ensures
            r.wf(),
            r.spec_resource() == resource,
            r.spec_total() == 0,
    {
        ProxySupply { resource, total: Decimal::zero() }
    }

    /// The total quantity issued so far.
    pub fn total_supply(&self) -> (r: Decimal)
        ensures
            r.value() == self.spec_total(),
    {
        self.total
    }

    /// Mints `amount` new units and returns them in a container, growing the
    /// total issued supply by exactly `amount`.  A negative amount is
    /// rejected, and a mint whose total would not fit the supply counter is
    /// rejected; a rejected mint leaves the supply unchanged.
    pub fn mint(&mut self, amount: Decimal) -> (r: Result<AssetContainer, SyncError>)
        requires
            old(self).wf(),
        ensures
            final(self).wf(),
            final(self).spec_resource() == old(self).spec_resource(),
            amount.value() < 0 ==> {
                &&& (r matches Err(e) && e == SyncError::NegativePrice)
                &&& *final(self) == *old(self)
            },
            0 <= amount.value() && old(self).spec_total() + amount.value() > i128::MAX ==> {
                &&& (r matches Err(e) && e == SyncError::SupplyOverflow)
                &&& *final(self) == *old(self)
            },
            0 <= amount.value() && old(self).spec_total() + amount.value() <= i128::MAX ==> {
                &&& r matches Ok(b)
                &&& b.spec_resource() == old(self).spec_resource()
                &&& b.spec_quantity() == amount.value()
                &&& final(self).spec_total() == old(self).spec_total() + amount.value()
            },
    {
        if amount.is_negative() {
            return Err(SyncError::NegativePrice);
        }
        match self.total.checked_add(&amount) {
            Some(new_total) => {
                self.total = new_total;
                Ok(AssetContainer::filled(self.resource, amount))
            },
            None => Err(SyncError::SupplyOverflow),
        }
    }
}

/// The mint-on-read deployment: the component handle pairing the
/// synchronization operation with the proxy supply whose resource-management
/// handle it controls.
#[derive(Debug)]
pub struct OracleClient {
    supply: ProxySupply,
}

impl OracleClient {
    /// The resource identity of the proxy asset.
    pub closed spec fn spec_resource(&self) -> u64 {
        self.supply.spec_resource()
    }

    /// The total proxy supply issued so far, in attos.
    pub closed spec fn spec_total(&self) -> int {
        self.supply.spec_total()
    }

    /// A client is well formed when its supply is: the total issued so far is
    /// not negative.
    pub open spec fn wf(&self) -> bool {
        0 <= self.spec_total()
    }

    /// The state after one synchronization step that observed `snapshot`:
    /// unchanged on no data or on a rejected mint, otherwise the supply grown
    /// by exactly the observed price.
    pub closed spec fn minted(self, snapshot: Option<PriceData>) -> OracleClient {
        match snapshot {
            None => self,
            Some(s) => if 0 <= s.price.value() && self.spec_total() + s.price.value()
                <= i128::MAX {
                OracleClient {
                    supply: ProxySupply {
                        resource: self.supply.resource,
                        total: Decimal {
                            attos: (self.supply.total.attos + s.price.attos) as i128,
                        },
                    },
                }
            } else {
                self
            },
        }
    }

    /// Constructs the mint-on-read deployment: creates the proxy resource
    /// `resource` with no initial supply and returns the component handle.
    pub fn instantiate_client(resource: u64) -> (r: OracleClient)
        ensures
            r.wf(),
            r.spec_resource() == resource,
            r.spec_total() == 0,
    {
        OracleClient { supply: ProxySupply::create(resource) }
    }

    /// Reconstructs the component handle at an already-issued total, as a
    /// new unit of work observes it from the ledger's resource subsystem.
    /// The total issued supply of a fungible resource is never negative.
    pub fn at_total(resource: u64, total: Decimal) -> (r: OracleClient)
        requires
            0 <= total.value(),
        ensures
            r.wf(),
            r.spec_resource() == resource,
            r.spec_total() == total.value(),
    {
        OracleClient { supply: ProxySupply { resource, total } }
    }

    /// The total proxy supply issued so far.
    pub fn total_supply(&self) -> (r: Decimal)
        ensures
            r.value() == self.spec_total(),
    {
        self.supply.total_supply()
    }

    /// One synchronization call: turns `snapshot` into proxy units.  On no
    /// data the result is an empty container of the proxy resource and the
    /// supply is untouched.  On a reading with a non-negative price that
    /// fits, the result is a container of exactly that many units, minted on
    /// top of everything issued before: each call adds, so the total issued
    /// is the sum over all historical calls.  A negative price and a mint
    /// that would not fit are rejected and leave the supply unchanged.
    pub fn cash_xrd(&mut self, snapshot: Option<PriceData>) -> (r: Result<
        AssetContainer,
        SyncError,
    >)
        requires
            old(self).wf(),
        ensures
            final(self).wf(),
            final(self).spec_resource() == old(self).spec_resource(),
            *final(self) == old(self).minted(snapshot),
            snapshot is None ==> {
                &&& (r matches Ok(b) && b.spec_resource() == old(self).spec_resource()
                    && b.spec_quantity() == 0)
                &&& *final(self) == *old(self)
            },
            snapshot matches Some(s) ==> {
                &&& (0 <= s.price.value() && old(self).spec_total() + s.price.value()
                    <= i128::MAX ==> {
                    &&& (r matches Ok(b) && b.spec_resource() == old(self).spec_resource()
                        && b.spec_quantity() == s.price.value())
                    &&& final(self).spec_total() == old(self).spec_total() + s.price.value()
                })
                &&& (s.price.value() < 0 ==> {
                    &&& (r matches Err(e) && e == SyncError::NegativePrice)
                    &&& *final(self) == *old(self)
                })
                &&& (0 <= s.price.value() && old(self).spec_total() + s.price.value() > i128::MAX
                    ==> {
                    &&& (r matches Err(e) && e == SyncError::SupplyOverflow)
                    &&& *final(self) == *old(self)
                })
            },
    {
        match snapshot {
            None => Ok(AssetContainer::new(self.supply.resource)),
            Some(s) => self.supply.mint(s.price),
        }
    }
}

/// The issued supply never shrinks: minted units have no destruction path in
/// the bridge, so whatever a synchronization step observes, the total after
/// the step is at least the total before it.
pub proof fn lemma_supply_monotone(c: OracleClient, snapshot: Option<PriceData>)
    ensures
        c.spec_total() <= c.minted(snapshot).spec_total(),
{
}

/// Non-idempotence of the mint-on-read variant: two consecutive steps that
/// observe prices `p1` and `p2` grow the total issued supply by `p1 + p2` —
/// the sum of the readings, not their maximum and not an overwrite.
pub proof fn lemma_mint_accumulates(c: OracleClient, s1: PriceData, s2: PriceData)
    requires
        c.wf(),
        0 <= s1.price.value(),
        0 <= s2.price.value(),
        c.spec_total() + s1.price.value() + s2.price.value() <= i128::MAX,
    ensures
        c.minted(Some(s1)).minted(Some(s2)).spec_total() == c.spec_total() + s1.price.value()
            + s2.price.value(),
{
}

} // verus!
