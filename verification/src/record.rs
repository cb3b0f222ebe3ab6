//! The tracked-record deployment variant: a singleton admin credential, the
//! one mutable price record whose mutation it gates, and the client that
//! reflects oracle readings into the record.

use vstd::prelude::*;

use crate::SyncError;
use crate::mint::AssetContainer;
use crate::price::ATTOS_PER_UNIT;
use crate::price::Decimal;
use crate::price::PriceData;

verus! {

/// The non-duplicable admin credential.  Exactly one unit exists per
/// deployment, created at construction time and retained inside the bridge;
/// possession is necessary and sufficient to mutate the tracked record.
///
/// The type deliberately implements neither `Clone` nor `Copy`, so a
/// credential value cannot be duplicated once created.
#[derive(Debug)]
pub struct AdminAuthority {
    id: u64,
}

impl AdminAuthority {
    /// The identity of the badge this credential stands for.
    pub closed spec fn spec_id(&self) -> u64 {
        self.id
    }

    /// Creates the credential for the badge identified by `id`.  This stands
    /// for the ledger issuing the badge at construction time; a deployment
    /// calls it exactly once.
    pub fn new(id: u64) -> (r: AdminAuthority)
        ensures
            r.spec_id() == id,
    {
        AdminAuthority { id }
    }

    /// The identity of the badge this credential stands for.
    #[verifier::when_used_as_spec(spec_id)]
    pub fn id(&self) -> (r: u64)
        ensures
            r == self.spec_id(),
    {
        self.id
    }
}

/// The single mutable record of the tracked-record variant: the last-known
/// price and its timestamp, mutable only as a pair and only under the
/// credential the record was constructed with.
#[derive(Debug)]
pub struct TrackedRecord {
    admin: u64,
    price: Decimal,
    timestamp: i64,
}

impl TrackedRecord {
    /// The badge identity whose credential authorizes mutation.
    pub closed spec fn spec_admin(&self) -> u64 {
        self.admin
    }

    /// The last-known price.
    pub closed spec fn spec_price(&self) -> Decimal {
        self.price
    }

    /// The timestamp of the last-known price.
    pub closed spec fn spec_timestamp(&self) -> i64 {
        self.timestamp
    }

    /// Creates the record with the sentinel value `price = 0, timestamp = 0`,
    /// gated by `cred`.  A deployment calls this exactly once, at
    /// construction.
    pub fn new(cred: &AdminAuthority) -> (r: TrackedRecord)
        ensures
            r.spec_admin() == cred.spec_id(),
            r.spec_price().value() == 0,
            r.spec_timestamp() == 0,
    {
        TrackedRecord { admin: cred.id(), price: Decimal::zero(), timestamp: 0 }
    }

    /// The last-known price.
    #[verifier::when_used_as_spec(spec_price)]
    pub fn price(&self) -> (r: Decimal)
        ensures
            r == self.spec_price(),
    {
        self.price
    }

    /// The timestamp of the last-known price.
    #[verifier::when_used_as_spec(spec_timestamp)]
    pub fn timestamp(&self) -> (r: i64)
        ensures
            r == self.spec_timestamp(),
    {
        self.timestamp
    }

    /// Overwrites price and timestamp together, as one atomic pair, provided
    /// `cred` is the credential the record was constructed with.  With any
    /// other credential the mutation fails and the record is unchanged: no
    /// partial update is ever observable.
    pub fn apply_authorized(&mut self, cred: &AdminAuthority, price: Decimal, timestamp: i64) -> (r:
        Result<(), SyncError>)
        ensures
            cred.spec_id() == old(self).spec_admin() ==> {
                &&& r is Ok
                &&& final(self).spec_price() == price
                &&& final(self).spec_timestamp() == timestamp
                &&& final(self).spec_admin() == old(self).spec_admin()
            },
            cred.spec_id() != old(self).spec_admin() ==> {
                &&& (r matches Err(e) && e == SyncError::Unauthorized)
                &&& *final(self) == *old(self)
            },
    {
        if cred.id() == self.admin {
            self.price = price;
            self.timestamp = timestamp;
            Ok(())
        } else {
            Err(SyncError::Unauthorized)
        }
    }
}

/// The tracked-record deployment: the component handle pairing the
/// synchronization operation with the record it owns and the credential that
/// gates the record.  Both stay inside the component; mutation from outside
/// goes nowhere but through `update_token`.
#[derive(Debug)]
pub struct TrackedClient {
    admin: AdminAuthority,
    record: TrackedRecord,
}

impl TrackedClient {
    /// The last-known price held by the tracked record.
    pub closed spec fn spec_price(&self) -> Decimal {
        self.record.spec_price()
    }

    /// The timestamp of the last-known price.
    pub closed spec fn spec_timestamp(&self) -> i64 {
        self.record.spec_timestamp()
    }

    /// A client is well formed when the credential it retains is the one its
    /// record was constructed with, so that the client's own mutations are
    /// always authorized.  Construction establishes this and every operation
    /// preserves it.
    pub closed spec fn wf(&self) -> bool {
        self.admin.spec_id() == self.record.spec_admin()
    }

    /// The state after one synchronization step that observed `snapshot`:
    /// unchanged on no data, otherwise the record overwritten with the
    /// observed price and timestamp.
    pub closed spec fn synced(self, snapshot: Option<PriceData>) -> TrackedClient {
        match snapshot {
            None => self,
            Some(s) => TrackedClient {
                admin: self.admin,
                record: TrackedRecord {
                    admin: self.record.admin,
                    price: s.price,
                    timestamp: s.timestamp,
                },
            },
        }
    }

    /// Constructs the tracked-record deployment: issues the singleton admin
    /// credential for the badge `admin_badge`, creates the record at its
    /// sentinel value `price = 0, timestamp = 0`, and returns the component
    /// handle together with a container holding the one freshly created
    /// record token, of resource `record_resource`.
    pub fn instantiate_client(admin_badge: u64, record_resource: u64) -> (r: (
        TrackedClient,
        AssetContainer,
    ))
        ensures
            r.0.wf(),
            r.0.spec_price().value() == 0,
            r.0.spec_timestamp() == 0,
            r.1.spec_resource() == record_resource,
            r.1.spec_quantity() == ATTOS_PER_UNIT,
    {
        let admin = AdminAuthority::new(admin_badge);
        let record = TrackedRecord::new(&admin);
        let token = AssetContainer::filled(record_resource, Decimal::from_units(1));
        (TrackedClient { admin, record }, token)
    }

    /// The last-known price held by the tracked record.
    #[verifier::when_used_as_spec(spec_price)]
    pub fn price(&self) -> (r: Decimal)
        ensures
            r == self.spec_price(),
    {
        self.record.price()
    }

    /// The timestamp of the last-known price.
    #[verifier::when_used_as_spec(spec_timestamp)]
    pub fn timestamp(&self) -> (r: i64)
        ensures
            r == self.spec_timestamp(),
    {
        self.record.timestamp()
    }

    /// One synchronization call: reflects `snapshot` into the record.  On no
    /// data the call has no observable effect; on a reading, price and
    /// timestamp are overwritten together, as one pair, under the internally
    /// retained admin credential.  Repeating a call with an unchanged reading
    /// overwrites with the same pair: pure overwrite, no accumulation.
    pub fn update_token(&mut self, snapshot: Option<PriceData>)
        requires
            old(self).wf(),
        ensures
            final(self).wf(),
            *final(self) == old(self).synced(snapshot),
            snapshot is None ==> *final(self) == *old(self),
            snapshot matches Some(s) ==> final(self).spec_price() == s.price && final(self).spec_timestamp() == s.timestamp,
    {
        match snapshot {
            None => {},
            Some(s) => {
                let outcome = self.record.apply_authorized(&self.admin, s.price, s.timestamp);
                assert(outcome is Ok);
            },
        }
    }
}

/// Idempotence of the tracked-record variant: a synchronization step is a
/// pure overwrite, so taking a step twice with the same oracle reading leaves
/// the client exactly where taking it once does.
pub proof fn lemma_sync_idempotent(c: TrackedClient, snapshot: Option<PriceData>)
    ensures
        c.synced(snapshot).synced(snapshot) == c.synced(snapshot),
{
}

/// A later reading overwrites an earlier one: two consecutive steps that
/// observe readings leave the client exactly where a single step with the
/// second reading does — no maximum, no accumulation.
pub proof fn lemma_sync_overwrites(c: TrackedClient, s1: PriceData, s2: PriceData)
    ensures
        c.synced(Some(s1)).synced(Some(s2)) == c.synced(Some(s2)),
{
}

} // verus!
