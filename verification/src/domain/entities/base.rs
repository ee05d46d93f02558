use vstd::prelude::*;

use crate::time::Timestamp;

verus! {

/// Universally unique identifiers are carried through unread.
#[verifier::external_type_specification]
#[verifier::external_body]
pub struct ExUuid(uuid::Uuid);

/// Decimal amounts are carried through unread.
#[verifier::external_type_specification]
#[verifier::external_body]
pub struct ExDecimal(rust_decimal::Decimal);

/// `Uuid` is `Copy`, and its `Clone` is derived: a clone equals the value cloned.
pub assume_specification[ <uuid::Uuid as Clone>::clone ](u: &uuid::Uuid) -> (r: uuid::Uuid)
    ensures
        r == *u,
;

/// `Decimal` is `Copy`, and its `Clone` is derived: a clone equals the value cloned.
pub assume_specification[ <rust_decimal::Decimal as Clone>::clone ](d: &rust_decimal::Decimal) -> (r: rust_decimal::Decimal)
    ensures
        r == *d,
;

/// A fresh time-ordered identifier (`uuid::Uuid::now_v7`). It depends on the
/// clock and on chance, so nothing is stated of it.
#[verifier::external_body]
pub(crate) fn new_uuid_v7() -> uuid::Uuid {
    uuid::Uuid::now_v7()
}

/// Fields that every stored record has.
#[derive(Debug, Clone)]
pub struct BaseFields {
    pub id: uuid::Uuid,
    pub created_at: Timestamp,
    pub updated_at: Timestamp,
}

impl BaseFields {
    /// Both instants lie in the range of a UTC date-time.
    pub open spec fn wf(self) -> bool {
        self.created_at.wf() && self.updated_at.wf()
    }

    /// Fields of a record created at `now`, under a fresh identifier.
    pub fn new_at(now: Timestamp) -> (b: BaseFields)
        ensures
            b.created_at == now,
            b.updated_at == now,
    {
        BaseFields { id: new_uuid_v7(), created_at: now, updated_at: now }
    }

    /// Fields of a record created now, under a fresh identifier: it was
    /// created and last updated at the same instant.
    pub fn new() -> (b: BaseFields)
        ensures
            b.wf(),
            b.created_at == b.updated_at,
            b.created_at.secs >= 0,
    {
        BaseFields::new_at(Timestamp::now())
    }

    /// Records an update at `now`; identity and creation time stay.
    pub fn touch_at(&mut self, now: Timestamp)
        ensures
            final(self).id == old(self).id,
            final(self).created_at == old(self).created_at,
            final(self).updated_at == now,
    {
        self.updated_at = now;
    }

    /// Records an update now; identity and creation time stay.
    pub fn touch(&mut self)
        ensures
            final(self).id == old(self).id,
            final(self).created_at == old(self).created_at,
            final(self).updated_at.wf(),
    {
        self.touch_at(Timestamp::now());
    }
}

} // verus!
