use vstd::prelude::*;

use crate::domain::entities::base::BaseFields;
use crate::time::Timestamp;

verus! {

/// A movement of money on an account.
#[derive(Debug, Clone)]
pub struct Operation {
    pub base: BaseFields,
    pub account_uuid: uuid::Uuid,
    pub transfer_id: Option<uuid::Uuid>,
    pub category_id: Option<uuid::Uuid>,
    pub amount: rust_decimal::Decimal,
    pub date: Timestamp,
    pub notes: String,
}

impl Operation {
    /// A new operation, created now.
    pub fn new(
        account_uuid: uuid::Uuid,
        transfer_id: Option<uuid::Uuid>,
        category_id: Option<uuid::Uuid>,
        amount: rust_decimal::Decimal,
        date: Timestamp,
        notes: String,
    ) -> (o: Operation)
        ensures
            o.account_uuid == account_uuid,
            o.transfer_id == transfer_id,
            o.category_id == category_id,
            o.amount == amount,
            o.date == date,
            o.notes == notes,
            o.base.wf(),
            o.base.created_at == o.base.updated_at,
    {
        Operation {
            base: BaseFields::new(),
            account_uuid,
            transfer_id,
            category_id,
            amount,
            date,
            notes,
        }
    }
}

/// A transfer between two accounts.
#[derive(Debug, Clone)]
pub struct Transfer {
    pub base: BaseFields,
    pub account_from_id: uuid::Uuid,
    pub account_to_id: uuid::Uuid,
}

impl Transfer {
    /// A new transfer, created now.
    pub fn new(account_from_id: uuid::Uuid, account_to_id: uuid::Uuid) -> (t: Transfer)
        ensures
            t.account_from_id == account_from_id,
            t.account_to_id == account_to_id,
            t.base.wf(),
            t.base.created_at == t.base.updated_at,
    {
        Transfer { base: BaseFields::new(), account_from_id, account_to_id }
    }
}

} // verus!
