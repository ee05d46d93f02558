use vstd::prelude::*;

use crate::domain::entities::base::BaseFields;

verus! {

/// A money account of a user.
#[derive(Debug, Clone)]
pub struct Account {
    pub base: BaseFields,
    pub name: String,
    pub user_id: uuid::Uuid,
    pub funds: rust_decimal::Decimal,
    pub color: String,
}

impl Account {
    /// A new account, created now.
    pub fn new(name: &str, user_id: uuid::Uuid, funds: rust_decimal::Decimal, color: &str) -> (a: Account)
        ensures
            a.name@ == name@,
            a.user_id == user_id,
            a.funds == funds,
            a.color@ == color@,
            a.base.wf(),
            a.base.created_at == a.base.updated_at,
    {
        Account {
            base: BaseFields::new(),
            user_id,
            name: String::from_str(name),
            funds,
            color: String::from_str(color),
        }
    }
}

} // verus!
