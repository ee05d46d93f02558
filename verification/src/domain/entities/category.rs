use vstd::prelude::*;

use crate::domain::entities::base::BaseFields;

verus! {

/// A category of operations of a user.
#[derive(Debug, Clone)]
pub struct Category {
    pub base: BaseFields,
    pub name: String,
    pub user_id: uuid::Uuid,
}

impl Category {
    /// A new category, created now.
    pub fn new(name: &str, user_id: uuid::Uuid) -> (c: Category)
        ensures
            c.name@ == name@,
            c.user_id == user_id,
            c.base.wf(),
            c.base.created_at == c.base.updated_at,
    {
        Category { base: BaseFields::new(), name: String::from_str(name), user_id }
    }
}

} // verus!
