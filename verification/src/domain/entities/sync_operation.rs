use vstd::prelude::*;

use crate::domain::entities::base::BaseFields;

verus! {

/// The table a synchronised change belongs to.
#[derive(Debug, Clone, Copy, PartialEq, Eq, Structural)]
pub enum TableType {
    Categories,
    Account,
    Operations,
}

/// The kind of a synchronised change.
#[derive(Debug, Clone, Copy, PartialEq, Eq, Structural)]
pub enum Action {
    Create,
    Update,
    Delete,
}

/// A change to be synchronised.
#[derive(Debug, Clone)]
pub struct SyncOperation {
    pub base: BaseFields,
    pub processing_id: uuid::Uuid,
    pub table_type: TableType,
    pub action: Action,
}

impl SyncOperation {
    /// A new change record, created now.
    pub fn new(processing_id: uuid::Uuid, table_type: TableType, action: Action) -> (s: SyncOperation)
        ensures
            s.processing_id == processing_id,
            s.table_type == table_type,
            s.action == action,
            s.base.wf(),
            s.base.created_at == s.base.updated_at,
    {
        SyncOperation { base: BaseFields::new(), processing_id, table_type, action }
    }
}

} // verus!
