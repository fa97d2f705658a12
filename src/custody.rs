use vstd::prelude::*;
use crate::key::Key;

verus! {

/// One operation of the custody transfer service.
#[derive(Clone, Copy, Debug)]
pub enum CustodyOp {
    /// Move `amount` units from `source` to `destination`, authorized by the
    /// owner of `source`.
    Transfer { source: Key, destination: Key, authority: Key, amount: u64 },
    /// Hand control of `account` from `current_owner` to `new_owner`.
    SetOwner { account: Key, new_owner: Key, current_owner: Key },
    /// Close the empty `account`, its storage balance going to `destination`.
    Close { account: Key, destination: Key, authority: Key },
    /// Destroy the auction record, its storage balance going to `destination`.
    Reclaim { record: Key, destination: Key },
}

/// What the ledger knows of one account.
#[derive(Clone, Copy, Debug)]
pub struct Holding {
    pub owner: Key,
    /// Units of the account's asset.
    pub amount: u64,
    /// Storage balance.
    pub lamports: u64,
}

/// Moves the storage balance of `from` to `to` and removes `from`.
pub open spec fn drain_storage(l: Map<Key, Holding>, from: Key, to: Key) -> Option<Map<Key, Holding>> {
    if !l.contains_key(from) || !l.contains_key(to) || from == to
        || l[to].lamports + l[from].lamports > u64::MAX {
        None
    } else {
        Some(l.remove(from).insert(to, Holding {
            lamports: (l[to].lamports + l[from].lamports) as u64,
            ..l[to]
        }))
    }
}

/// The effect of one operation on the ledger, or `None` where the service
/// refuses it.
pub open spec fn apply_op(l: Map<Key, Holding>, op: CustodyOp) -> Option<Map<Key, Holding>> {
    match op {
        CustodyOp::Transfer { source, destination, authority, amount } => {
            if !l.contains_key(source) || !l.contains_key(destination)
                || l[source].owner != authority || l[source].amount < amount {
                None
            } else if source == destination {
                Some(l)
            } else if l[destination].amount + amount > u64::MAX {
                None
            } else {
                Some(l.insert(source, Holding {
                    amount: (l[source].amount - amount) as u64,
                    ..l[source]
                }).insert(destination, Holding {
                    amount: (l[destination].amount + amount) as u64,
                    ..l[destination]
                }))
            }
        },
        CustodyOp::SetOwner { account, new_owner, current_owner } => {
            if !l.contains_key(account) || l[account].owner != current_owner {
                None
            } else {
                Some(l.insert(account, Holding { owner: new_owner, ..l[account] }))
            }
        },
        CustodyOp::Close { account, destination, authority } => {
            if !l.contains_key(account) || l[account].owner != authority || l[account].amount != 0 {
                None
            } else {
                drain_storage(l, account, destination)
            }
        },
        CustodyOp::Reclaim { record, destination } => drain_storage(l, record, destination),
    }
}

/// The effect of a sequence of operations, all or nothing.
pub open spec fn apply_ops(l: Map<Key, Holding>, ops: Seq<CustodyOp>) -> Option<Map<Key, Holding>>
    decreases ops.len(),
{
    if ops.len() == 0 {
        Some(l)
    } else {
        match apply_ops(l, ops.drop_last()) {
            Some(m) => apply_op(m, ops.last()),
            None => None,
        }
    }
}

} // verus!
