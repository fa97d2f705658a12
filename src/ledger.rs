use vstd::prelude::*;
use crate::custody::{apply_op, apply_ops, drain_storage, CustodyOp, Holding};
use crate::error::AuctionError;
use crate::key::Key;

verus! {

/// An in-memory custody service: accounts by identity, where every
/// operation fully applies or leaves the ledger as it was.
pub struct Ledger {
    entries: Vec<(Key, Holding)>,
    contents: Ghost<Map<Key, Holding>>,
}

impl View for Ledger {
    type V = Map<Key, Holding>;

    closed spec fn view(&self) -> Map<Key, Holding> {
        self.contents@
    }
}

impl Ledger {
    pub closed spec fn wf(&self) -> bool {
        &&& forall|i: int, j: int|
            0 <= i < j < self.entries@.len() ==> (#[trigger] self.entries@[i]).0 != (#[trigger] self.entries@[j]).0
        &&& forall|i: int|
            0 <= i < self.entries@.len() ==> self.contents@.contains_key((#[trigger] self.entries@[i]).0)
                && self.contents@[self.entries@[i].0] == self.entries@[i].1
        &&& forall|k: Key|
            #[trigger] self.contents@.contains_key(k) ==> exists|i: int|
                0 <= i < self.entries@.len() && (#[trigger] self.entries@[i]).0 == k
    }

    pub fn new() -> (r: Ledger)
        ensures
            r.wf(),
            r@ == Map::<Key, Holding>::empty(),
    {
        Ledger { entries: Vec::new(), contents: Ghost(Map::empty()) }
    }

    fn find(&self, k: &Key) -> (r: Option<usize>)
        requires
            self.wf(),
        ensures
            match r {
                Some(i) => i < self.entries@.len() && self.entries@[i as int].0 == *k,
                None => !self@.contains_key(*k),
            },
    {
        let mut i: usize = 0;
        while i < self.entries.len()
            invariant
                self.wf(),
                i <= self.entries@.len(),
                forall|j: int| 0 <= j < i ==> (#[trigger] self.entries@[j]).0 != *k,
            decreases self.entries@.len() - i,
        {
            if self.entries[i].0.same(k) {
                return Some(i);
            }
            i = i + 1;
        }
        None
    }

    /// The holding of `k`, if the ledger has such an account.
    pub fn holding(&self, k: &Key) -> (r: Option<Holding>)
        requires
            self.wf(),
        ensures
            match r {
                Some(h) => self@.contains_key(*k) && self@[*k] == h,
                None => !self@.contains_key(*k),
            },
    {
        match self.find(k) {
            Some(i) => Some(self.entries[i].1),
            None => None,
        }
    }

    fn replace_at(&mut self, i: usize, h: Holding)
        requires
            old(self).wf(),
            i < old(self).entries@.len(),
        ensures
            final(self).wf(),
            final(self).entries@.len() == old(self).entries@.len(),
            final(self)@ == old(self)@.insert(old(self).entries@[i as int].0, h),
            forall|j: int| 0 <= j < final(self).entries@.len() ==> (#[trigger] final(self).entries@[j]).0 == old(self).entries@[j].0,
    {
        let k = self.entries[i].0;
        self.entries.set(i, (k, h));
        self.contents = Ghost(self.contents@.insert(k, h));
        proof {
            assert forall|key: Key| #[trigger] self.contents@.contains_key(key) implies exists|j: int|
                0 <= j < self.entries@.len() && (#[trigger] self.entries@[j]).0 == key by {
                if key != k {
                    assert(old(self).contents@.contains_key(key));
                    let j = choose|j: int| 0 <= j < old(self).entries@.len() && (#[trigger] old(self).entries@[j]).0 == key;
                    assert(self.entries@[j].0 == key);
                } else {
                    assert(self.entries@[i as int].0 == key);
                }
            }
        }
    }

    /// Opens `k` with holding `h`, or replaces what `k` held.
    pub fn open(&mut self, k: Key, h: Holding)
        requires
            old(self).wf(),
        ensures
            final(self).wf(),
            final(self)@ == old(self)@.insert(k, h),
    {
        match self.find(&k) {
            Some(i) => self.replace_at(i, h),
            None => {
                self.entries.push((k, h));
                self.contents = Ghost(self.contents@.insert(k, h));
                proof {
                    let n = self.entries@.len() - 1;
                    assert(self.entries@[n].0 == k);
                    assert forall|key: Key| #[trigger] self.contents@.contains_key(key) implies exists|j: int|
                        0 <= j < self.entries@.len() && (#[trigger] self.entries@[j]).0 == key by {
                        if key != k {
                            assert(old(self).contents@.contains_key(key));
                            let j = choose|j: int| 0 <= j < old(self).entries@.len() && (#[trigger] old(self).entries@[j]).0 == key;
                            assert(self.entries@[j].0 == key);
                        }
                    }
                }
            },
        }
    }

    fn remove_at(&mut self, i: usize)
        requires
            old(self).wf(),
            i < old(self).entries@.len(),
        ensures
            final(self).wf(),
            final(self)@ == old(self)@.remove(old(self).entries@[i as int].0),
    {
        let ghost k = self.entries@[i as int].0;
        let ghost last = self.entries@.len() - 1;
        self.entries.swap_remove(i);
        self.contents = Ghost(self.contents@.remove(k));
        proof {
            assert forall|key: Key| #[trigger] self.contents@.contains_key(key) implies exists|j: int|
                0 <= j < self.entries@.len() && (#[trigger] self.entries@[j]).0 == key by {
                assert(old(self).contents@.contains_key(key));
                let j = choose|j: int| 0 <= j < old(self).entries@.len() && (#[trigger] old(self).entries@[j]).0 == key;
                if j == last {
                    assert(self.entries@[i as int].0 == key);
                } else {
                    assert(self.entries@[j].0 == key);
                }
            }
            assert forall|a: int| 0 <= a < self.entries@.len() implies self.contents@.contains_key((#[trigger] self.entries@[a]).0)
                && self.contents@[self.entries@[a].0] == self.entries@[a].1 by {
                if a == i {
                    assert(self.entries@[a] == old(self).entries@[last]);
                } else {
                    assert(self.entries@[a] == old(self).entries@[a]);
                }
            }
        }
    }

    fn drain(&mut self, from: &Key, to: &Key) -> (r: Result<(), AuctionError>)
        requires
            old(self).wf(),
        ensures
            final(self).wf(),
            r is Ok <==> drain_storage(old(self)@, *from, *to) is Some,
            r is Ok ==> final(self)@ == drain_storage(old(self)@, *from, *to)->Some_0,
            r is Err ==> final(self)@ == old(self)@ && r == Err::<(), _>(AuctionError::CustodyFailure),
    {
        let i = match self.find(from) {
            Some(i) => i,
            None => return Err(AuctionError::CustodyFailure),
        };
        let j = match self.find(to) {
            Some(j) => j,
            None => return Err(AuctionError::CustodyFailure),
        };
        if i == j {
            return Err(AuctionError::CustodyFailure);
        }
        let f = self.entries[i].1;
        let t = self.entries[j].1;
        if t.lamports > u64::MAX - f.lamports {
            return Err(AuctionError::CustodyFailure);
        }
        self.replace_at(j, Holding { lamports: t.lamports + f.lamports, ..t });
        self.remove_at(i);
        Ok(())
    }

    fn duplicate(&self) -> (r: Ledger)
        requires
            self.wf(),
        ensures
            r.wf(),
            r@ == self@,
    {
        let mut entries: Vec<(Key, Holding)> = Vec::new();
        let mut i: usize = 0;
        while i < self.entries.len()
            invariant
                i <= self.entries@.len(),
                entries@ == self.entries@.take(i as int),
            decreases self.entries@.len() - i,
        {
            entries.push(self.entries[i]);
            proof {
                assert(self.entries@.take(i as int + 1) =~= self.entries@.take(i as int).push(self.entries@[i as int]));
            }
            i = i + 1;
        }
        proof {
            assert(self.entries@.take(i as int) =~= self.entries@);
        }
        let r = Ledger { entries, contents: Ghost(self.contents@) };
        proof {
            assert(r.entries@ == self.entries@);
            assert(r.contents@ == self.contents@);
        }
        r
    }

    /// Applies one operation: the ledger changes as `apply_op` says, or not
    /// at all where the operation is refused.
    pub fn apply(&mut self, op: &CustodyOp) -> (r: Result<(), AuctionError>)
        requires
            old(self).wf(),
        ensures
            final(self).wf(),
            r is Ok <==> apply_op(old(self)@, *op) is Some,
            r is Ok ==> final(self)@ == apply_op(old(self)@, *op)->Some_0,
            r is Err ==> final(self)@ == old(self)@ && r == Err::<(), _>(AuctionError::CustodyFailure),
    {
        match op {
            CustodyOp::Transfer { source, destination, authority, amount } => {
                let i = match self.find(source) {
                    Some(i) => i,
                    None => return Err(AuctionError::CustodyFailure),
                };
                let j = match self.find(destination) {
                    Some(j) => j,
                    None => return Err(AuctionError::CustodyFailure),
                };
                let f = self.entries[i].1;
                let t = self.entries[j].1;
                if !f.owner.same(authority) || f.amount < *amount {
                    return Err(AuctionError::CustodyFailure);
                }
                if i == j {
                    return Ok(());
                }
                if t.amount > u64::MAX - *amount {
                    return Err(AuctionError::CustodyFailure);
                }
                self.replace_at(i, Holding { amount: f.amount - *amount, ..f });
                self.replace_at(j, Holding { amount: t.amount + *amount, ..t });
                Ok(())
            },
            CustodyOp::SetOwner { account, new_owner, current_owner } => {
                let i = match self.find(account) {
                    Some(i) => i,
                    None => return Err(AuctionError::CustodyFailure),
                };
                let h = self.entries[i].1;
                if !h.owner.same(current_owner) {
                    return Err(AuctionError::CustodyFailure);
                }
                self.replace_at(i, Holding { owner: *new_owner, ..h });
                Ok(())
            },
            CustodyOp::Close { account, destination, authority } => {
                let i = match self.find(account) {
                    Some(i) => i,
                    None => return Err(AuctionError::CustodyFailure),
                };
                let h = self.entries[i].1;
                if !h.owner.same(authority) || h.amount != 0 {
                    return Err(AuctionError::CustodyFailure);
                }
                self.drain(account, destination)
            },
            CustodyOp::Reclaim { record, destination } => self.drain(record, destination),
        }
    }

    /// Applies a transition's operations in order, all or nothing: where one
    /// is refused, the ledger is left exactly as it was.
    pub fn apply_all(&mut self, ops: &Vec<CustodyOp>) -> (r: Result<(), AuctionError>)
        requires
            old(self).wf(),
        ensures
            final(self).wf(),
            r is Ok <==> apply_ops(old(self)@, ops@) is Some,
            r is Ok ==> final(self)@ == apply_ops(old(self)@, ops@)->Some_0,
            r is Err ==> final(self)@ == old(self)@ && r == Err::<(), _>(AuctionError::CustodyFailure),
    {
        let mut work = self.duplicate();
        let mut i: usize = 0;
        while i < ops.len()
            invariant
                work.wf(),
                self.wf(),
                i <= ops@.len(),
                apply_ops(self@, ops@.take(i as int)) == Some(work@),
            decreases ops@.len() - i,
        {
            proof {
                assert(ops@.take(i as int + 1).drop_last() =~= ops@.take(i as int));
            }
            let step = work.apply(&ops[i]);
            if step.is_err() {
                proof {
                    lemma_refused_stays_refused(self@, ops@, i as int + 1);
                }
                return Err(AuctionError::CustodyFailure);
            }
            i = i + 1;
        }
        proof {
            assert(ops@.take(i as int) =~= ops@);
        }
        *self = work;
        Ok(())
    }
}

/// Once a prefix of the operations is refused, the whole sequence is.
proof fn lemma_refused_stays_refused(l: Map<Key, Holding>, ops: Seq<CustodyOp>, n: int)
    requires
        0 <= n <= ops.len(),
        apply_ops(l, ops.take(n)) is None,
    ensures
        apply_ops(l, ops) is None,
    decreases ops.len() - n,
{
    if n < ops.len() {
        assert(ops.take(n + 1).drop_last() =~= ops.take(n));
        lemma_refused_stays_refused(l, ops, n + 1);
    } else {
        assert(ops.take(n) =~= ops);
    }
}

} // verus!
