//! The two tables, held in memory: exchange requests keyed by their
//! identifier and administrators keyed by their identity.

use crate::error::InsertFault;
use crate::keyed::{
    has_key, keys_distinct, lemma_as_many_keys, lemma_entry_added, lemma_entry_at,
    lemma_entry_replaced, lemma_key_has_entry, lemma_no_entries, to_map,
};
use crate::model::{Admin, ExchangeRequest, Identity, RequestView};
use vstd::prelude::*;

verus! {

/// What the tables hold: each request under its identifier, each
/// administrator under its identity, and the identifier that the next
/// request will get.
pub struct LedgerView {
    pub requests: Map<u64, RequestView>,
    pub admins: Map<Identity, Admin>,
    pub next_request_id: u64,
}

impl LedgerView {
    /// Both tables are finite, every row stands under its own key, and
    /// every identifier in use is positive and below the next one.
    pub open spec fn wf(self) -> bool {
        &&& self.requests.dom().finite()
        &&& self.admins.dom().finite()
        &&& self.next_request_id >= 1
        &&& forall|id: u64| #[trigger]
            self.requests.contains_key(id) ==> self.requests[id].request_id == id && 0 < id
                < self.next_request_id
        &&& forall|who: Identity| #[trigger]
            self.admins.contains_key(who) ==> self.admins[who].identity == who
    }

    /// Whether `who` is in the administrator registry.
    pub open spec fn is_admin(self, who: Identity) -> bool {
        self.admins.contains_key(who)
    }

    /// The number of administrators.
    pub open spec fn admin_count(self) -> nat {
        self.admins.dom().len()
    }

    /// The number of requests.
    pub open spec fn request_count(self) -> nat {
        self.requests.dom().len()
    }

    /// The tables with `row` stored under its identifier.
    pub open spec fn with_request(self, row: RequestView) -> LedgerView {
        LedgerView { requests: self.requests.insert(row.request_id, row), ..self }
    }

    /// The tables with `admin` stored under its identity.
    pub open spec fn with_admin(self, admin: Admin) -> LedgerView {
        LedgerView { admins: self.admins.insert(admin.identity, admin), ..self }
    }

    /// The tables after `draft` has been inserted under the next identifier.
    pub open spec fn with_new_request(self, draft: RequestView) -> LedgerView {
        LedgerView {
            requests: self.requests.insert(
                self.next_request_id,
                RequestView { request_id: self.next_request_id, ..draft },
            ),
            next_request_id: (self.next_request_id + 1) as u64,
            ..self
        }
    }
}

/// The tables in memory. Rows are kept in the order of their insertion.
pub struct Ledger {
    requests: Vec<ExchangeRequest>,
    admins: Vec<Admin>,
    next_request_id: u64,
}

impl View for Ledger {
    type V = LedgerView;

    closed spec fn view(&self) -> LedgerView {
        LedgerView {
            requests: to_map(self.request_entries()),
            admins: to_map(self.admin_entries()),
            next_request_id: self.next_request_id,
        }
    }
}

impl Ledger {
    spec fn request_entries(&self) -> Seq<(u64, RequestView)> {
        Seq::new(self.requests@.len(), |i: int| (self.requests@[i].request_id, self.requests@[i]@))
    }

    spec fn admin_entries(&self) -> Seq<(Identity, Admin)> {
        Seq::new(self.admins@.len(), |i: int| (self.admins@[i].identity, self.admins@[i]))
    }

    /// No key is stored twice, and every identifier in use is positive and
    /// below the next one.
    pub closed spec fn wf(&self) -> bool {
        &&& keys_distinct(self.request_entries())
        &&& keys_distinct(self.admin_entries())
        &&& self.next_request_id >= 1
        &&& forall|i: int|
            0 <= i < self.requests@.len() ==> 0 < (#[trigger] self.requests@[i]).request_id
                < self.next_request_id
    }

    /// Well-formed tables hold well-formed contents.
    pub proof fn view_is_wf(&self)
        requires
            self.wf(),
        ensures
            self@.wf(),
    {
        let requests = self.request_entries();
        lemma_as_many_keys(requests);
        lemma_as_many_keys(self.admin_entries());
        assert forall|id: u64| #[trigger]
            self@.requests.contains_key(id) implies self@.requests[id].request_id == id && 0 < id
            < self.next_request_id by {
            lemma_key_has_entry(requests, id);
        }
    }

    /// Empty tables; the first request will get the identifier 1.
    pub fn new() -> (ledger: Ledger)
        ensures
            ledger.wf(),
            ledger@ == (LedgerView {
                requests: Map::empty(),
                admins: Map::empty(),
                next_request_id: 1,
            }),
    {
        Ledger::starting_at(1)
    }

    /// Empty tables whose first request will get the identifier
    /// `first_request_id`, which is at least 1.
    pub fn starting_at(first_request_id: u64) -> (ledger: Ledger)
        requires
            first_request_id >= 1,
        ensures
            ledger.wf(),
            ledger@ == (LedgerView {
                requests: Map::empty(),
                admins: Map::empty(),
                next_request_id: first_request_id,
            }),
    {
        let ledger = Ledger {
            requests: Vec::new(),
            admins: Vec::new(),
            next_request_id: first_request_id,
        };
        proof {
            lemma_no_entries(ledger.request_entries());
            lemma_no_entries(ledger.admin_entries());
        }
        ledger
    }

    /// The number of requests.
    pub fn request_count(&self) -> (count: u64)
        requires
            self.wf(),
        ensures
            count == self@.request_count(),
    {
        proof {
            lemma_as_many_keys(self.request_entries());
        }
        self.requests.len() as u64
    }

    /// The number of administrators.
    pub fn admin_count(&self) -> (count: u64)
        requires
            self.wf(),
        ensures
            count == self@.admin_count(),
    {
        proof {
            lemma_as_many_keys(self.admin_entries());
        }
        self.admins.len() as u64
    }

    /// The identifier that the next request will get.
    pub fn next_request_id(&self) -> (id: u64)
        ensures
            id == self@.next_request_id,
    {
        self.next_request_id
    }

    /// A copy of the request with the identifier `request_id`, if there is
    /// one.
    pub fn find_request(&self, request_id: u64) -> (found: Option<ExchangeRequest>)
        requires
            self.wf(),
        ensures
            found is Some <==> self@.requests.contains_key(request_id),
            found matches Some(row) ==> row@ == self@.requests[request_id],
    {
        let ghost entries = self.request_entries();
        let mut i: usize = 0;
        while i < self.requests.len()
            invariant
                0 <= i <= self.requests@.len(),
                entries == self.request_entries(),
                self.wf(),
                forall|j: int| 0 <= j < i ==> (#[trigger] entries[j]).0 != request_id,
            decreases self.requests@.len() - i,
        {
            if self.requests[i].request_id == request_id {
                let row: ExchangeRequest = self.requests[i].clone();
                proof {
                    lemma_entry_at(entries, i as int);
                }
                return Some(row);
            }
            i += 1;
        }
        None
    }

    /// The registry's row for `who`, if there is one.
    pub fn find_admin(&self, who: Identity) -> (found: Option<Admin>)
        requires
            self.wf(),
        ensures
            found is Some <==> self@.is_admin(who),
            found matches Some(admin) ==> admin == self@.admins[who],
    {
        let ghost entries = self.admin_entries();
        let mut i: usize = 0;
        while i < self.admins.len()
            invariant
                0 <= i <= self.admins@.len(),
                entries == self.admin_entries(),
                self.wf(),
                forall|j: int| 0 <= j < i ==> (#[trigger] entries[j]).0 != who,
            decreases self.admins@.len() - i,
        {
            if self.admins[i].identity == who {
                let admin: Admin = self.admins[i];
                proof {
                    lemma_entry_at(entries, i as int);
                }
                return Some(admin);
            }
            i += 1;
        }
        None
    }

    /// Whether `who` is an administrator.
    pub fn is_admin(&self, who: Identity) -> (yes: bool)
        requires
            self.wf(),
        ensures
            yes == self@.is_admin(who),
    {
        self.find_admin(who).is_some()
    }

    /// Inserts `draft` under the next identifier, whatever identifier the
    /// draft carries, and returns the identifier assigned. Fails, changing
    /// nothing, when no identifier is left.
    pub fn insert_request(&mut self, draft: ExchangeRequest) -> (assigned: Result<u64, InsertFault>)
        requires
            old(self).wf(),
        ensures
            final(self).wf(),
            old(self)@.next_request_id < u64::MAX ==> assigned == Ok::<u64, InsertFault>(
                old(self)@.next_request_id,
            ) && final(self)@ == old(self)@.with_new_request(draft@),
            old(self)@.next_request_id == u64::MAX ==> assigned == Err::<u64, InsertFault>(
                InsertFault::RequestIdsExhausted,
            ) && final(self)@ == old(self)@,
    {
        if self.next_request_id == u64::MAX {
            return Err(InsertFault::RequestIdsExhausted);
        }
        let id: u64 = self.next_request_id;
        let mut row: ExchangeRequest = draft;
        row.request_id = id;
        let ghost before = self.request_entries();
        proof {
            assert(!has_key(before, id));
            lemma_entry_added(before, id, row@);
        }
        self.requests.push(row);
        self.next_request_id = id + 1;
        proof {
            assert(self.request_entries() =~= before.push((id, row@)));
        }
        Ok(id)
    }

    /// Stores `row` in place of the request that has its identifier.
    pub fn update_request(&mut self, row: ExchangeRequest)
        requires
            old(self).wf(),
            old(self)@.requests.contains_key(row.request_id),
        ensures
            final(self).wf(),
            final(self)@ == old(self)@.with_request(row@),
    {
        let ghost before = self.request_entries();
        let ghost row_view = row@;
        let request_id: u64 = row.request_id;
        let mut i: usize = 0;
        while i < self.requests.len() && self.requests[i].request_id != request_id
            invariant
                0 <= i <= self.requests@.len(),
                before == self.request_entries(),
                has_key(before, request_id),
                forall|j: int| 0 <= j < i ==> (#[trigger] before[j]).0 != request_id,
            decreases self.requests@.len() - i,
        {
            i += 1;
        }
        proof {
            lemma_key_has_entry(before, request_id);
            lemma_entry_replaced(before, i as int, row_view);
        }
        self.requests.set(i, row);
        proof {
            assert(self.request_entries() =~= before.update(i as int, (request_id, row_view)));
        }
    }

    /// Adds `admin` to the registry. Fails, changing nothing, when its
    /// identity is already there.
    pub fn insert_admin(&mut self, admin: Admin) -> (outcome: Result<(), InsertFault>)
        requires
            old(self).wf(),
        ensures
            final(self).wf(),
            !old(self)@.is_admin(admin.identity) ==> outcome == Ok::<(), InsertFault>(())
                && final(self)@ == old(self)@.with_admin(admin),
            old(self)@.is_admin(admin.identity) ==> outcome == Err::<(), InsertFault>(
                InsertFault::AdminAlreadyPresent,
            ) && final(self)@ == old(self)@,
    {
        if self.is_admin(admin.identity) {
            return Err(InsertFault::AdminAlreadyPresent);
        }
        let ghost before = self.admin_entries();
        proof {
            lemma_entry_added(before, admin.identity, admin);
        }
        self.admins.push(admin);
        proof {
            assert(self.admin_entries() =~= before.push((admin.identity, admin)));
        }
        Ok(())
    }
}

} // verus!
