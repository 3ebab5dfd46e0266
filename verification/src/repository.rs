//! The user repository: owns the stored records, enforces the uniqueness
//! constraints, and performs the atomic create-or-reject operation and
//! lookup by identifier.
//!
//! Uniqueness is enforced in two layers, as the service requires: the
//! advisory pre-check [`UserRepository::check_conflict`] over the three
//! caller-visible fields, and the binding constraint inside
//! [`UserRepository::insert`], which rejects a record colliding with any
//! stored record on any unique column.

use vstd::prelude::*;
use crate::errors::UserError;
use crate::records::UserRecord;
use crate::records::UserRecordV;

verus! {

/// The advisory conflict policy: a request conflicts when any existing
/// record matches its username OR its email OR its mobile number. The
/// three fields are each globally unique, not jointly unique.
pub open spec fn conflicts_with(
    s: Seq<UserRecordV>,
    username: Seq<char>,
    email: Seq<char>,
    mobile: Seq<char>,
) -> bool {
    exists |i: int|
        0 <= i < s.len() && #[trigger] record_matches(s[i], username, email, mobile)
}

/// Whether one stored record matches any of the three caller-visible
/// unique fields.
pub open spec fn record_matches(
    r: UserRecordV,
    username: Seq<char>,
    email: Seq<char>,
    mobile: Seq<char>,
) -> bool {
    r.username == username || r.email == email || r.mobile_number == mobile
}

/// The store-level uniqueness constraint between two records: they
/// collide on some unique column (id, username, email, mobile number or
/// wallet address).
pub open spec fn blocks(a: UserRecordV, b: UserRecordV) -> bool {
    a.id_num == b.id_num
        || a.username == b.username
        || a.email == b.email
        || a.mobile_number == b.mobile_number
        || a.wallet_address == b.wallet_address
}

/// Whether the store's uniqueness constraints reject inserting `r` into
/// the records `s`.
pub open spec fn insert_blocked(s: Seq<UserRecordV>, r: UserRecordV) -> bool {
    exists |i: int| 0 <= i < s.len() && #[trigger] blocks(s[i], r)
}

/// No two distinct stored records collide on any unique column.
pub open spec fn distinct_keys(s: Seq<UserRecordV>) -> bool {
    forall |i: int, j: int|
        0 <= i < s.len() && 0 <= j < s.len() && i != j ==> !#[trigger] blocks(s[i], s[j])
}

/// The repository invariant: every stored record is internally
/// consistent, and the uniqueness constraints hold across the store.
pub open spec fn repo_wf(s: Seq<UserRecordV>) -> bool {
    distinct_keys(s) && forall |i: int| 0 <= i < s.len() ==> (#[trigger] s[i]).wf()
}

/// The durable user store.
pub struct UserRepository {
    users: Vec<UserRecord>,
}

impl View for UserRepository {
    type V = Seq<UserRecordV>;

    closed spec fn view(&self) -> Seq<UserRecordV> {
        self.users@.map_values(|r: UserRecord| r@)
    }
}

impl UserRepository {
    /// The repository invariant.
    pub open spec fn wf(&self) -> bool {
        repo_wf(self@)
    }

    /// An empty store.
    pub fn new() -> (r: Self)
        ensures
            r@ == Seq::<UserRecordV>::empty(),
            r.wf(),
    {
        let r = UserRepository { users: Vec::new() };
        proof {
            assert(r@ =~= Seq::<UserRecordV>::empty());
        }
        r
    }

    /// The number of stored records.
    pub fn len(&self) -> (n: usize)
        ensures
            n == self@.len(),
    {
        self.users.len()
    }

    /// The advisory pre-check: true exactly when some stored record
    /// matches the username OR the email OR the mobile number.
    pub fn check_conflict(&self, username: &String, email: &String, mobile: &String) -> (b: bool)
        ensures
            b == conflicts_with(self@, username@, email@, mobile@),
    {
        let n = self.users.len();
        let mut i: usize = 0;
        while i < n
            invariant
                i <= n,
                n == self.users.len(),
                forall |j: int|
                    0 <= j < i ==> !record_matches(self@[j], username@, email@, mobile@),
            decreases n - i,
        {
            let r = &self.users[i];
            if r.username == *username || r.email == *email || r.mobile_number == *mobile {
                assert(record_matches(self@[i as int], username@, email@, mobile@));
                return true;
            }
            i += 1;
        }
        false
    }

    /// The atomic create-or-reject operation: appends the record, unless
    /// it collides with a stored record on some unique column, in which
    /// case nothing changes and the uniqueness violation is reported as
    /// `ConflictError`.
    pub fn insert(&mut self, rec: UserRecord) -> (r: Result<(), UserError>)
        requires
            old(self).wf(),
            rec@.wf(),
        ensures
            final(self).wf(),
            r matches Ok(u) ==> !insert_blocked(old(self)@, rec@)
                && final(self)@ == old(self)@.push(rec@),
            r matches Err(e) ==> e == UserError::ConflictError
                && insert_blocked(old(self)@, rec@)
                && final(self)@ == old(self)@,
    {
        let n = self.users.len();
        let mut i: usize = 0;
        while i < n
            invariant
                i <= n,
                self == old(self),
                old(self).wf(),
                rec@.wf(),
                n == self.users.len(),
                forall |j: int| 0 <= j < i ==> !blocks(self@[j], rec@),
            decreases n - i,
        {
            let stored = &self.users[i];
            if stored.id_num == rec.id_num
                || stored.username == rec.username
                || stored.email == rec.email
                || stored.mobile_number == rec.mobile_number
                || stored.wallet_address == rec.wallet_address
            {
                assert(blocks(self@[i as int], rec@));
                return Err(UserError::ConflictError);
            }
            i += 1;
        }
        let ghost s0 = self@;
        self.users.push(rec);
        proof {
            assert(self@ =~= s0.push(rec@));
            assert forall |a: int, b: int|
                0 <= a < self@.len() && 0 <= b < self@.len() && a != b
                    implies !blocks(self@[a], self@[b]) by {
                if a < s0.len() && b < s0.len() {
                    assert(!blocks(s0[a], s0[b]));
                } else if a < s0.len() {
                    assert(!blocks(s0[a], rec@));
                } else {
                    assert(!blocks(s0[b], rec@));
                }
            }
        }
        Ok(())
    }

    /// Lookup by the 128-bit identifier value: the stored record with
    /// that id, or `NotFoundError` when no record carries it.
    pub fn find_by_id(&self, id_num: u128) -> (r: Result<UserRecord, UserError>)
        ensures
            r matches Ok(rec) ==> exists |i: int|
                0 <= i < self@.len() && #[trigger] self@[i].id_num == id_num
                    && rec@ == self@[i],
            r matches Err(e) ==> e == UserError::NotFoundError
                && forall |i: int| 0 <= i < self@.len() ==> #[trigger] self@[i].id_num != id_num,
            r is Ok <==> exists |i: int|
                0 <= i < self@.len() && #[trigger] self@[i].id_num == id_num,
    {
        let n = self.users.len();
        let mut i: usize = 0;
        while i < n
            invariant
                i <= n,
                n == self.users.len(),
                forall |j: int| 0 <= j < i ==> #[trigger] self@[j].id_num != id_num,
            decreases n - i,
        {
            let stored = &self.users[i];
            if stored.id_num == id_num {
                assert(self@[i as int].id_num == id_num);
                return Ok(stored.clone());
            }
            i += 1;
        }
        Err(UserError::NotFoundError)
    }
}

} // verus!
