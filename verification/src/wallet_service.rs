//! The wallet-record service: creates balance-bearing wallet records
//! tied to a user. A simple insert keyed by a fresh identifier, with no
//! invariant beyond the uniqueness of its own primary key.

use vstd::prelude::*;
use crate::errors::UserError;
use crate::ids::fresh_uuid;
use crate::ids::uuid_value;

verus! {

/// The abstract value of a wallet record.
pub ghost struct WalletRecordV {
    pub id: Seq<char>,
    pub id_num: u128,
    pub user_id: Seq<char>,
    pub balance: i64,
}

/// A balance-bearing wallet record tied to a user. The referenced user's
/// existence is not transactionally enforced here.
#[derive(Debug)]
pub struct WalletRecord {
    /// Canonical textual form of the primary key.
    pub id: String,
    /// The 128-bit value that `id` parses back to; the primary key proper.
    pub id_num: u128,
    pub user_id: String,
    pub balance: i64,
}

impl View for WalletRecord {
    type V = WalletRecordV;

    open spec fn view(&self) -> WalletRecordV {
        WalletRecordV {
            id: self.id@,
            id_num: self.id_num,
            user_id: self.user_id@,
            balance: self.balance,
        }
    }
}

impl Clone for WalletRecord {
    fn clone(&self) -> (r: Self)
        ensures
            r@ == self@,
    {
        WalletRecord {
            id: self.id.clone(),
            id_num: self.id_num,
            user_id: self.user_id.clone(),
            balance: self.balance,
        }
    }
}

/// No two stored wallet records share a primary key.
pub open spec fn wallet_keys_distinct(s: Seq<WalletRecordV>) -> bool {
    forall |i: int, j: int|
        0 <= i < s.len() && 0 <= j < s.len() && i != j
            ==> #[trigger] s[i].id_num != #[trigger] s[j].id_num
}

/// The wallet-record store and its creation operation.
pub struct MyWalletService {
    wallets: Vec<WalletRecord>,
}

impl View for MyWalletService {
    type V = Seq<WalletRecordV>;

    closed spec fn view(&self) -> Seq<WalletRecordV> {
        self.wallets@.map_values(|r: WalletRecord| r@)
    }
}

impl MyWalletService {
    /// The store invariant: primary keys are unique.
    pub open spec fn wf(&self) -> bool {
        wallet_keys_distinct(self@)
    }

    /// A service over an empty wallet store.
    pub fn new() -> (r: Self)
        ensures
            r@ == Seq::<WalletRecordV>::empty(),
            r.wf(),
    {
        let r = MyWalletService { wallets: Vec::new() };
        proof {
            assert(r@ =~= Seq::<WalletRecordV>::empty());
        }
        r
    }

    /// Persists a wallet record under an already-drawn identifier: the
    /// whole decision on that identifier. The record is appended exactly
    /// when no stored record carries the identifier; a primary-key
    /// collision is a store-level fault, reported as `InternalError` with
    /// nothing persisted. Wallets carry no other uniqueness constraint:
    /// the same `user_id` may hold any number of records, and the call
    /// never returns `ConflictError`.
    pub fn create_wallet_with_id(
        &mut self,
        user_id: &String,
        amount: i64,
        id: String,
        id_num: u128,
    ) -> (r: Result<WalletRecord, UserError>)
        requires
            old(self).wf(),
            uuid_value(id@) == Some(id_num),
        ensures
            final(self).wf(),
            r is Ok <==> forall |i: int|
                0 <= i < old(self)@.len() ==> #[trigger] old(self)@[i].id_num != id_num,
            r matches Ok(w) ==> w@ == (WalletRecordV {
                id: id@,
                id_num: id_num,
                user_id: user_id@,
                balance: amount,
            }) && final(self)@ == old(self)@.push(w@),
            r matches Err(e) ==> e == UserError::InternalError && final(self)@ == old(self)@,
    {
        let n = self.wallets.len();
        let mut i: usize = 0;
        while i < n
            invariant
                i <= n,
                self == old(self),
                old(self).wf(),
                n == self.wallets.len(),
                forall |j: int| 0 <= j < i ==> #[trigger] self@[j].id_num != id_num,
            decreases n - i,
        {
            if self.wallets[i].id_num == id_num {
                assert(self@[i as int].id_num == id_num);
                return Err(UserError::InternalError);
            }
            i += 1;
        }
        let rec = WalletRecord { id: id, id_num: id_num, user_id: user_id.clone(), balance: amount };
        let out = rec.clone();
        let ghost s0 = self@;
        self.wallets.push(rec);
        proof {
            assert(self@ =~= s0.push(out@));
        }
        Ok(out)
    }

    /// Creates a wallet record with a fresh identifier and the given
    /// balance. The drawn identifier is random, so success cannot be
    /// promised outright: the decision on the drawn value stands in
    /// [`MyWalletService::create_wallet_with_id`], and success is owed
    /// wherever no collision is possible — in particular on an empty
    /// store.
    pub fn create_wallet(&mut self, user_id: &String, amount: i64) -> (r: Result<
        WalletRecord,
        UserError,
    >)
        requires
            old(self).wf(),
        ensures
            final(self).wf(),
            old(self)@.len() == 0 ==> r is Ok,
            r matches Ok(w) ==> w@.user_id == user_id@
                && w@.balance == amount
                && uuid_value(w@.id) == Some(w@.id_num)
                && final(self)@ == old(self)@.push(w@),
            r matches Err(e) ==> e == UserError::InternalError && final(self)@ == old(self)@,
    {
        let ids = fresh_uuid();
        self.create_wallet_with_id(user_id, amount, ids.0, ids.1)
    }
}

} // verus!
