//! Properties of the store that relate the service's operations across
//! calls: what a successful creation guarantees to a later lookup, when a
//! request is owed success, and why two records can never collide.

use vstd::prelude::*;
use crate::records::UserRecordV;
use crate::records::view_of_record;
use crate::repository::blocks;
use crate::repository::conflicts_with;
use crate::repository::insert_blocked;
use crate::repository::record_matches;
use crate::repository::repo_wf;

verus! {

/// A successfully created record is found by a later lookup, and matches
/// it in every caller-visible field: after a creation pushes `rec` onto a
/// well-formed store, the new store is well-formed, some record carries
/// `rec`'s identifier, and every record carrying it presents exactly
/// `rec`'s view — the view both calls return, which has no private-key
/// field.
pub proof fn lemma_created_user_found(s0: Seq<UserRecordV>, rec: UserRecordV)
    requires
        repo_wf(s0),
        rec.wf(),
        !insert_blocked(s0, rec),
    ensures
        repo_wf(s0.push(rec)),
        exists |i: int|
            0 <= i < s0.push(rec).len() && #[trigger] s0.push(rec)[i].id_num == rec.id_num,
        forall |i: int|
            0 <= i < s0.push(rec).len() && #[trigger] s0.push(rec)[i].id_num == rec.id_num
                ==> view_of_record(s0.push(rec)[i]) == view_of_record(rec),
{
    let s1 = s0.push(rec);
    assert(s1[s1.len() - 1] == rec);
    assert forall |a: int, b: int|
        0 <= a < s1.len() && 0 <= b < s1.len() && a != b implies !blocks(s1[a], s1[b]) by {
        if a < s0.len() && b < s0.len() {
            assert(!blocks(s0[a], s0[b]));
        } else if a < s0.len() {
            assert(!blocks(s0[a], rec));
        } else {
            assert(!blocks(s0[b], rec));
        }
    }
    assert forall |i: int|
        0 <= i < s1.len() && #[trigger] s1[i].id_num == rec.id_num
            implies view_of_record(s1[i]) == view_of_record(rec) by {
        if i < s0.len() {
            assert(blocks(s0[i], rec));
        }
    }
}

/// A request matching no stored username, email or mobile number never
/// conflicts: as long as its generated identifier and wallet address are
/// fresh as well, the store's uniqueness constraints accept the record,
/// however much its other fields resemble stored ones — so creation is
/// owed success there.
pub proof fn lemma_unmatched_request_accepted(s: Seq<UserRecordV>, rec: UserRecordV)
    requires
        !conflicts_with(s, rec.username, rec.email, rec.mobile_number),
        forall |i: int| 0 <= i < s.len() ==> #[trigger] s[i].id_num != rec.id_num,
        forall |i: int| 0 <= i < s.len() ==> #[trigger] s[i].wallet_address != rec.wallet_address,
    ensures
        !insert_blocked(s, rec),
{
    assert forall |i: int| 0 <= i < s.len() implies !blocks(s[i], rec) by {
        assert(!record_matches(s[i], rec.username, rec.email, rec.mobile_number));
    }
}

/// Once a record with matching fields is stored, a request that matches
/// it on username, email or mobile number conflicts: with the creation
/// contract, a repeat of an already-completed request is answered with
/// `ConflictError`, and at most one of any set of identical requests
/// completes.
pub proof fn lemma_repeated_request_conflicts(
    s0: Seq<UserRecordV>,
    rec: UserRecordV,
    username: Seq<char>,
    email: Seq<char>,
    mobile: Seq<char>,
)
    requires
        record_matches(rec, username, email, mobile),
    ensures
        conflicts_with(s0.push(rec), username, email, mobile),
{
    let s1 = s0.push(rec);
    assert(record_matches(s1[s1.len() - 1], username, email, mobile));
}

/// In a well-formed store there are never two persisted records for one
/// identity: records that agree on username, email or mobile number are
/// one and the same record.
pub proof fn lemma_at_most_one_record(s: Seq<UserRecordV>, i: int, j: int)
    requires
        repo_wf(s),
        0 <= i < s.len(),
        0 <= j < s.len(),
        s[i].username == s[j].username || s[i].email == s[j].email
            || s[i].mobile_number == s[j].mobile_number,
    ensures
        i == j,
{
    if i != j {
        assert(!blocks(s[i], s[j]));
    }
}

} // verus!
