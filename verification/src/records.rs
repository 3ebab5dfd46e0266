//! The durable records and the response views derived from them.
//!
//! A `UserRecord` is the stored identity of a registered user, private
//! key included; a `UserView` is what the service returns to callers and
//! deliberately has no private-key field.

use vstd::prelude::*;
use crate::dates::DateDmy;
use crate::ids::uuid_value;

verus! {

/// The abstract value of a stored user record.
pub ghost struct UserRecordV {
    pub id: Seq<char>,
    pub id_num: u128,
    pub username: Seq<char>,
    pub email: Seq<char>,
    pub credential_hash: Seq<char>,
    pub dob: DateDmy,
    pub mobile_number: Seq<char>,
    pub wallet_address: Seq<char>,
    pub wallet_private_key: Seq<char>,
}

/// A stored user record: identity, profile, hashed credential, and the
/// generated key pair. Created exactly once and read-only thereafter.
pub struct UserRecord {
    /// Canonical textual form of the primary key.
    pub id: String,
    /// The 128-bit value that `id` parses back to; the primary key proper.
    pub id_num: u128,
    pub username: String,
    pub email: String,
    /// Opaque hashed secret; never the plaintext.
    pub credential_hash: String,
    pub dob: DateDmy,
    pub mobile_number: String,
    pub wallet_address: String,
    /// Secret counterpart of `wallet_address`; kept server-side only and
    /// absent from every view.
    pub wallet_private_key: String,
}

impl View for UserRecord {
    type V = UserRecordV;

    open spec fn view(&self) -> UserRecordV {
        UserRecordV {
            id: self.id@,
            id_num: self.id_num,
            username: self.username@,
            email: self.email@,
            credential_hash: self.credential_hash@,
            dob: self.dob,
            mobile_number: self.mobile_number@,
            wallet_address: self.wallet_address@,
            wallet_private_key: self.wallet_private_key@,
        }
    }
}

impl UserRecordV {
    /// Internal consistency of a record: the textual id denotes exactly
    /// the stored 128-bit key, and the date of birth is a calendar date.
    pub open spec fn wf(self) -> bool {
        uuid_value(self.id) == Some(self.id_num) && self.dob.wf()
    }
}

impl Clone for UserRecord {
    fn clone(&self) -> (r: Self)
        ensures
            r@ == self@,
    {
        UserRecord {
            id: self.id.clone(),
            id_num: self.id_num,
            username: self.username.clone(),
            email: self.email.clone(),
            credential_hash: self.credential_hash.clone(),
            dob: self.dob,
            mobile_number: self.mobile_number.clone(),
            wallet_address: self.wallet_address.clone(),
            wallet_private_key: self.wallet_private_key.clone(),
        }
    }
}

/// The abstract value of a response view.
pub ghost struct UserViewV {
    pub id: Seq<char>,
    pub username: Seq<char>,
    pub email: Seq<char>,
    pub credential_hash: Seq<char>,
    pub dob: DateDmy,
    pub mobile_number: Seq<char>,
    pub wallet_address: Seq<char>,
}

/// What the service returns for a user: every stored field except the
/// wallet private key, which this type cannot carry.
#[derive(Debug)]
pub struct UserView {
    pub id: String,
    pub username: String,
    pub email: String,
    /// The stored hash is deliberately part of the service-level view;
    /// the gateway strips it before a payload leaves externally. The
    /// plaintext secret and the private key are never in any view.
    pub credential_hash: String,
    pub dob: DateDmy,
    pub mobile_number: String,
    pub wallet_address: String,
}

impl View for UserView {
    type V = UserViewV;

    open spec fn view(&self) -> UserViewV {
        UserViewV {
            id: self.id@,
            username: self.username@,
            email: self.email@,
            credential_hash: self.credential_hash@,
            dob: self.dob,
            mobile_number: self.mobile_number@,
            wallet_address: self.wallet_address@,
        }
    }
}

/// The view that a stored record presents to callers: all its fields but
/// the wallet private key.
pub open spec fn view_of_record(r: UserRecordV) -> UserViewV {
    UserViewV {
        id: r.id,
        username: r.username,
        email: r.email,
        credential_hash: r.credential_hash,
        dob: r.dob,
        mobile_number: r.mobile_number,
        wallet_address: r.wallet_address,
    }
}

impl UserRecord {
    /// Builds the caller-facing view of this record.
    pub fn to_view(&self) -> (v: UserView)
        ensures
            v@ == view_of_record(self@),
    {
        UserView {
            id: self.id.clone(),
            username: self.username.clone(),
            email: self.email.clone(),
            credential_hash: self.credential_hash.clone(),
            dob: self.dob,
            mobile_number: self.mobile_number.clone(),
            wallet_address: self.wallet_address.clone(),
        }
    }
}

/// The view of a record does not depend on the wallet private key: two
/// records that agree on every other field present the same view. No
/// response payload built from a view can therefore carry the key.
pub proof fn lemma_view_hides_private_key(r1: UserRecordV, r2: UserRecordV)
    requires
        r1 == (UserRecordV { wallet_private_key: r1.wallet_private_key, ..r2 }),
    ensures
        view_of_record(r1) == view_of_record(r2),
{
}

} // verus!
