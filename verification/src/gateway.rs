//! The gateway boundary contract: what an HTTP front proxies outward.
//!
//! The gateway maps the error taxonomy to HTTP status codes (see
//! `http_status_of`) and, on the create path, strips the credential hash
//! from any payload it proxies externally; the private key is already
//! absent from every view.

use vstd::prelude::*;
use crate::dates::DateDmy;
use crate::records::UserView;
use crate::records::UserViewV;

verus! {

/// The abstract value of an externally proxied payload.
pub ghost struct PublicUserPayloadV {
    pub id: Seq<char>,
    pub username: Seq<char>,
    pub email: Seq<char>,
    pub dob: DateDmy,
    pub mobile_number: Seq<char>,
    pub wallet_address: Seq<char>,
}

/// A payload fit for untrusted callers: the service view with the
/// credential hash stripped. Neither this type nor [`UserView`] can carry
/// the wallet private key.
#[derive(Debug)]
pub struct PublicUserPayload {
    pub id: String,
    pub username: String,
    pub email: String,
    pub dob: DateDmy,
    pub mobile_number: String,
    pub wallet_address: String,
}

impl View for PublicUserPayload {
    type V = PublicUserPayloadV;

    open spec fn view(&self) -> PublicUserPayloadV {
        PublicUserPayloadV {
            id: self.id@,
            username: self.username@,
            email: self.email@,
            dob: self.dob,
            mobile_number: self.mobile_number@,
            wallet_address: self.wallet_address@,
        }
    }
}

/// The payload a view presents externally: every field of the view but
/// the credential hash.
pub open spec fn external_payload_of(v: UserViewV) -> PublicUserPayloadV {
    PublicUserPayloadV {
        id: v.id,
        username: v.username,
        email: v.email,
        dob: v.dob,
        mobile_number: v.mobile_number,
        wallet_address: v.wallet_address,
    }
}

/// Strips the credential hash from a service view for external proxying.
pub fn sanitize_view(v: &UserView) -> (p: PublicUserPayload)
    ensures
        p@ == external_payload_of(v@),
{
    PublicUserPayload {
        id: v.id.clone(),
        username: v.username.clone(),
        email: v.email.clone(),
        dob: v.dob,
        mobile_number: v.mobile_number.clone(),
        wallet_address: v.wallet_address.clone(),
    }
}

/// The external payload does not depend on the credential hash: two views
/// that agree on every other field proxy the same payload outward.
pub proof fn lemma_payload_hides_credential_hash(v1: UserViewV, v2: UserViewV)
    requires
        v1 == (UserViewV { credential_hash: v1.credential_hash, ..v2 }),
    ensures
        external_payload_of(v1) == external_payload_of(v2),
{
}

} // verus!
