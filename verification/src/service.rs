//! The user service: orchestrates date validation, the conflict
//! pre-check, key-pair generation, credential hashing and persistence
//! behind a request/response contract, and classifies every failure into
//! the closed error taxonomy.

use vstd::prelude::*;
use crate::credentials::bcrypt_check;
use crate::credentials::hash_credential;
use crate::dates::DateDmy;
use crate::dates::parse_dob;
use crate::dates::parsed_date;
use crate::errors::UserError;
use crate::ids::fresh_uuid;
use crate::ids::parse_uuid;
use crate::ids::uuid_value;
use crate::records::UserRecord;
use crate::records::UserRecordV;
use crate::records::UserView;
use crate::records::view_of_record;
use crate::repository::UserRepository;
use crate::repository::conflicts_with;
use crate::repository::insert_blocked;
use crate::wallet_keys::generate_wallet;

verus! {

/// The abstract value of a creation request.
pub ghost struct CreateUserInputV {
    pub username: Seq<char>,
    pub email: Seq<char>,
    pub password: Seq<char>,
    pub dob: Seq<char>,
    pub mobile_number: Seq<char>,
}

/// A user-creation request: the caller-supplied fields, with the date of
/// birth still in its textual `DD-MM-YYYY` form.
pub struct CreateUserInput {
    pub username: String,
    pub email: String,
    pub password: String,
    pub dob: String,
    pub mobile_number: String,
}

impl View for CreateUserInput {
    type V = CreateUserInputV;

    open spec fn view(&self) -> CreateUserInputV {
        CreateUserInputV {
            username: self.username@,
            email: self.email@,
            password: self.password@,
            dob: self.dob@,
            mobile_number: self.mobile_number@,
        }
    }
}

/// The record that a creation request assembles once the date has parsed
/// and the generated materials (identifier, key pair, credential hash)
/// are fixed.
pub open spec fn make_record(
    inp: CreateUserInputV,
    dob: DateDmy,
    id: Seq<char>,
    id_num: u128,
    credential_hash: Seq<char>,
    wallet_address: Seq<char>,
    wallet_private_key: Seq<char>,
) -> UserRecordV {
    UserRecordV {
        id: id,
        id_num: id_num,
        username: inp.username,
        email: inp.email,
        credential_hash: credential_hash,
        dob: dob,
        mobile_number: inp.mobile_number,
        wallet_address: wallet_address,
        wallet_private_key: wallet_private_key,
    }
}

/// The user service over the durable store.
pub struct MyUserService {
    pub repo: UserRepository,
}

impl MyUserService {
    /// The service invariant: the store's invariant.
    pub open spec fn wf(&self) -> bool {
        self.repo.wf()
    }

    /// The records the service currently holds.
    pub open spec fn records(&self) -> Seq<UserRecordV> {
        self.repo@
    }

    /// A service over an empty store.
    pub fn new() -> (r: Self)
        ensures
            r.records() == Seq::<UserRecordV>::empty(),
            r.wf(),
    {
        MyUserService { repo: UserRepository::new() }
    }

    /// The number of persisted records.
    pub fn user_count(&self) -> (n: usize)
        ensures
            n == self.records().len(),
    {
        self.repo.len()
    }

    /// Persists the record assembled from a request and already-fixed
    /// materials, or rejects it against the store's uniqueness
    /// constraints. This is the step past the advisory pre-check: the
    /// store constraint decides, and a violation is `ConflictError`.
    pub fn create_user_with_materials(
        &mut self,
        input: &CreateUserInput,
        dob: DateDmy,
        id: String,
        id_num: u128,
        credential_hash: String,
        wallet_address: String,
        wallet_private_key: String,
    ) -> (r: Result<UserView, UserError>)
        requires
            old(self).wf(),
            uuid_value(id@) == Some(id_num),
            dob.wf(),
        ensures
            final(self).wf(),
            ({
                let rec = make_record(
                    input@,
                    dob,
                    id@,
                    id_num,
                    credential_hash@,
                    wallet_address@,
                    wallet_private_key@,
                );
                match r {
                    Ok(v) => !insert_blocked(old(self).records(), rec)
                        && final(self).records() == old(self).records().push(rec)
                        && v@ == view_of_record(rec),
                    Err(e) => e == UserError::ConflictError
                        && insert_blocked(old(self).records(), rec)
                        && final(self).records() == old(self).records(),
                }
            }),
    {
        let rec = UserRecord {
            id: id,
            id_num: id_num,
            username: input.username.clone(),
            email: input.email.clone(),
            credential_hash: credential_hash,
            dob: dob,
            mobile_number: input.mobile_number.clone(),
            wallet_address: wallet_address,
            wallet_private_key: wallet_private_key,
        };
        let v = rec.to_view();
        match self.repo.insert(rec) {
            Ok(_) => Ok(v),
            Err(e) => Err(e),
        }
    }

    /// Creates a user: validates the date of birth before any side
    /// effect, runs the advisory conflict pre-check, generates the key
    /// pair, hashes the credential, and persists the assembled record.
    /// The request is atomic: either one fully formed record is appended
    /// and its view (without the private key) returned, or nothing is
    /// persisted and the failure is classified.
    pub fn create_user(&mut self, input: &CreateUserInput) -> (r: Result<UserView, UserError>)
        requires
            old(self).wf(),
        ensures
            final(self).wf(),
            r is Err ==> final(self).records() == old(self).records(),
            r == Err::<UserView, UserError>(UserError::ValidationError)
                <==> parsed_date(input@.dob) is None,
            parsed_date(input@.dob) is Some
                && conflicts_with(old(self).records(), input@.username, input@.email, input@.mobile_number)
                ==> r == Err::<UserView, UserError>(UserError::ConflictError),
            r == Err::<UserView, UserError>(UserError::InternalError)
                ==> !conflicts_with(old(self).records(), input@.username, input@.email, input@.mobile_number),
            r != Err::<UserView, UserError>(UserError::NotFoundError),
            r matches Ok(v) ==> parsed_date(input@.dob)
                    == Some((v@.dob.year as int, v@.dob.month as int, v@.dob.day as int))
                && !conflicts_with(old(self).records(), input@.username, input@.email, input@.mobile_number)
                && v@.username == input@.username
                && v@.email == input@.email
                && v@.mobile_number == input@.mobile_number
                && bcrypt_check(input@.password, v@.credential_hash) == Some(true)
                && v@.credential_hash.len() == 60
                && v@.credential_hash[0] == '$'
                && uuid_value(v@.id) is Some
                && v@.wallet_address.len() == 42
                && exists |rec: UserRecordV|
                    final(self).records() == #[trigger] old(self).records().push(rec)
                        && rec.wf()
                        && view_of_record(rec) == v@
                        && !insert_blocked(old(self).records(), rec),
    {
        let dob = match parse_dob(input.dob.as_str()) {
            Some(d) => d,
            None => {
                return Err(UserError::ValidationError);
            },
        };
        if self.repo.check_conflict(&input.username, &input.email, &input.mobile_number) {
            return Err(UserError::ConflictError);
        }
        let keys = generate_wallet();
        let credential_hash = match hash_credential(input.password.as_str()) {
            Ok(h) => h,
            Err(e) => {
                return Err(e);
            },
        };
        let ids = fresh_uuid();
        self.create_user_with_materials(input, dob, ids.0, ids.1, credential_hash, keys.0, keys.1)
    }

    /// Looks a user up by textual identifier: `ValidationError` exactly on
    /// malformed identifiers, the stored record's view where the parsed
    /// identifier is persisted, and `NotFoundError` where it is not.
    pub fn get_user(&self, id: &str) -> (r: Result<UserView, UserError>)
        ensures
            r == Err::<UserView, UserError>(UserError::ValidationError)
                <==> uuid_value(id@) is None,
            r matches Err(e) ==> e == UserError::ValidationError || e == UserError::NotFoundError,
            uuid_value(id@) matches Some(n) ==> {
                &&& r matches Ok(v) ==> exists |i: int|
                    0 <= i < self.records().len()
                        && #[trigger] self.records()[i].id_num == n
                        && v@ == view_of_record(self.records()[i])
                &&& r is Ok <==> exists |i: int|
                    0 <= i < self.records().len() && #[trigger] self.records()[i].id_num == n
            },
    {
        let n = match parse_uuid(id) {
            Some(n) => n,
            None => {
                return Err(UserError::ValidationError);
            },
        };
        match self.repo.find_by_id(n) {
            Ok(rec) => {
                let v = rec.to_view();
                proof {
                    let i = choose |i: int|
                        0 <= i < self.records().len()
                            && #[trigger] self.records()[i].id_num == n
                            && rec@ == self.records()[i];
                    assert(self.records()[i].id_num == n
                        && v@ == view_of_record(self.records()[i]));
                }
                Ok(v)
            },
            Err(e) => Err(e),
        }
    }
}

} // verus!
