//! A verified user-registration core: user records with globally unique
//! username, email, mobile number and wallet address; credential hashing;
//! wallet key generation; and a service that creates and looks up users
//! behind a small, closed error taxonomy.

use vstd::prelude::*;

mod credentials;
mod dates;
mod errors;
mod gateway;
mod ids;
mod laws;
mod records;
mod repository;
mod service;
mod wallet_keys;
mod wallet_service;

pub use credentials::bcrypt_check;
pub use credentials::credential_matches;
pub use credentials::hash_credential;
pub use dates::DateDmy;
pub use dates::parse_dob;
pub use dates::parsed_date;
pub use errors::UserError;
pub use errors::http_status_of;
pub use gateway::PublicUserPayload;
pub use gateway::PublicUserPayloadV;
pub use gateway::external_payload_of;
pub use gateway::lemma_payload_hides_credential_hash;
pub use gateway::sanitize_view;
pub use ids::uuid_value;
pub use laws::lemma_at_most_one_record;
pub use laws::lemma_created_user_found;
pub use laws::lemma_repeated_request_conflicts;
pub use laws::lemma_unmatched_request_accepted;
pub use records::UserRecord;
pub use records::UserRecordV;
pub use records::UserView;
pub use records::UserViewV;
pub use records::lemma_view_hides_private_key;
pub use records::view_of_record;
pub use repository::UserRepository;
pub use repository::blocks;
pub use repository::conflicts_with;
pub use repository::distinct_keys;
pub use repository::insert_blocked;
pub use repository::record_matches;
pub use repository::repo_wf;
pub use service::CreateUserInput;
pub use service::CreateUserInputV;
pub use service::MyUserService;
pub use service::make_record;
pub use wallet_keys::generate_wallet;
pub use wallet_service::MyWalletService;
pub use wallet_service::WalletRecord;
pub use wallet_service::WalletRecordV;
pub use wallet_service::wallet_keys_distinct;
