//! Request identifiers, labeled hash trees and certificate checks for a
//! replicated compute platform's client.
pub mod agent;
pub mod bytes;
pub mod cbor;
pub mod certificate;
pub mod certification;
pub mod error;
pub mod hash_tree;
pub mod identity;
pub mod principal;
pub mod request_id;

pub use agent::{
    construct_message, expiry_date_at, get_expiry_date, read_state_content, read_state_request_id,
    sign, to_request_id,
    update_content, CallRequestContent, ReadStateContent, SignedUpdate,
};
pub use certificate::{Certificate, Delegation};
pub use certification::{lookup_value, signature_checks_passed, verify, SignatureCheck};
pub use error::AgentError;
pub use hash_tree::{lookup_path, HashTree, Label, LookupResult};
pub use identity::{AnonymousIdentity, Identity, Signature};
pub use principal::{principal_is_within_ranges, Principal};
pub use request_id::{request_id_of_fields, RequestField, RequestId, RequestValue};
