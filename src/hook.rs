//! Webhook records, push payloads, and the check of a payload's signature.
use vstd::prelude::*;
use std::collections::HashMap;
use vstd::string::{StrSliceExecFns, StringSliceAdditionalSpecFns};
use crate::datetime::Timestamp;
use crate::repo::Repository;
use crate::user::User;

verus! {

/// The options for creating a webhook. The `config` map needs at least the
/// `url` and `content_type` keys.
#[derive(Debug, Clone)]
pub struct CreateHookOption {
    pub type_: String,
    pub config: HashMap<String, String>,
    pub events: Vec<String>,
    pub branch_filter: String,
    pub active: bool,
}

/// A webhook, called back when a repository changes.
#[derive(Debug)]
pub struct Hook {
    pub id: i64,
    pub type_: String,
    pub config: HashMap<String, String>,
    pub events: Vec<String>,
    pub active: bool,
    pub updated_at: Timestamp,
    pub created_at: Timestamp,
}

/// A person named in a push payload.
#[derive(Debug, Clone)]
pub struct PayloadUser {
    pub name: String,
    pub email: String,
    pub username: String,
}

/// A commit named in a push payload.
#[derive(Debug)]
pub struct PayloadCommit {
    pub id: String,
    pub message: String,
    pub url: String,
    pub author: PayloadUser,
    pub committer: PayloadUser,
    pub verification: Option<PayloadCommitVerification>,
    pub timestamp: Timestamp,
    pub added: Option<Vec<String>>,
    pub removed: Option<Vec<String>>,
    pub modified: Option<Vec<String>>,
}

/// The signature check of a commit in a push payload.
#[derive(Debug, Clone)]
pub struct PayloadCommitVerification {
    pub verified: bool,
    pub reason: String,
    pub signature: String,
    pub signer: PayloadUser,
    pub payload: String,
}

/// The body of a push event delivered to a webhook.
#[derive(Debug)]
pub struct PushPayload {
    pub ref_: String,
    pub before: String,
    pub after: String,
    pub compare_url: String,
    pub commits: Vec<PayloadCommit>,
    pub head_commit: PayloadCommit,
    pub repository: Repository,
    pub pusher: User,
    pub sender: User,
}

/// The HMAC-SHA256 tag of `message` under `key`.
pub uninterp spec fn hmac_sha256(key: Seq<u8>, message: Seq<u8>) -> Seq<u8>;

/// The standard base64 encoding of `bytes`, with padding.
pub uninterp spec fn base64_standard(bytes: Seq<u8>) -> Seq<char>;

/// Relies on `hmac::Hmac<sha2::Sha256>` (`new_from_slice`, `update`,
/// `finalize`): the tag depends on the key and the message alone, and
/// `new_from_slice` accepts a key of any length.
#[verifier::external_body]
fn hmac_sha256_tag(key: &[u8], message: &[u8]) -> (r: Vec<u8>)
    ensures
        r@ == hmac_sha256(key@, message@),
{
    let mut mac = <hmac::Hmac<sha2::Sha256> as hmac::NewMac>::new_from_slice(key).expect(
        "HMAC can take key of any size",
    );
    hmac::Mac::update(&mut mac, message);
    hmac::Mac::finalize(mac).into_bytes().to_vec()
}

/// Relies on `base64::encode`: the standard alphabet with padding, a
/// function of the bytes alone.
#[verifier::external_body]
fn base64_encode(bytes: &[u8]) -> (r: String)
    ensures
        r@ == base64_standard(bytes@),
{
    base64::encode(bytes)
}

/// The signature that a payload signed with `secret_key` carries.
pub open spec fn expected_signature(secret_key: Seq<u8>, payload: Seq<u8>) -> Seq<char> {
    base64_standard(hmac_sha256(secret_key, payload))
}

/// Compares the encoded tag of a payload with the signature delivered
/// beside it.
pub fn signature_matches(encoded_tag: &str, signature: &str) -> (r: bool)
    ensures
        r == (encoded_tag@ == signature@),
{
    String::from_str(encoded_tag) == String::from_str(signature)
}

/// Whether `signature` is the base64 encoding of the HMAC-SHA256 tag of
/// `payload` under the UTF-8 bytes of `secret_key`.
pub fn verify_signature(secret_key: &str, payload: &[u8], signature: &str) -> (r: bool)
    ensures
        r == (signature@ == expected_signature(secret_key.spec_bytes(), payload@)),
{
    let key = secret_key.as_bytes_vec();
    let tag = hmac_sha256_tag(key.as_slice(), payload);
    let encoded = base64_encode(tag.as_slice());
    signature_matches(encoded.as_str(), signature)
}

} // verus!
