//! The published signing keys of the authorization server.
//!
//! A key set is held as `jsonwebtoken::jwk::JwkSet`. The library reads from a
//! key of the set only its key id, the algorithm it advertises, its family
//! and, for an RSA key, modulus and exponent: a `KeyRecord`.

use vstd::prelude::*;
use jsonwebtoken::jwk::{AlgorithmParameters, JwkSet};

verus! {

/// `jsonwebtoken::jwk::JwkSet`: the proofs know of it what `key_records` and `key_set_text` say.
#[verifier::external_type_specification]
#[verifier::external_body]
pub struct ExJwkSet(jsonwebtoken::jwk::JwkSet);

/// `jsonwebtoken::Algorithm`: the proofs know of it what `algorithm_name` says.
#[verifier::external_type_specification]
#[verifier::external_body]
pub struct ExAlgorithm(jsonwebtoken::Algorithm);

/// The algorithms that a token can be signed with.
pub ghost enum SigningAlgorithm {
    HS256,
    HS384,
    HS512,
    ES256,
    ES384,
    RS256,
    RS384,
    RS512,
    PS256,
    PS384,
    PS512,
    EdDSA,
}

/// Which of the signing algorithms an `Algorithm` is.
pub uninterp spec fn algorithm_name(algorithm: jsonwebtoken::Algorithm) -> SigningAlgorithm;

/// `serde_json::Error`: only its text is taken from it.
#[verifier::external_type_specification]
#[verifier::external_body]
pub struct ExJsonError(serde_json::Error);

/// The family of a published key, with the public components of an RSA key.
#[derive(Debug)]
pub enum KeyFamily {
    EllipticCurve,
    Rsa { modulus: String, exponent: String },
    OctetKey,
    OctetKeyPair,
}

/// The family of a key as mathematical values.
pub ghost enum KeyFamilyView {
    EllipticCurve,
    Rsa { modulus: Seq<char>, exponent: Seq<char> },
    OctetKey,
    OctetKeyPair,
}

impl View for KeyFamily {
    type V = KeyFamilyView;

    open spec fn view(&self) -> KeyFamilyView {
        match self {
            KeyFamily::EllipticCurve => KeyFamilyView::EllipticCurve,
            KeyFamily::Rsa { modulus, exponent } => KeyFamilyView::Rsa {
                modulus: modulus@,
                exponent: exponent@,
            },
            KeyFamily::OctetKey => KeyFamilyView::OctetKey,
            KeyFamily::OctetKeyPair => KeyFamilyView::OctetKeyPair,
        }
    }
}

/// What the library reads from one key of a key set.
#[derive(Debug)]
pub struct KeyRecord {
    pub key_id: Option<String>,
    pub algorithm: Option<jsonwebtoken::Algorithm>,
    pub family: KeyFamily,
}

/// A key record as mathematical values.
pub ghost struct KeyRecordView {
    pub key_id: Option<Seq<char>>,
    pub algorithm: Option<SigningAlgorithm>,
    pub family: KeyFamilyView,
}

impl View for KeyRecord {
    type V = KeyRecordView;

    open spec fn view(&self) -> KeyRecordView {
        KeyRecordView {
            key_id: match self.key_id {
                Some(id) => Some(id@),
                None => None,
            },
            algorithm: match self.algorithm {
                Some(algorithm) => Some(algorithm_name(algorithm)),
                None => None,
            },
            family: self.family@,
        }
    }
}

/// The keys of a key set, in the order in which the set lists them.
pub uninterp spec fn key_records(set: JwkSet) -> Seq<KeyRecordView>;

/// The key set that a cached text stands for, if the text is one.
pub uninterp spec fn key_set_of_text(text: Seq<char>) -> Option<Seq<KeyRecordView>>;

/// The key set that a fetched document stands for, if the document is one.
pub uninterp spec fn key_set_of_bytes(body: Seq<u8>) -> Option<Seq<KeyRecordView>>;

/// The text under which a key set is cached, if it can be written as text.
pub uninterp spec fn key_set_text(set: JwkSet) -> Option<Seq<char>>;

/// The first key whose key id is `kid`. A key without a key id matches no `kid`.
pub open spec fn select_key(records: Seq<KeyRecordView>, kid: Seq<char>) -> Option<KeyRecordView>
    decreases records.len(),
{
    if records.len() == 0 {
        None
    } else if records[0].key_id == Some(kid) {
        Some(records[0])
    } else {
        select_key(records.drop_first(), kid)
    }
}

/// `JwkSet::find`, with the key that it finds read into a `KeyRecord`: the first
/// key of the set whose key id is `kid`, if there is one.
#[verifier::external_body]
pub(crate) fn find_key(set: &JwkSet, kid: &str) -> (found: Option<KeyRecord>)
    ensures
        match select_key(key_records(*set), kid@) {
            Some(record) => found matches Some(key) && key@ == record,
            None => found is None,
        },
{
    let jwk = set.find(kid)?;
    let family = match &jwk.algorithm {
        AlgorithmParameters::EllipticCurve(_) => KeyFamily::EllipticCurve,
        AlgorithmParameters::RSA(rsa) => KeyFamily::Rsa {
            modulus: rsa.n.clone(),
            exponent: rsa.e.clone(),
        },
        AlgorithmParameters::OctetKey(_) => KeyFamily::OctetKey,
        AlgorithmParameters::OctetKeyPair(_) => KeyFamily::OctetKeyPair,
    };
    Some(KeyRecord { key_id: jwk.common.key_id.clone(), algorithm: jwk.common.algorithm, family })
}

/// `serde_json::from_str` at `JwkSet`: succeeds on the texts that are a key
/// set, and the same text always gives the same keys.
#[verifier::external_body]
pub(crate) fn parse_key_set(text: &str) -> (parsed: Result<
    JwkSet,
    serde_json::Error,
>)
    ensures
        match parsed {
            Ok(set) => key_set_of_text(text@) == Some(key_records(set)),
            Err(_) => key_set_of_text(text@) is None,
        },
{
    serde_json::from_str::<JwkSet>(text)
}

/// `serde_json::from_slice` at `JwkSet`: succeeds on the documents that are a
/// key set, and the same bytes always give the same keys.
#[verifier::external_body]
pub(crate) fn parse_key_set_bytes(body: &[u8]) -> (parsed: Result<
    JwkSet,
    serde_json::Error,
>)
    ensures
        match parsed {
            Ok(set) => key_set_of_bytes(body@) == Some(key_records(set)),
            Err(_) => key_set_of_bytes(body@) is None,
        },
{
    serde_json::from_slice::<JwkSet>(body)
}

/// `serde_json::to_string` at `JwkSet`: the same key set always gives the same text.
#[verifier::external_body]
pub(crate) fn encode_key_set(set: &JwkSet) -> (encoded: Result<
    String,
    serde_json::Error,
>)
    ensures
        match encoded {
            Ok(text) => key_set_text(*set) == Some(text@),
            Err(_) => key_set_text(*set) is None,
        },
{
    serde_json::to_string(set)
}

/// The `Display` text of a `serde_json::Error`. Nothing is claimed of it.
#[verifier::external_body]
pub(crate) fn json_error_text(err: &serde_json::Error) -> String {
    err.to_string()
}

/// `select_key` finds the first key with the key id, and finds none only
/// where no key of the set has it.
pub proof fn lemma_select_key_is_first_match(records: Seq<KeyRecordView>, kid: Seq<char>)
    ensures
        match select_key(records, kid) {
            Some(key) => exists|at: int|
                {
                    &&& 0 <= at < records.len()
                    &&& #[trigger] records[at] == key
                    &&& key.key_id == Some(kid)
                    &&& forall|before: int|
                        0 <= before < at ==> (#[trigger] records[before]).key_id != Some(kid)
                },
            None => forall|at: int|
                0 <= at < records.len() ==> (#[trigger] records[at]).key_id != Some(kid),
        },
    decreases records.len(),
{
    if records.len() == 0 {
    } else if records[0].key_id == Some(kid) {
        assert(records[0] == select_key(records, kid)->0);
    } else {
        let rest = records.drop_first();
        lemma_select_key_is_first_match(rest, kid);
        match select_key(rest, kid) {
            Some(key) => {
                let at = choose|at: int|
                    {
                        &&& 0 <= at < rest.len()
                        &&& #[trigger] rest[at] == key
                        &&& key.key_id == Some(kid)
                        &&& forall|before: int|
                            0 <= before < at ==> (#[trigger] rest[before]).key_id != Some(kid)
                    };
                assert(records[at + 1] == key);
                assert forall|before: int| 0 <= before < at + 1 implies (
                #[trigger] records[before]).key_id != Some(kid) by {
                    if before > 0 {
                        assert(rest[before - 1] == records[before]);
                    }
                }
            },
            None => {
                assert forall|at: int| 0 <= at < records.len() implies (
                #[trigger] records[at]).key_id != Some(kid) by {
                    if at > 0 {
                        assert(rest[at - 1] == records[at]);
                    }
                }
            },
        }
    }
}

} // verus!
