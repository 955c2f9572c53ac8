use std::collections::HashMap;

use axum_template::config::OauthSettings;
use axum_template::dto::{BearerToken, Claims, UserInfo};
use axum_template::exchange::{Reply, Request, Step};
use axum_template::key_cache::{begin, resume, KeyCacheState};
use axum_template::profile_cache::{profile_cache_key, UserInfoState};
use axum_template::redis::CacheCommand;
use axum_template::token_verifier::ClaimsState;
use axum_template::AppError;
use jsonwebtoken::jwk::JwkSet;
use jsonwebtoken::{Algorithm, EncodingKey, Header};
use serde_json::{Number, Value};

const FAR_FUTURE: i64 = 4_102_444_800;
const MODULUS: &str = "lm257SchBr3UIixteCVFoOcqPaZajY9eQa3aXLdMXKyBGfQL_LCvMJmqh3iNIczOEk7yCrJXNQZZXI65JCMaHWjIcny5sJ2bZtouEgH2cfsRAMDT_scA9GVOkdyf17TNhB6nJ5VpX1tMpbTTUqxHTJQWLh6JyuR-bGRt_nKrVituJWNyMtpxVCxyHbH1fYeX_qdlMleM9FrgplFM1jnav3ypbFWph-8wYcgPT9uPEnB3zwXhQn7zV5HhameXIpR22chZdwQ5Qpf9p88QXy9hHi3QnhJRyVNKy13Ox8-1OcqGl3VARrFiW9Jd8zrJqzSV00rskZJ4SgCORY2zPjum9w";

fn signer() -> Vec<u8> {
    vec![
        48, 130, 4, 163, 2, 1, 0, 2, 130, 1, 1, 0, 150, 109, 185, 237, 39, 33, 6, 189, 212, 34, 44, 109,
        120, 37, 69, 160, 231, 42, 61, 166, 90, 141, 143, 94, 65, 173, 218, 92, 183, 76, 92, 172, 129,
        25, 244, 11, 252, 176, 175, 48, 153, 170, 135, 120, 141, 33, 204, 206, 18, 78, 242, 10, 178, 87,
        53, 6, 89, 92, 142, 185, 36, 35, 26, 29, 104, 200, 114, 124, 185, 176, 157, 155, 102, 218, 46,
        18, 1, 246, 113, 251, 17, 0, 192, 211, 254, 199, 0, 244, 101, 78, 145, 220, 159, 215, 180, 205,
        132, 30, 167, 39, 149, 105, 95, 91, 76, 165, 180, 211, 82, 172, 71, 76, 148, 22, 46, 30, 137,
        202, 228, 126, 108, 100, 109, 254, 114, 171, 86, 43, 110, 37, 99, 114, 50, 218, 113, 84, 44,
        114, 29, 177, 245, 125, 135, 151, 254, 167, 101, 50, 87, 140, 244, 90, 224, 166, 81, 76, 214,
        57, 218, 191, 124, 169, 108, 85, 169, 135, 239, 48, 97, 200, 15, 79, 219, 143, 18, 112, 119,
        207, 5, 225, 66, 126, 243, 87, 145, 225, 106, 103, 151, 34, 148, 118, 217, 200, 89, 119, 4, 57,
        66, 151, 253, 167, 207, 16, 95, 47, 97, 30, 45, 208, 158, 18, 81, 201, 83, 74, 203, 93, 206,
        199, 207, 181, 57, 202, 134, 151, 117, 64, 70, 177, 98, 91, 210, 93, 243, 58, 201, 171, 52, 149,
        211, 74, 236, 145, 146, 120, 74, 0, 142, 69, 141, 179, 62, 59, 166, 247, 2, 3, 1, 0, 1, 2, 130,
        1, 0, 74, 103, 37, 66, 14, 75, 128, 137, 29, 198, 117, 81, 3, 206, 243, 156, 125, 25, 224, 122,
        74, 105, 160, 18, 207, 203, 140, 168, 181, 36, 184, 229, 189, 201, 55, 115, 66, 93, 165, 153,
        21, 56, 74, 95, 46, 247, 27, 212, 133, 43, 180, 253, 227, 109, 204, 213, 66, 23, 204, 163, 248,
        34, 192, 132, 241, 81, 203, 134, 179, 85, 142, 238, 209, 53, 114, 250, 7, 44, 124, 253, 224, 80,
        14, 16, 13, 1, 35, 16, 190, 150, 217, 0, 85, 179, 28, 67, 86, 104, 206, 230, 126, 57, 43, 39,
        254, 70, 43, 165, 38, 75, 253, 203, 251, 166, 232, 210, 195, 246, 173, 131, 118, 91, 74, 40, 67,
        81, 73, 129, 217, 64, 205, 208, 87, 144, 10, 216, 215, 152, 28, 248, 199, 35, 251, 23, 181, 191,
        243, 102, 206, 183, 75, 95, 38, 120, 208, 157, 223, 189, 108, 212, 177, 192, 91, 3, 158, 180,
        201, 9, 131, 44, 71, 141, 214, 235, 128, 19, 39, 100, 169, 143, 119, 4, 240, 27, 238, 115, 246,
        152, 36, 147, 81, 65, 175, 51, 2, 11, 236, 119, 42, 245, 11, 151, 225, 77, 70, 30, 230, 249,
        131, 9, 20, 106, 232, 103, 33, 172, 19, 111, 110, 106, 95, 68, 223, 175, 192, 186, 122, 42, 106,
        238, 39, 83, 16, 83, 88, 197, 129, 16, 127, 67, 235, 162, 178, 97, 92, 235, 244, 224, 171, 50,
        74, 197, 17, 7, 213, 153, 2, 129, 129, 0, 207, 124, 23, 213, 49, 235, 129, 106, 68, 102, 115,
        106, 192, 167, 85, 211, 229, 254, 182, 216, 25, 20, 187, 60, 101, 137, 234, 193, 249, 149, 171,
        100, 4, 145, 194, 62, 140, 107, 7, 62, 25, 193, 64, 237, 197, 185, 44, 233, 43, 166, 159, 133,
        71, 132, 159, 231, 161, 148, 19, 214, 208, 139, 122, 172, 26, 237, 235, 170, 134, 4, 196, 207,
        12, 73, 169, 193, 216, 161, 69, 14, 241, 108, 248, 168, 143, 196, 211, 6, 60, 23, 86, 199, 135,
        28, 36, 189, 221, 94, 157, 169, 81, 1, 231, 24, 132, 120, 160, 241, 42, 220, 201, 105, 98, 252,
        151, 63, 210, 178, 146, 22, 136, 151, 54, 250, 90, 139, 170, 229, 2, 129, 129, 0, 185, 154, 74,
        24, 134, 213, 112, 199, 134, 88, 80, 135, 235, 19, 65, 178, 166, 221, 137, 209, 250, 112, 103,
        97, 43, 86, 120, 131, 10, 91, 170, 56, 15, 70, 127, 184, 80, 59, 17, 164, 173, 151, 81, 119, 89,
        135, 232, 118, 19, 187, 39, 43, 118, 2, 210, 156, 237, 63, 31, 68, 14, 172, 250, 118, 87, 43,
        25, 200, 239, 94, 100, 126, 197, 183, 235, 23, 172, 112, 59, 121, 10, 39, 237, 209, 118, 95,
        207, 239, 219, 119, 147, 187, 38, 146, 193, 177, 135, 16, 45, 168, 135, 243, 182, 237, 105, 185,
        62, 137, 115, 42, 15, 62, 19, 36, 43, 0, 238, 73, 91, 89, 126, 244, 223, 78, 217, 166, 128, 171,
        2, 129, 129, 0, 169, 170, 40, 246, 254, 62, 61, 114, 127, 130, 99, 136, 253, 7, 24, 233, 16,
        223, 11, 247, 131, 242, 238, 245, 1, 119, 25, 16, 11, 158, 247, 42, 239, 141, 157, 144, 118, 84,
        162, 244, 134, 45, 0, 130, 46, 184, 48, 224, 111, 0, 110, 219, 150, 210, 253, 203, 116, 214, 88,
        174, 197, 147, 248, 249, 57, 128, 42, 193, 35, 156, 76, 175, 158, 181, 177, 234, 64, 210, 7, 93,
        163, 208, 95, 57, 191, 110, 204, 189, 1, 112, 120, 86, 234, 197, 249, 201, 132, 118, 245, 103,
        218, 69, 59, 11, 82, 112, 45, 243, 104, 0, 105, 119, 19, 41, 200, 40, 185, 139, 170, 104, 96,
        195, 126, 130, 148, 126, 55, 125, 2, 129, 128, 11, 109, 95, 112, 129, 36, 181, 11, 227, 206,
        158, 46, 176, 31, 128, 101, 2, 119, 19, 92, 53, 66, 36, 107, 76, 34, 199, 202, 177, 161, 145,
        42, 96, 110, 99, 192, 178, 87, 224, 175, 53, 236, 226, 28, 42, 11, 255, 24, 254, 0, 0, 218, 97,
        42, 173, 82, 242, 28, 119, 205, 85, 229, 250, 137, 188, 182, 47, 161, 58, 115, 162, 86, 87, 208,
        10, 14, 108, 20, 128, 228, 227, 230, 47, 115, 61, 9, 139, 32, 230, 111, 71, 78, 55, 130, 195,
        160, 45, 131, 166, 124, 0, 218, 213, 129, 106, 135, 248, 60, 184, 53, 119, 184, 199, 174, 235,
        98, 228, 72, 233, 241, 233, 170, 35, 241, 147, 222, 247, 127, 2, 129, 128, 60, 207, 226, 90, 26,
        157, 137, 25, 56, 146, 249, 72, 198, 224, 90, 198, 224, 242, 152, 215, 231, 226, 2, 137, 197,
        26, 166, 213, 206, 248, 202, 21, 246, 61, 110, 82, 14, 8, 102, 32, 116, 232, 56, 147, 145, 32,
        33, 240, 23, 221, 236, 11, 147, 205, 120, 195, 8, 240, 162, 128, 119, 247, 137, 168, 227, 205,
        8, 2, 80, 183, 114, 170, 141, 219, 27, 28, 133, 228, 218, 218, 171, 13, 85, 237, 238, 102, 2,
        251, 28, 203, 220, 125, 24, 96, 102, 36, 178, 182, 118, 246, 3, 202, 57, 247, 76, 86, 2, 208,
        26, 154, 11, 189, 231, 240, 199, 230, 170, 213, 226, 148, 156, 169, 46, 188, 138, 203, 223, 174,
    ]
}

fn settings() -> OauthSettings {
    OauthSettings {
        issuer: "https://issuer.example".to_string(),
        audience: "api".to_string(),
        jwks_url: "https://issuer.example/jwks".to_string(),
        userinfo_url: "https://issuer.example/userinfo".to_string(),
    }
}

fn key_set_document() -> String {
    format!(
        "{{ \"keys\": [ {{\"kty\":\"RSA\", \"kid\":\"key-1\", \"alg\":\"RS256\", \"use\":\"sig\", \
         \"n\":\"{}\", \"e\":\"AQAB\", \"x5t\":\"thumb\"}} ] }}",
        MODULUS
    )
}

fn token_for(subject: &str, kid: Option<&str>) -> String {
    let mut members = serde_json::Map::new();
    members.insert("iss".to_string(), Value::String("https://issuer.example".to_string()));
    members.insert("sub".to_string(), Value::String(subject.to_string()));
    members.insert("aud".to_string(), Value::String("api".to_string()));
    members.insert("exp".to_string(), Value::Number(Number::from(FAR_FUTURE)));
    members.insert("iat".to_string(), Value::Number(Number::from(1_700_000_000_i64)));
    members.insert("acr".to_string(), Value::String("1".to_string()));
    let mut header = Header::new(Algorithm::RS256);
    header.kid = kid.map(|kid| kid.to_string());
    jsonwebtoken::encode(&header, &Value::Object(members), &EncodingKey::from_rsa_der(&signer()))
        .unwrap()
}

fn profile_of(subject: &str) -> UserInfo {
    UserInfo {
        email: format!("{}@example.org", subject),
        email_verified: true,
        sub: subject.to_string(),
    }
}

/// A cache store and an identity provider that live in memory.
struct Service {
    texts: HashMap<String, String>,
    profiles: HashMap<String, UserInfo>,
    lifetimes: HashMap<String, usize>,
    key_document: Option<Vec<u8>>,
    provider_knows: Vec<UserInfo>,
    provider_status: u16,
    store_is_down: bool,
    asked: Vec<Request>,
}

impl Service {
    fn new() -> Service {
        Service {
            texts: HashMap::new(),
            profiles: HashMap::new(),
            lifetimes: HashMap::new(),
            key_document: Some(key_set_document().into_bytes()),
            provider_knows: vec![profile_of("user-1"), profile_of("user-2")],
            provider_status: 200,
            store_is_down: false,
            asked: Vec::new(),
        }
    }

    fn perform(&mut self, request: Request) -> Reply {
        self.asked.push(request.clone());
        let down = Reply::Failed("cache store is down".to_string());
        match request {
            Request::Cache(_) | Request::ReadProfile { .. } | Request::WriteProfile { .. }
                if self.store_is_down =>
            {
                down
            }
            Request::Cache(CacheCommand::Get { key }) => {
                Reply::CacheValue(self.texts.get(&key).cloned())
            }
            Request::Cache(CacheCommand::Store { key, value }) => {
                self.texts.insert(key, value);
                Reply::Done
            }
            Request::Cache(CacheCommand::Expire { key, seconds }) => {
                self.lifetimes.insert(key, seconds);
                Reply::Done
            }
            Request::Cache(CacheCommand::Delete { key }) => {
                self.texts.remove(&key);
                self.profiles.remove(&key);
                Reply::Done
            }
            Request::FetchKeys { url } => {
                assert_eq!(url, "https://issuer.example/jwks");
                match &self.key_document {
                    Some(body) => Reply::Document(body.clone()),
                    None => Reply::Failed("connection refused".to_string()),
                }
            }
            Request::ReadProfile { key } => Reply::CachedProfile(self.profiles.get(&key).cloned()),
            Request::WriteProfile { key, profile } => {
                self.profiles.insert(key, profile);
                Reply::Done
            }
            Request::FetchProfile { url, bearer } => {
                assert_eq!(url, "https://issuer.example/userinfo");
                let known = self
                    .provider_knows
                    .iter()
                    .find(|profile| bearer == token_for(&profile.sub, Some("key-1")));
                match known {
                    Some(profile) => Reply::FetchedProfile {
                        status: self.provider_status,
                        profile: profile.clone(),
                    },
                    None => Reply::Failed("401 Unauthorized".to_string()),
                }
            }
        }
    }

    fn count(&self, wanted: fn(&Request) -> bool) -> usize {
        self.asked.iter().filter(|request| wanted(request)).count()
    }

    fn key_fetches(&self) -> usize {
        self.count(|request| matches!(request, Request::FetchKeys { .. }))
    }

    fn profile_fetches(&self) -> usize {
        self.count(|request| matches!(request, Request::FetchProfile { .. }))
    }

    fn writes(&self) -> usize {
        self.count(|request| {
            matches!(
                request,
                Request::WriteProfile { .. } | Request::Cache(CacheCommand::Store { .. })
            )
        })
    }
}

fn look_up_keys(service: &mut Service) -> Result<JwkSet, AppError> {
    let (mut state, request) = begin();
    let mut step = Step::Perform(request);
    loop {
        match step {
            Step::Finish(answer) => return answer,
            Step::Perform(request) => {
                let reply = service.perform(request);
                let next = resume(state, reply, "https://issuer.example/jwks");
                state = next.0;
                step = next.1;
            }
        }
    }
}

fn verify(service: &mut Service, bearer: Option<&str>) -> Result<Claims, AppError> {
    let (mut state, mut step) = Claims::from_request_parts(bearer);
    loop {
        match step {
            Step::Finish(answer) => return answer,
            Step::Perform(request) => {
                let reply = service.perform(request);
                let next = state.resume(reply, &settings());
                state = next.0;
                step = next.1;
            }
        }
    }
}

fn resolve_profile(service: &mut Service, bearer: Option<&str>) -> Result<UserInfo, AppError> {
    let (mut state, mut step) = UserInfo::from_request_parts(bearer);
    loop {
        match step {
            Step::Finish(answer) => return answer,
            Step::Perform(request) => {
                let reply = service.perform(request);
                let next = state.resume(reply, &settings());
                state = next.0;
                step = next.1;
            }
        }
    }
}

fn reason<T: std::fmt::Debug>(answer: Result<T, AppError>) -> String {
    match answer {
        Err(AppError::AuthorizationError(reason)) => reason,
        other => panic!("expected an authorization error, got {:?}", other),
    }
}

fn internal<T: std::fmt::Debug>(answer: Result<T, AppError>) -> String {
    match answer {
        Err(AppError::InternalError(inner)) => inner.message().to_string(),
        other => panic!("expected an internal error, got {:?}", other),
    }
}

#[test]
fn lookup_starts_by_reading_the_store() {
    let (state, request) = begin();
    assert!(matches!(state, KeyCacheState::Reading));
    assert_eq!(request, Request::Cache(CacheCommand::Get { key: "jwks".to_string() }));
}

#[test]
fn empty_store_leads_to_fetch_write_and_expiry() {
    let mut service = Service::new();
    let keys = look_up_keys(&mut service).unwrap();
    assert!(keys.find("key-1").is_some());
    let written = serde_json::to_string(&keys).unwrap();
    assert_eq!(
        service.asked,
        vec![
            Request::Cache(CacheCommand::Get { key: "jwks".to_string() }),
            Request::FetchKeys { url: "https://issuer.example/jwks".to_string() },
            Request::Cache(CacheCommand::Store { key: "jwks".to_string(), value: written }),
            Request::Cache(CacheCommand::Expire { key: "jwks".to_string(), seconds: 86_400 }),
        ]
    );
    assert_eq!(service.lifetimes.get("jwks"), Some(&86_400));
}

#[test]
fn cached_keys_are_not_fetched_again() {
    let mut service = Service::new();
    let first = look_up_keys(&mut service).unwrap();
    for _ in 0..5 {
        let again = look_up_keys(&mut service).unwrap();
        assert_eq!(again, first);
    }
    assert_eq!(service.key_fetches(), 1);
    assert_eq!(service.writes(), 1);
}

#[test]
fn cached_keys_are_used_even_where_the_provider_is_gone() {
    let mut service = Service::new();
    look_up_keys(&mut service).unwrap();
    service.key_document = None;
    assert!(look_up_keys(&mut service).is_ok());
}

#[test]
fn failing_fetch_of_keys_is_an_internal_failure() {
    let mut service = Service::new();
    service.key_document = None;
    assert_eq!(internal(look_up_keys(&mut service)), "connection refused");
    assert_eq!(service.writes(), 0);
}

#[test]
fn document_that_is_no_key_set_is_an_internal_failure() {
    let mut service = Service::new();
    service.key_document = Some(b"<html>not found</html>".to_vec());
    assert!(matches!(look_up_keys(&mut service), Err(AppError::InternalError(_))));
    assert_eq!(service.writes(), 0);
}

#[test]
fn cached_text_that_is_no_key_set_is_an_internal_failure() {
    let mut service = Service::new();
    service.texts.insert("jwks".to_string(), "{\"keys\": 7}".to_string());
    assert!(matches!(look_up_keys(&mut service), Err(AppError::InternalError(_))));
    assert_eq!(service.key_fetches(), 0);
}

#[test]
fn failing_store_is_an_internal_failure() {
    let mut service = Service::new();
    service.store_is_down = true;
    assert_eq!(internal(look_up_keys(&mut service)), "cache store is down");
    assert_eq!(service.key_fetches(), 0);
}

#[test]
fn failure_while_writing_or_expiring_is_an_internal_failure() {
    let keys: JwkSet = serde_json::from_str(&key_set_document()).unwrap();
    let (state, step) = resume(
        KeyCacheState::Writing { keys: keys.clone() },
        Reply::Failed("write failed".to_string()),
        "https://issuer.example/jwks",
    );
    assert!(matches!(state, KeyCacheState::Finished));
    assert_eq!(internal(finished(step)), "write failed");
    let (state, step) = resume(
        KeyCacheState::Expiring { keys },
        Reply::Failed("expire failed".to_string()),
        "https://issuer.example/jwks",
    );
    assert!(matches!(state, KeyCacheState::Finished));
    assert_eq!(internal(finished(step)), "expire failed");
}

fn finished<T>(step: Step<T>) -> Result<T, AppError> {
    match step {
        Step::Finish(answer) => answer,
        Step::Perform(request) => panic!("expected an answer, got {:?}", request),
    }
}

#[test]
fn reply_that_answers_no_request_is_an_internal_failure() {
    let (state, step) = resume(KeyCacheState::Reading, Reply::Done, "https://issuer.example/jwks");
    assert!(matches!(state, KeyCacheState::Finished));
    assert_eq!(internal(finished(step)), "unexpected reply");
    let (_, step) = resume(
        KeyCacheState::Fetching,
        Reply::CacheValue(None),
        "https://issuer.example/jwks",
    );
    assert_eq!(internal(finished(step)), "unexpected reply");
    let (_, step) = resume(
        KeyCacheState::Finished,
        Reply::Failed("late".to_string()),
        "https://issuer.example/jwks",
    );
    assert_eq!(internal(finished(step)), "unexpected reply");
    let (_, step) = ClaimsState::Finished.resume(Reply::Done, &settings());
    assert_eq!(internal(finished(step)), "unexpected reply");
    let (_, step) = UserInfoState::Finished.resume(Reply::Done, &settings());
    assert_eq!(internal(finished(step)), "unexpected reply");
    let (_, step) = UserInfoState::Fetching { key: "user_info|user-1".to_string() }
        .resume(Reply::Done, &settings());
    assert_eq!(internal(finished(step)), "unexpected reply");
}

#[test]
fn verification_succeeds_on_an_empty_store_and_fills_it() {
    let mut service = Service::new();
    let token = token_for("user-1", Some("key-1"));
    let claims = verify(&mut service, Some(&token)).unwrap();
    assert_eq!(claims.sub, "user-1");
    assert_eq!(claims.iss, "https://issuer.example");
    assert_eq!(claims.aud, "api");
    assert_eq!(claims.exp, FAR_FUTURE);
    assert_eq!(claims.iat, 1_700_000_000);
    assert_eq!(claims.acr, "1");
    let cached: JwkSet = serde_json::from_str(service.texts.get("jwks").unwrap()).unwrap();
    assert!(cached.find("key-1").is_some());
    assert_eq!(service.lifetimes.get("jwks"), Some(&86_400));
}

#[test]
fn repeated_verification_fetches_the_keys_once() {
    let mut service = Service::new();
    let token = token_for("user-1", Some("key-1"));
    for _ in 0..4 {
        assert!(verify(&mut service, Some(&token)).is_ok());
    }
    assert_eq!(service.key_fetches(), 1);
}

#[test]
fn request_without_bearer_token_is_unauthorized_at_once() {
    let mut service = Service::new();
    assert_eq!(reason(verify(&mut service, None)), "Unauthorized");
    assert!(service.asked.is_empty());
}

#[test]
fn token_without_key_id_is_refused_before_anything_is_asked() {
    let mut service = Service::new();
    let token = token_for("user-1", None);
    assert_eq!(reason(verify(&mut service, Some(&token))), "Unauthorized");
    assert_eq!(reason(verify(&mut service, Some("garbage"))), "Unauthorized");
    assert!(service.asked.is_empty());
    assert_eq!(reason(resolve_profile(&mut service, Some(&token))), "Unauthorized");
    assert!(service.asked.is_empty());
}

#[test]
fn token_without_key_id_is_refused_even_where_the_store_is_down() {
    let mut service = Service::new();
    service.store_is_down = true;
    service.key_document = None;
    let token = token_for("user-1", None);
    assert_eq!(reason(verify(&mut service, Some(&token))), "Unauthorized");
}

#[test]
fn verification_fails_internally_where_the_keys_cannot_be_had() {
    let mut service = Service::new();
    service.key_document = None;
    let token = token_for("user-1", Some("key-1"));
    assert_eq!(internal(verify(&mut service, Some(&token))), "connection refused");
    assert_eq!(internal(resolve_profile(&mut service, Some(&token))), "connection refused");
}

#[test]
fn token_of_unknown_key_is_unauthorized_after_the_lookup() {
    let mut service = Service::new();
    let token = token_for("user-1", Some("key-9"));
    assert_eq!(reason(verify(&mut service, Some(&token))), "Unauthorized");
    assert_eq!(service.key_fetches(), 1);
}

#[test]
fn profile_is_fetched_once_and_then_read_from_the_store() {
    let mut service = Service::new();
    let token = token_for("user-1", Some("key-1"));
    let first = resolve_profile(&mut service, Some(&token)).unwrap();
    assert_eq!(first, profile_of("user-1"));
    assert_eq!(service.profiles.get("user_info|user-1"), Some(&profile_of("user-1")));
    assert_eq!(service.lifetimes.get("user_info|user-1"), Some(&86_400));
    for _ in 0..3 {
        assert_eq!(resolve_profile(&mut service, Some(&token)).unwrap(), first);
    }
    assert_eq!(service.profile_fetches(), 1);
    assert_eq!(service.key_fetches(), 1);
}

#[test]
fn profile_lookup_asks_in_order() {
    let mut service = Service::new();
    let token = token_for("user-1", Some("key-1"));
    resolve_profile(&mut service, Some(&token)).unwrap();
    let tail: Vec<Request> = service.asked[4..].to_vec();
    assert_eq!(
        tail,
        vec![
            Request::ReadProfile { key: "user_info|user-1".to_string() },
            Request::FetchProfile {
                url: "https://issuer.example/userinfo".to_string(),
                bearer: token.clone(),
            },
            Request::WriteProfile {
                key: "user_info|user-1".to_string(),
                profile: profile_of("user-1"),
            },
            Request::Cache(CacheCommand::Expire {
                key: "user_info|user-1".to_string(),
                seconds: 86_400,
            }),
        ]
    );
}

#[test]
fn cached_profile_is_handed_out_as_it_was_written() {
    let mut service = Service::new();
    let token = token_for("user-1", Some("key-1"));
    let odd = UserInfo {
        email: "Quote\"d \\ name <x@example.org>\n".to_string(),
        email_verified: false,
        sub: "user-1".to_string(),
    };
    service.profiles.insert("user_info|user-1".to_string(), odd.clone());
    assert_eq!(resolve_profile(&mut service, Some(&token)).unwrap(), odd);
    assert_eq!(service.profile_fetches(), 0);
}

#[test]
fn profiles_of_two_subjects_are_kept_apart() {
    let mut service = Service::new();
    let first = token_for("user-1", Some("key-1"));
    let second = token_for("user-2", Some("key-1"));
    assert_eq!(resolve_profile(&mut service, Some(&first)).unwrap().sub, "user-1");
    assert_eq!(resolve_profile(&mut service, Some(&second)).unwrap().sub, "user-2");
    assert_eq!(resolve_profile(&mut service, Some(&first)).unwrap().sub, "user-1");
    assert_eq!(service.profiles.len(), 2);
    assert_eq!(service.profile_fetches(), 2);
    assert!(service.texts.contains_key("jwks"));
}

#[test]
fn profile_key_is_the_tag_followed_by_the_subject() {
    assert_eq!(profile_cache_key("user-1"), "user_info|user-1");
    assert_eq!(profile_cache_key(""), "user_info|");
    assert_eq!(profile_cache_key("a|b"), "user_info|a|b");
    assert_eq!(profile_cache_key("jwks"), "user_info|jwks");
    assert_ne!(profile_cache_key("user-1"), profile_cache_key("user-10"));
}

#[test]
fn failing_profile_fetch_is_an_invalid_bearer_token_and_writes_nothing() {
    let mut service = Service::new();
    service.provider_knows.clear();
    let token = token_for("user-1", Some("key-1"));
    assert_eq!(reason(resolve_profile(&mut service, Some(&token))), "Invalid bearer token");
    assert!(service.profiles.is_empty());
    assert!(!service.asked.iter().any(|request| matches!(request, Request::WriteProfile { .. })));
    assert!(!service.lifetimes.contains_key("user_info|user-1"));
}

#[test]
fn error_status_is_an_invalid_bearer_token_even_where_the_body_is_a_profile() {
    for status in [400_u16, 401, 403, 404, 429, 500, 503, 599, 999] {
        let mut service = Service::new();
        service.provider_status = status;
        let token = token_for("user-1", Some("key-1"));
        assert_eq!(reason(resolve_profile(&mut service, Some(&token))), "Invalid bearer token");
        assert!(service.profiles.is_empty());
        assert!(!service
            .asked
            .iter()
            .any(|request| matches!(request, Request::WriteProfile { .. })));
        assert!(!service.lifetimes.contains_key("user_info|user-1"));
    }
}

#[test]
fn status_below_the_error_range_lets_the_profile_pass() {
    for status in [200_u16, 201, 204, 304, 399] {
        let mut service = Service::new();
        service.provider_status = status;
        let token = token_for("user-1", Some("key-1"));
        assert_eq!(resolve_profile(&mut service, Some(&token)).unwrap(), profile_of("user-1"));
        assert_eq!(service.profiles.len(), 1);
    }
}

#[test]
fn failing_profile_read_is_an_internal_failure() {
    let token = token_for("user-1", Some("key-1"));
    let state = UserInfoState::Reading { token, key: "user_info|user-1".to_string() };
    let (state, step) = state.resume(Reply::Failed("store timed out".to_string()), &settings());
    assert!(matches!(state, UserInfoState::Finished));
    assert_eq!(internal(finished(step)), "store timed out");
}

#[test]
fn failing_profile_write_or_expiry_is_an_internal_failure() {
    let state = UserInfoState::Writing {
        key: "user_info|user-1".to_string(),
        profile: profile_of("user-1"),
    };
    let (_, step) = state.resume(Reply::Failed("write failed".to_string()), &settings());
    assert_eq!(internal(finished(step)), "write failed");
    let state = UserInfoState::Expiring { profile: profile_of("user-1") };
    let (_, step) = state.resume(Reply::Failed("expire failed".to_string()), &settings());
    assert_eq!(internal(finished(step)), "expire failed");
}

#[test]
fn request_without_bearer_token_has_no_profile() {
    let mut service = Service::new();
    assert_eq!(reason(resolve_profile(&mut service, None)), "Invalid bearer token");
    assert!(service.asked.is_empty());
}

#[test]
fn duplicate_of_a_profile_equals_it() {
    let profile = profile_of("user-7");
    assert_eq!(profile.duplicate(), profile);
    let unverified = UserInfo { email: String::new(), email_verified: false, sub: "s".to_string() };
    assert_eq!(unverified.duplicate(), unverified);
}

#[test]
fn bearer_token_is_taken_as_it_is() {
    let taken = BearerToken::from_request_parts(Some("whatever.it.is")).unwrap();
    assert_eq!(taken.access_token, "whatever.it.is");
    match BearerToken::from_request_parts(None) {
        Err(AppError::AuthorizationError(reason)) => assert_eq!(reason, "Invalid bearer token"),
        other => panic!("expected an authorization error, got {:?}", other),
    }
}
