//! The CORS policy that a list of configured origins asks for.

use crate::config::{texts, ConfigError, ConfigErrorModel};
use crate::request_id::REQUEST_ID_HEADER;
use vstd::prelude::*;
use vstd::utf8::encode_utf8;

verus! {

/// The HTTP methods that the gateway lets other origins use.
#[derive(Debug, Clone, Copy, PartialEq, Eq)]
pub enum HttpMethod {
    Get,
    Post,
    Options,
}

/// Which origins may read responses.
#[derive(Debug, Clone, PartialEq, Eq)]
pub enum AllowedOrigins {
    /// Any origin.
    Any,
    /// The listed origins and no other.
    Listed(Vec<String>),
}

/// The policy applied to every request alike.
#[derive(Debug, Clone, PartialEq, Eq)]
pub struct PolicyDecision {
    /// Origins that may read responses.
    pub origins: AllowedOrigins,
    /// Methods that other origins may use.
    pub methods: Vec<HttpMethod>,
    /// Request headers that other origins may send.
    pub allowed_headers: Vec<String>,
    /// Response headers that scripts of other origins may read.
    pub exposed_headers: Vec<String>,
}

/// A policy as plain mathematical values; `origins` is `None` where any
/// origin is allowed.
pub struct PolicyModel {
    pub origins: Option<Seq<Seq<char>>>,
    pub methods: Seq<HttpMethod>,
    pub allowed_headers: Seq<Seq<char>>,
    pub exposed_headers: Seq<Seq<char>>,
}

impl View for PolicyDecision {
    type V = PolicyModel;

    open spec fn view(&self) -> PolicyModel {
        PolicyModel {
            origins: match self.origins {
                AllowedOrigins::Any => None,
                AllowedOrigins::Listed(list) => Some(texts(list@)),
            },
            methods: self.methods@,
            allowed_headers: texts(self.allowed_headers@),
            exposed_headers: texts(self.exposed_headers@),
        }
    }
}

/// A byte that may stand in the value of a header: a tab, or anything from
/// 32 up but 127.
pub open spec fn is_header_value_byte(b: u8) -> bool {
    (b >= 32 && b != 127) || b == 9
}

/// `text` can be the value of a header: each byte of its UTF-8 encoding may
/// stand there.
pub open spec fn is_header_value(text: Seq<char>) -> bool {
    forall|i: int|
        0 <= i < encode_utf8(text).len() ==> is_header_value_byte(#[trigger] encode_utf8(text)[i])
}

/// The list of origins holds the wildcard `"*"`.
pub open spec fn has_wildcard(origins: Seq<Seq<char>>) -> bool {
    exists|i: int| 0 <= i < origins.len() && #[trigger] origins[i] == "*"@
}

/// Every origin of the list can be the value of a header.
pub open spec fn all_header_values(origins: Seq<Seq<char>>) -> bool {
    forall|i: int| 0 <= i < origins.len() ==> is_header_value(#[trigger] origins[i])
}

/// Origin `i` is the first one that cannot be the value of a header.
pub open spec fn first_unusable_origin_at(origins: Seq<Seq<char>>, i: int) -> bool {
    &&& 0 <= i < origins.len()
    &&& !is_header_value(origins[i])
    &&& forall|j: int| 0 <= j < i ==> is_header_value(#[trigger] origins[j])
}

/// The policy for the given origins: the methods GET, POST and OPTIONS,
/// the request headers `content-type`, `authorization` and the correlation
/// header, and the correlation header exposed to scripts.
pub open spec fn policy_for(origins: Option<Seq<Seq<char>>>) -> PolicyModel {
    PolicyModel {
        origins,
        methods: seq![HttpMethod::Get, HttpMethod::Post, HttpMethod::Options],
        allowed_headers: seq!["content-type"@, "authorization"@, REQUEST_ID_HEADER@],
        exposed_headers: seq![REQUEST_ID_HEADER@],
    }
}

/// What the configured origins decide. A list that holds `"*"` allows any
/// origin. Any other list allows the listed origins, provided that each can
/// be the value of a header; if not, the first that cannot is reported.
pub open spec fn decided(origins: Seq<Seq<char>>) -> Result<PolicyModel, ConfigErrorModel> {
    if has_wildcard(origins) {
        Ok(policy_for(None))
    } else if all_header_values(origins) {
        Ok(policy_for(Some(origins)))
    } else {
        let i = choose|i: int| first_unusable_origin_at(origins, i);
        Err(ConfigErrorModel::InvalidCorsOrigin(origins[i]))
    }
}

/// The first origin that cannot be a header value is the one that `decided` reports.
pub proof fn lemma_first_unusable_origin(origins: Seq<Seq<char>>, i: int)
    requires
        first_unusable_origin_at(origins, i),
    ensures
        !all_header_values(origins),
        (choose|k: int| first_unusable_origin_at(origins, k)) == i,
{
    let k = choose|k: int| first_unusable_origin_at(origins, k);
    assert(first_unusable_origin_at(origins, k));
    if k < i {
        assert(is_header_value(origins[k]));
    } else if i < k {
        assert(is_header_value(origins[i]));
    }
}

/// Asks `http::HeaderValue::from_str`, as axum hands it on, whether it
/// accepts `text`. It scans the bytes of the text and refuses it exactly
/// where one of them is below 32 and no tab, or is 127.
#[verifier::external_body]
fn parses_as_header_value(text: &str) -> (accepted: bool)
    ensures
        accepted == is_header_value(text@),
{
    ::axum::http::HeaderValue::from_str(text).is_ok()
}

/// Whether the list of origins holds the wildcard `"*"`.
pub fn contains_wildcard(cors_origins: &Vec<String>) -> (found: bool)
    ensures
        found == has_wildcard(texts(cors_origins@)),
{
    let wildcard: String = String::from_str("*");
    let n: usize = cors_origins.len();
    let mut i: usize = 0;
    while i < n
        invariant
            i <= n,
            n == cors_origins@.len(),
            wildcard@ == "*"@,
            forall|j: int| 0 <= j < i ==> #[trigger] texts(cors_origins@)[j] != "*"@,
        decreases n - i,
    {
        if cors_origins[i] == wildcard {
            assert(texts(cors_origins@)[i as int] == "*"@);
            return true;
        }
        i = i + 1;
    }
    false
}

/// The fixed part of every policy, for the given origins.
fn policy_with(origins: AllowedOrigins) -> (policy: PolicyDecision)
    ensures
        policy.origins == origins,
        policy@ == policy_for(
            match origins {
                AllowedOrigins::Any => None,
                AllowedOrigins::Listed(list) => Some(texts(list@)),
            },
        ),
{
    let mut methods: Vec<HttpMethod> = Vec::new();
    methods.push(HttpMethod::Get);
    methods.push(HttpMethod::Post);
    methods.push(HttpMethod::Options);
    let mut allowed_headers: Vec<String> = Vec::new();
    allowed_headers.push(String::from_str("content-type"));
    allowed_headers.push(String::from_str("authorization"));
    allowed_headers.push(String::from_str(REQUEST_ID_HEADER));
    let mut exposed_headers: Vec<String> = Vec::new();
    exposed_headers.push(String::from_str(REQUEST_ID_HEADER));
    let policy = PolicyDecision { origins, methods, allowed_headers, exposed_headers };
    assert(policy@.methods =~= policy_for(None).methods);
    assert(policy@.allowed_headers =~= policy_for(None).allowed_headers);
    assert(policy@.exposed_headers =~= policy_for(None).exposed_headers);
    policy
}

/// Decides the CORS policy from the configured origins, once, for all
/// requests. With `"*"` in the list any origin is allowed. Without it the
/// listed origins are allowed, each of which must be fit to stand in a
/// header; the first that is not comes back as `InvalidCorsOrigin`.
pub fn decide(cors_origins: &Vec<String>) -> (decision: Result<PolicyDecision, ConfigError>)
    ensures
        match decision {
            Ok(policy) => decided(texts(cors_origins@)) == Ok::<PolicyModel, ConfigErrorModel>(
                policy@,
            ),
            Err(error) => decided(texts(cors_origins@)) == Err::<PolicyModel, ConfigErrorModel>(
                error@,
            ),
        },
{
    if contains_wildcard(cors_origins) {
        return Ok(policy_with(AllowedOrigins::Any));
    }
    let n: usize = cors_origins.len();
    let mut listed: Vec<String> = Vec::new();
    let mut i: usize = 0;
    while i < n
        invariant
            i <= n,
            n == cors_origins@.len(),
            !has_wildcard(texts(cors_origins@)),
            listed@.len() == i,
            forall|j: int| 0 <= j < i ==> (#[trigger] listed@[j])@ == cors_origins@[j]@,
            forall|j: int| 0 <= j < i ==> is_header_value(#[trigger] texts(cors_origins@)[j]),
        decreases n - i,
    {
        if !parses_as_header_value(cors_origins[i].as_str()) {
            proof {
                lemma_first_unusable_origin(texts(cors_origins@), i as int);
            }
            return Err(ConfigError::InvalidCorsOrigin(cors_origins[i].clone()));
        }
        listed.push(cors_origins[i].clone());
        i = i + 1;
    }
    assert(texts(listed@) =~= texts(cors_origins@));
    Ok(policy_with(AllowedOrigins::Listed(listed)))
}

/// Whatever the origins, a policy that is decided exposes the correlation
/// header, and nothing else, to scripts; with `"*"` as the only origin the
/// policy is decided and allows any origin.
pub proof fn law_policy_exposes_request_id(origins: Seq<Seq<char>>)
    ensures
        decided(origins) matches Ok(policy) ==> policy.exposed_headers == seq![REQUEST_ID_HEADER@],
        origins == seq!["*"@] ==> decided(origins) == Ok::<PolicyModel, ConfigErrorModel>(
            policy_for(None),
        ),
        has_wildcard(origins) ==> decided(origins) == Ok::<PolicyModel, ConfigErrorModel>(
            policy_for(None),
        ),
{
    if origins == seq!["*"@] {
        assert(origins[0] == "*"@);
    }
}

} // verus!
