//! Gateway configuration: defaults, validation and derived values.

use crate::clock::{duration_from_millis, duration_of_millis};
use crate::text::{decimal, render_decimal, text_of};
use crate::upstreams::Upstreams;
use crate::url_syntax::{outcome_text, parse_url, url_parse};
use std::time::Duration;
use vstd::prelude::*;

verus! {

/// Longest request timeout that a configuration may ask for, in milliseconds.
pub const MAX_REQUEST_TIMEOUT_MS: u64 = 300000;

/// A configuration as plain mathematical values: what both the raw and the
/// validated configuration hold.
pub struct ConfigModel {
    pub host: Seq<char>,
    pub port: u16,
    pub request_timeout_ms: u64,
    pub upstreams: Seq<(Seq<char>, Seq<char>)>,
    pub cors_origins: Seq<Seq<char>>,
}

/// A configuration error as plain mathematical values.
pub enum ConfigErrorModel {
    Config(Seq<char>),
    Message(Seq<char>),
    InvalidPort(u16),
    InvalidTimeout(u64),
    InvalidUpstreamUrl(Seq<char>, Seq<char>),
    InvalidCorsOrigin(Seq<char>),
}

/// The texts that a vector of strings holds.
pub open spec fn texts(strings: Seq<String>) -> Seq<Seq<char>> {
    Seq::new(strings.len(), |i: int| strings[i]@)
}

/// Configuration as it comes from its sources, before any rule was applied.
#[derive(Debug, Clone)]
pub struct AppConfigRaw {
    pub host: String,
    pub port: u16,
    pub request_timeout_ms: u64,
    pub upstreams: Upstreams,
    pub cors_origins: Vec<String>,
}

impl View for AppConfigRaw {
    type V = ConfigModel;

    open spec fn view(&self) -> ConfigModel {
        ConfigModel {
            host: self.host@,
            port: self.port,
            request_timeout_ms: self.request_timeout_ms,
            upstreams: self.upstreams.entries(),
            cors_origins: texts(self.cors_origins@),
        }
    }
}

/// Configuration of the gateway. `AppConfig::validate_and_convert` gives
/// out only values for which `valid` holds.
#[derive(Debug, Clone)]
pub struct AppConfig {
    /// Address to bind to; empty for all interfaces.
    pub host: String,
    /// Port to listen on, 1 to 65535.
    pub port: u16,
    /// Time a request may take, in milliseconds, 1 to 300000.
    pub request_timeout_ms: u64,
    /// Base URL of each upstream service, by name.
    pub upstreams: Upstreams,
    /// Origins allowed by CORS; `"*"` stands for any.
    pub cors_origins: Vec<String>,
}

impl View for AppConfig {
    type V = ConfigModel;

    open spec fn view(&self) -> ConfigModel {
        ConfigModel {
            host: self.host@,
            port: self.port,
            request_timeout_ms: self.request_timeout_ms,
            upstreams: self.upstreams.entries(),
            cors_origins: texts(self.cors_origins@),
        }
    }
}

/// What can be wrong with a configuration.
#[derive(Debug, Clone, PartialEq, Eq)]
pub enum ConfigError {
    /// A configuration source could not be read or parsed.
    Config(String),
    /// Any other failure, with its message.
    Message(String),
    /// The port is outside 1 to 65535.
    InvalidPort(u16),
    /// The request timeout is outside 1 to 300000 milliseconds.
    InvalidTimeout(u64),
    /// The URL of the named upstream service is unusable, for the given reason.
    InvalidUpstreamUrl(String, String),
    /// The given CORS origin is unusable.
    InvalidCorsOrigin(String),
}

impl View for ConfigError {
    type V = ConfigErrorModel;

    open spec fn view(&self) -> ConfigErrorModel {
        match self {
            ConfigError::Config(source) => ConfigErrorModel::Config(source@),
            ConfigError::Message(message) => ConfigErrorModel::Message(message@),
            ConfigError::InvalidPort(port) => ConfigErrorModel::InvalidPort(*port),
            ConfigError::InvalidTimeout(ms) => ConfigErrorModel::InvalidTimeout(*ms),
            ConfigError::InvalidUpstreamUrl(service, reason) => ConfigErrorModel::InvalidUpstreamUrl(
                service@,
                reason@,
            ),
            ConfigError::InvalidCorsOrigin(origin) => ConfigErrorModel::InvalidCorsOrigin(origin@),
        }
    }
}

impl ConfigErrorModel {
    /// The message that presents the error to an operator.
    pub open spec fn message(self) -> Seq<char> {
        match self {
            ConfigErrorModel::Config(source) => source,
            ConfigErrorModel::Message(message) => "Configuration error: "@ + message,
            ConfigErrorModel::InvalidPort(port) => "Invalid port number: "@ + decimal(port as nat)
                + ". Must be between 1 and 65535"@,
            ConfigErrorModel::InvalidTimeout(ms) => "Invalid timeout: "@ + decimal(ms as nat)
                + "ms. Must be between 1 and 300000ms (5 minutes)"@,
            ConfigErrorModel::InvalidUpstreamUrl(service, reason) =>
                "Invalid upstream URL for service '"@ + service + "': "@ + reason,
            ConfigErrorModel::InvalidCorsOrigin(origin) => "Invalid CORS origin: "@ + origin,
        }
    }
}

impl ConfigError {
    /// The message that presents the error to an operator.
    pub fn to_string(&self) -> (text: String)
        ensures
            text@ == self@.message(),
    {
        match self {
            ConfigError::Config(source) => source.clone(),
            ConfigError::Message(message) => String::from_str("Configuration error: ").concat(
                message.as_str(),
            ),
            ConfigError::InvalidPort(port) => {
                let mut text: String = String::from_str("Invalid port number: ");
                text.append(render_decimal(*port as u64).as_str());
                text.append(". Must be between 1 and 65535");
                text
            },
            ConfigError::InvalidTimeout(ms) => {
                let mut text: String = String::from_str("Invalid timeout: ");
                text.append(render_decimal(*ms).as_str());
                text.append("ms. Must be between 1 and 300000ms (5 minutes)");
                text
            },
            ConfigError::InvalidUpstreamUrl(service, reason) => {
                let mut text: String = String::from_str("Invalid upstream URL for service '");
                text.append(service.as_str());
                text.append("': ");
                text.append(reason.as_str());
                text
            },
            ConfigError::InvalidCorsOrigin(origin) => String::from_str(
                "Invalid CORS origin: ",
            ).concat(origin.as_str()),
        }
    }
}

// ----------------------------------------------------------------------
// Defaults
// ----------------------------------------------------------------------

/// Address to bind to when none is configured: empty, for all interfaces.
pub fn default_host() -> (host: String)
    ensures
        host@ == Seq::<char>::empty(),
{
    String::new()
}

/// Port the server listens on when none is configured.
pub fn default_port() -> (port: u16)
    ensures
        port == 3000,
{
    3000
}

/// Request timeout when none is configured, in milliseconds.
pub fn default_timeout_ms() -> (ms: u64)
    ensures
        ms == 15000,
{
    15000
}

/// Upstream services when none are configured: none.
pub fn default_upstreams() -> (upstreams: Upstreams)
    ensures
        upstreams.entries() == Seq::<(Seq<char>, Seq<char>)>::empty(),
        upstreams@ == Map::<Seq<char>, Seq<char>>::empty(),
{
    Upstreams::new()
}

/// CORS origins when none are configured: any origin.
pub fn default_cors_origins() -> (origins: Vec<String>)
    ensures
        texts(origins@) == seq!["*"@],
{
    let mut origins: Vec<String> = Vec::new();
    origins.push(String::from_str("*"));
    assert(texts(origins@) =~= seq!["*"@]);
    origins
}

/// The configuration that holds where no source sets anything.
pub open spec fn default_model() -> ConfigModel {
    ConfigModel {
        host: Seq::empty(),
        port: 3000,
        request_timeout_ms: 15000,
        upstreams: Seq::empty(),
        cors_origins: seq!["*"@],
    }
}

impl Default for AppConfigRaw {
    /// Every field at its default.
    fn default() -> (raw: Self)
        ensures
            raw@ == default_model(),
    {
        AppConfigRaw {
            host: default_host(),
            port: default_port(),
            request_timeout_ms: default_timeout_ms(),
            upstreams: default_upstreams(),
            cors_origins: default_cors_origins(),
        }
    }
}

// ----------------------------------------------------------------------
// The rules
// ----------------------------------------------------------------------

/// The port rule: any port but 0.
pub open spec fn port_allowed(port: u16) -> bool {
    port != 0
}

/// The timeout rule: 1 to 300000 milliseconds.
pub open spec fn timeout_allowed(ms: u64) -> bool {
    1 <= ms <= MAX_REQUEST_TIMEOUT_MS
}

/// Why an upstream URL is refused, given what parsing it gave: it did not
/// parse, or its scheme is neither `http` nor `https`. `None` for a URL
/// that is accepted.
pub open spec fn fault_of_parsed(parsed: Result<Seq<char>, Seq<char>>) -> Option<Seq<char>> {
    match parsed {
        Err(message) => Some("Invalid URL format: "@ + message),
        Ok(scheme) => if scheme == "http"@ || scheme == "https"@ {
            None
        } else {
            Some("URL must use http or https scheme"@)
        },
    }
}

/// Why the upstream URL `url` is refused, or `None` if it is accepted.
pub open spec fn upstream_fault(url: Seq<char>) -> Option<Seq<char>> {
    fault_of_parsed(url_parse(url))
}

/// The origin rule: not empty, and either `"*"` or a text that parses as a URL.
pub open spec fn origin_allowed(origin: Seq<char>) -> bool {
    origin.len() != 0 && (origin == "*"@ || url_parse(origin) is Ok)
}

/// Entry `i` is the first upstream whose URL is refused.
pub open spec fn first_upstream_fault_at(upstreams: Seq<(Seq<char>, Seq<char>)>, i: int) -> bool {
    &&& 0 <= i < upstreams.len()
    &&& upstream_fault(upstreams[i].1) is Some
    &&& forall|j: int| 0 <= j < i ==> upstream_fault(#[trigger] upstreams[j].1) is None
}

/// Origin `i` is the first one that is refused.
pub open spec fn first_origin_fault_at(origins: Seq<Seq<char>>, i: int) -> bool {
    &&& 0 <= i < origins.len()
    &&& !origin_allowed(origins[i])
    &&& forall|j: int| 0 <= j < i ==> origin_allowed(#[trigger] origins[j])
}

/// Every upstream URL is accepted.
pub open spec fn upstreams_allowed(upstreams: Seq<(Seq<char>, Seq<char>)>) -> bool {
    forall|i: int| 0 <= i < upstreams.len() ==> upstream_fault(#[trigger] upstreams[i].1) is None
}

/// Every origin is accepted.
pub open spec fn origins_allowed(origins: Seq<Seq<char>>) -> bool {
    forall|i: int| 0 <= i < origins.len() ==> origin_allowed(#[trigger] origins[i])
}

/// All rules hold of `m`.
pub open spec fn acceptable(m: ConfigModel) -> bool {
    &&& port_allowed(m.port)
    &&& timeout_allowed(m.request_timeout_ms)
    &&& upstreams_allowed(m.upstreams)
    &&& origins_allowed(m.cors_origins)
}

/// What validation makes of `m`: `m` itself where all rules hold, else the
/// error of the first rule that fails, in the order port, timeout, upstream
/// URLs, origins; among the upstreams and among the origins the first
/// offender is reported.
pub open spec fn validated(m: ConfigModel) -> Result<ConfigModel, ConfigErrorModel> {
    if !port_allowed(m.port) {
        Err(ConfigErrorModel::InvalidPort(m.port))
    } else if !timeout_allowed(m.request_timeout_ms) {
        Err(ConfigErrorModel::InvalidTimeout(m.request_timeout_ms))
    } else if !upstreams_allowed(m.upstreams) {
        let i = choose|i: int| first_upstream_fault_at(m.upstreams, i);
        Err(
            ConfigErrorModel::InvalidUpstreamUrl(
                m.upstreams[i].0,
                upstream_fault(m.upstreams[i].1).unwrap(),
            ),
        )
    } else if !origins_allowed(m.cors_origins) {
        let i = choose|i: int| first_origin_fault_at(m.cors_origins, i);
        Err(ConfigErrorModel::InvalidCorsOrigin(m.cors_origins[i]))
    } else {
        Ok(m)
    }
}

/// The first refused upstream is the one that `validated` reports.
pub proof fn lemma_first_upstream_fault(upstreams: Seq<(Seq<char>, Seq<char>)>, i: int)
    requires
        first_upstream_fault_at(upstreams, i),
    ensures
        !upstreams_allowed(upstreams),
        (choose|k: int| first_upstream_fault_at(upstreams, k)) == i,
{
    let k = choose|k: int| first_upstream_fault_at(upstreams, k);
    assert(first_upstream_fault_at(upstreams, k));
    if k < i {
        assert(upstream_fault(upstreams[k].1) is None);
    } else if i < k {
        assert(upstream_fault(upstreams[i].1) is None);
    }
}

/// The first refused origin is the one that `validated` reports.
pub proof fn lemma_first_origin_fault(origins: Seq<Seq<char>>, i: int)
    requires
        first_origin_fault_at(origins, i),
    ensures
        !origins_allowed(origins),
        (choose|k: int| first_origin_fault_at(origins, k)) == i,
{
    let k = choose|k: int| first_origin_fault_at(origins, k);
    assert(first_origin_fault_at(origins, k));
    if k < i {
        assert(origin_allowed(origins[k]));
    } else if i < k {
        assert(origin_allowed(origins[i]));
    }
}

/// The errors of the refused URLs among the first `n` upstreams, in order.
pub open spec fn upstream_violations(upstreams: Seq<(Seq<char>, Seq<char>)>, n: int) -> Seq<
    ConfigErrorModel,
>
    decreases n,
{
    if n <= 0 {
        Seq::empty()
    } else {
        let before = upstream_violations(upstreams, n - 1);
        match upstream_fault(upstreams[n - 1].1) {
            Some(reason) => before.push(
                ConfigErrorModel::InvalidUpstreamUrl(upstreams[n - 1].0, reason),
            ),
            None => before,
        }
    }
}

/// The errors of the refused origins among the first `n` origins, in order.
pub open spec fn origin_violations(origins: Seq<Seq<char>>, n: int) -> Seq<ConfigErrorModel>
    decreases n,
{
    if n <= 0 {
        Seq::empty()
    } else {
        let before = origin_violations(origins, n - 1);
        if origin_allowed(origins[n - 1]) {
            before
        } else {
            before.push(ConfigErrorModel::InvalidCorsOrigin(origins[n - 1]))
        }
    }
}

/// The error of the port, if it breaks its rule.
pub open spec fn port_violations(port: u16) -> Seq<ConfigErrorModel> {
    if port_allowed(port) {
        Seq::empty()
    } else {
        seq![ConfigErrorModel::InvalidPort(port)]
    }
}

/// The error of the timeout, if it breaks its rule.
pub open spec fn timeout_violations(ms: u64) -> Seq<ConfigErrorModel> {
    if timeout_allowed(ms) {
        Seq::empty()
    } else {
        seq![ConfigErrorModel::InvalidTimeout(ms)]
    }
}

/// Every rule that `m` breaks, each with its error, in the order in which
/// validation applies the rules.
pub open spec fn violations_of(m: ConfigModel) -> Seq<ConfigErrorModel> {
    port_violations(m.port) + timeout_violations(m.request_timeout_ms) + upstream_violations(
        m.upstreams,
        m.upstreams.len() as int,
    ) + origin_violations(m.cors_origins, m.cors_origins.len() as int)
}

/// The errors that a vector holds, as plain values.
pub open spec fn error_models(errors: Seq<ConfigError>) -> Seq<ConfigErrorModel> {
    Seq::new(errors.len(), |i: int| errors[i]@)
}

// ----------------------------------------------------------------------
// Laws of validation
// ----------------------------------------------------------------------

/// Where the upstream at `i` is refused, some upstream at or before `i` is
/// the first one that is refused.
pub proof fn lemma_some_upstream_fault_is_first(upstreams: Seq<(Seq<char>, Seq<char>)>, i: int)
    requires
        0 <= i < upstreams.len(),
        upstream_fault(upstreams[i].1) is Some,
    ensures
        exists|k: int| 0 <= k <= i && first_upstream_fault_at(upstreams, k),
    decreases i,
{
    if exists|j: int| 0 <= j < i && upstream_fault(#[trigger] upstreams[j].1) is Some {
        let j = choose|j: int| 0 <= j < i && upstream_fault(#[trigger] upstreams[j].1) is Some;
        lemma_some_upstream_fault_is_first(upstreams, j);
        let k = choose|k: int| 0 <= k <= j && first_upstream_fault_at(upstreams, k);
        assert(0 <= k <= i && first_upstream_fault_at(upstreams, k));
    } else {
        assert(first_upstream_fault_at(upstreams, i));
    }
}

/// Where the origin at `i` is refused, some origin at or before `i` is the
/// first one that is refused.
pub proof fn lemma_some_origin_fault_is_first(origins: Seq<Seq<char>>, i: int)
    requires
        0 <= i < origins.len(),
        !origin_allowed(origins[i]),
    ensures
        exists|k: int| 0 <= k <= i && first_origin_fault_at(origins, k),
    decreases i,
{
    if exists|j: int| 0 <= j < i && !origin_allowed(#[trigger] origins[j]) {
        let j = choose|j: int| 0 <= j < i && !origin_allowed(#[trigger] origins[j]);
        lemma_some_origin_fault_is_first(origins, j);
        let k = choose|k: int| 0 <= k <= j && first_origin_fault_at(origins, k);
        assert(0 <= k <= i && first_origin_fault_at(origins, k));
    } else {
        assert(first_origin_fault_at(origins, i));
    }
}

/// Validation is all or nothing: it succeeds exactly where every rule
/// holds, and then it gives the configuration unchanged.
pub proof fn law_all_or_nothing(m: ConfigModel)
    ensures
        validated(m) is Ok <==> acceptable(m),
        validated(m) is Ok ==> validated(m) == Ok::<ConfigModel, ConfigErrorModel>(m),
{
}

/// A port of 0 is refused as `InvalidPort`, whatever the other fields
/// hold; every port from 1 to 65535 is accepted where the other fields
/// meet their rules.
pub proof fn law_port_rule(m: ConfigModel)
    ensures
        m.port == 0 ==> validated(m) == Err::<ConfigModel, ConfigErrorModel>(
            ConfigErrorModel::InvalidPort(0),
        ),
        1 <= m.port <= 65535 && timeout_allowed(m.request_timeout_ms) && upstreams_allowed(
            m.upstreams,
        ) && origins_allowed(m.cors_origins) ==> validated(m) == Ok::<
            ConfigModel,
            ConfigErrorModel,
        >(m),
{
}

/// With a port that is allowed, a timeout of 0 or of more than 300000
/// milliseconds is refused as `InvalidTimeout`; every timeout from 1 to
/// 300000, both ends included, is accepted where the upstreams and the
/// origins meet their rules.
pub proof fn law_timeout_rule(m: ConfigModel)
    requires
        port_allowed(m.port),
    ensures
        m.request_timeout_ms == 0 || m.request_timeout_ms > 300000 ==> validated(m) == Err::<
            ConfigModel,
            ConfigErrorModel,
        >(ConfigErrorModel::InvalidTimeout(m.request_timeout_ms)),
        1 <= m.request_timeout_ms <= 300000 && upstreams_allowed(m.upstreams) && origins_allowed(
            m.cors_origins,
        ) ==> validated(m) == Ok::<ConfigModel, ConfigErrorModel>(m),
{
}

/// With port and timeout allowed, an upstream URL that does not parse, or
/// whose scheme is neither `http` nor `https`, makes validation fail with
/// `InvalidUpstreamUrl`. The error names the first service whose URL is
/// refused, which is the service at `i` or one before it, and gives the
/// reason for which that URL is refused.
pub proof fn law_upstream_rule(m: ConfigModel, i: int)
    requires
        port_allowed(m.port),
        timeout_allowed(m.request_timeout_ms),
        0 <= i < m.upstreams.len(),
        match url_parse(m.upstreams[i].1) {
            Ok(scheme) => scheme != "http"@ && scheme != "https"@,
            Err(_) => true,
        },
    ensures
        exists|k: int|
            0 <= k <= i && first_upstream_fault_at(m.upstreams, k) && validated(m) == Err::<
                ConfigModel,
                ConfigErrorModel,
            >(
                ConfigErrorModel::InvalidUpstreamUrl(
                    m.upstreams[k].0,
                    upstream_fault(m.upstreams[k].1).unwrap(),
                ),
            ),
{
    lemma_some_upstream_fault_is_first(m.upstreams, i);
    let k = choose|k: int| 0 <= k <= i && first_upstream_fault_at(m.upstreams, k);
    lemma_first_upstream_fault(m.upstreams, k);
}

/// The empty origin is never allowed, `"*"` always is, and any other
/// origin is allowed exactly where it parses as a URL.
pub proof fn law_origin_rule(origin: Seq<char>)
    ensures
        origin.len() == 0 ==> !origin_allowed(origin),
        origin == "*"@ ==> origin_allowed(origin),
        origin.len() != 0 && origin != "*"@ ==> (origin_allowed(origin) <==> url_parse(origin) is Ok),
{
    reveal_strlit("*");
}

/// With port, timeout and upstreams allowed, an origin that is not allowed
/// makes validation fail with `InvalidCorsOrigin`. The error carries the
/// first origin that is refused, which is the one at `i` or one before it.
pub proof fn law_origin_refused(m: ConfigModel, i: int)
    requires
        port_allowed(m.port),
        timeout_allowed(m.request_timeout_ms),
        upstreams_allowed(m.upstreams),
        0 <= i < m.cors_origins.len(),
        !origin_allowed(m.cors_origins[i]),
    ensures
        exists|k: int|
            0 <= k <= i && first_origin_fault_at(m.cors_origins, k) && validated(m) == Err::<
                ConfigModel,
                ConfigErrorModel,
            >(ConfigErrorModel::InvalidCorsOrigin(m.cors_origins[k])),
{
    lemma_some_origin_fault_is_first(m.cors_origins, i);
    let k = choose|k: int| 0 <= k <= i && first_origin_fault_at(m.cors_origins, k);
    lemma_first_origin_fault(m.cors_origins, k);
}

/// Among the first `n` upstreams there is no violation exactly where each
/// of their URLs is accepted; and where the first refused URL is among
/// them, its error comes first.
pub proof fn lemma_upstream_violations(upstreams: Seq<(Seq<char>, Seq<char>)>, n: int)
    requires
        0 <= n <= upstreams.len(),
    ensures
        upstream_violations(upstreams, n).len() == 0 <==> forall|j: int|
            0 <= j < n ==> upstream_fault(#[trigger] upstreams[j].1) is None,
        forall|k: int|
            first_upstream_fault_at(upstreams, k) && k < n ==> upstream_violations(
                upstreams,
                n,
            ).len() > 0 && upstream_violations(upstreams, n)[0]
                == ConfigErrorModel::InvalidUpstreamUrl(
                upstreams[k].0,
                upstream_fault(upstreams[k].1).unwrap(),
            ),
    decreases n,
{
    if n > 0 {
        lemma_upstream_violations(upstreams, n - 1);
        let before = upstream_violations(upstreams, n - 1);
        assert forall|k: int| first_upstream_fault_at(upstreams, k) && k < n implies (
        upstream_violations(upstreams, n).len() > 0 && upstream_violations(upstreams, n)[0]
            == ConfigErrorModel::InvalidUpstreamUrl(
            upstreams[k].0,
            upstream_fault(upstreams[k].1).unwrap(),
        )) by {
            if k == n - 1 {
                assert(before.len() == 0);
            }
        }
    }
}

/// Among the first `n` origins there is no violation exactly where each of
/// them is allowed; and where the first refused origin is among them, its
/// error comes first.
pub proof fn lemma_origin_violations(origins: Seq<Seq<char>>, n: int)
    requires
        0 <= n <= origins.len(),
    ensures
        origin_violations(origins, n).len() == 0 <==> forall|j: int|
            0 <= j < n ==> origin_allowed(#[trigger] origins[j]),
        forall|k: int|
            first_origin_fault_at(origins, k) && k < n ==> origin_violations(origins, n).len() > 0
                && origin_violations(origins, n)[0] == ConfigErrorModel::InvalidCorsOrigin(
                origins[k],
            ),
    decreases n,
{
    if n > 0 {
        lemma_origin_violations(origins, n - 1);
        let before = origin_violations(origins, n - 1);
        assert forall|k: int| first_origin_fault_at(origins, k) && k < n implies (
        origin_violations(origins, n).len() > 0 && origin_violations(origins, n)[0]
            == ConfigErrorModel::InvalidCorsOrigin(origins[k])) by {
            if k == n - 1 {
                assert(before.len() == 0);
            }
        }
    }
}

/// Every violation can be found, and validation reports the first of them:
/// a configuration has no violation exactly where validation accepts it,
/// and the error of a refused configuration heads its list of violations.
pub proof fn law_first_violation_is_reported(m: ConfigModel)
    ensures
        violations_of(m).len() == 0 <==> validated(m) is Ok,
        validated(m) matches Err(error) ==> violations_of(m).len() > 0 && violations_of(m)[0]
            == error,
{
    lemma_upstream_violations(m.upstreams, m.upstreams.len() as int);
    lemma_origin_violations(m.cors_origins, m.cors_origins.len() as int);
    if port_allowed(m.port) && timeout_allowed(m.request_timeout_ms) {
        if !upstreams_allowed(m.upstreams) {
            let i = choose|i: int|
                0 <= i < m.upstreams.len() && upstream_fault(#[trigger] m.upstreams[i].1) is Some;
            lemma_some_upstream_fault_is_first(m.upstreams, i);
            let k = choose|k: int| 0 <= k <= i && first_upstream_fault_at(m.upstreams, k);
            lemma_first_upstream_fault(m.upstreams, k);
        } else if !origins_allowed(m.cors_origins) {
            let i = choose|i: int|
                0 <= i < m.cors_origins.len() && !origin_allowed(#[trigger] m.cors_origins[i]);
            lemma_some_origin_fault_is_first(m.cors_origins, i);
            let k = choose|k: int| 0 <= k <= i && first_origin_fault_at(m.cors_origins, k);
            lemma_first_origin_fault(m.cors_origins, k);
        }
    }
}

// ----------------------------------------------------------------------
// Checking
// ----------------------------------------------------------------------

/// Whether `text` is exactly the text of `literal`.
fn same_text(text: &str, literal: &str) -> (same: bool)
    ensures
        same == (text@ == literal@),
{
    let a: String = text.to_owned();
    let b: String = literal.to_owned();
    a == b
}

/// Judges an upstream URL by what parsing it gave: the scheme of a URL that
/// parsed, or the parser's message. Gives the reason for which the URL is
/// refused, or `None` if it is accepted.
pub fn upstream_fault_of(parsed: Result<String, String>) -> (fault: Option<String>)
    ensures
        text_of(fault) == fault_of_parsed(outcome_text(parsed)),
{
    match parsed {
        Err(message) => {
            let reason: String = String::from_str("Invalid URL format: ").concat(message.as_str());
            Some(reason)
        },
        Ok(scheme) => {
            if same_text(scheme.as_str(), "http") || same_text(scheme.as_str(), "https") {
                None
            } else {
                Some(String::from_str("URL must use http or https scheme"))
            }
        },
    }
}

/// Checks one upstream URL: it must parse and use `http` or `https`. Gives
/// the reason for which it is refused, or `None` if it is accepted.
pub fn check_upstream_url(url: &str) -> (fault: Option<String>)
    ensures
        text_of(fault) == upstream_fault(url@),
{
    upstream_fault_of(parse_url(url))
}

/// Checks one CORS origin: it must not be empty, and must be `"*"` or parse
/// as a URL.
pub fn check_cors_origin(origin: &str) -> (allowed: bool)
    ensures
        allowed == origin_allowed(origin@),
{
    if origin.is_empty() {
        false
    } else if same_text(origin, "*") {
        true
    } else {
        parse_url(origin).is_ok()
    }
}

impl AppConfigRaw {
    /// Every rule that this configuration breaks, each with its error, in
    /// the order port, timeout, upstream URLs, origins. The list is empty
    /// exactly where validation succeeds; otherwise it starts with the
    /// error that validation gives.
    pub fn violations(&self) -> (found: Vec<ConfigError>)
        ensures
            error_models(found@) == violations_of(self@),
    {
        let mut found: Vec<ConfigError> = Vec::new();
        if self.port == 0 {
            found.push(ConfigError::InvalidPort(self.port));
        }
        if self.request_timeout_ms == 0 || self.request_timeout_ms > MAX_REQUEST_TIMEOUT_MS {
            found.push(ConfigError::InvalidTimeout(self.request_timeout_ms));
        }
        let ghost fixed: Seq<ConfigErrorModel> = port_violations(self.port) + timeout_violations(
            self.request_timeout_ms,
        );
        assert(error_models(found@) =~= fixed);
        let services: usize = self.upstreams.len();
        let mut i: usize = 0;
        while i < services
            invariant
                i <= services,
                services == self.upstreams.entries().len(),
                error_models(found@) == fixed + upstream_violations(
                    self.upstreams.entries(),
                    i as int,
                ),
            decreases services - i,
        {
            let ghost before: Seq<ConfigErrorModel> = error_models(found@);
            let ghost listed: Seq<ConfigErrorModel> = upstream_violations(
                self.upstreams.entries(),
                i as int,
            );
            match check_upstream_url(self.upstreams.url_at(i).as_str()) {
                Some(reason) => {
                    found.push(
                        ConfigError::InvalidUpstreamUrl(self.upstreams.name_at(i).clone(), reason),
                    );
                    assert(error_models(found@) =~= before.push(
                        ConfigErrorModel::InvalidUpstreamUrl(
                            self.upstreams.entries()[i as int].0,
                            reason@,
                        ),
                    ));
                },
                None => {},
            }
            i = i + 1;
            assert(upstream_violations(self.upstreams.entries(), i as int) == match upstream_fault(
                self.upstreams.entries()[i - 1].1,
            ) {
                Some(reason) => listed.push(
                    ConfigErrorModel::InvalidUpstreamUrl(self.upstreams.entries()[i - 1].0, reason),
                ),
                None => listed,
            });
            assert(error_models(found@) =~= fixed + upstream_violations(
                self.upstreams.entries(),
                i as int,
            ));
        }
        let ghost settled: Seq<ConfigErrorModel> = fixed + upstream_violations(
            self.upstreams.entries(),
            services as int,
        );
        let origins: usize = self.cors_origins.len();
        let mut k: usize = 0;
        while k < origins
            invariant
                k <= origins,
                origins == self.cors_origins@.len(),
                error_models(found@) == settled + origin_violations(
                    texts(self.cors_origins@),
                    k as int,
                ),
            decreases origins - k,
        {
            let ghost before: Seq<ConfigErrorModel> = error_models(found@);
            let ghost listed: Seq<ConfigErrorModel> = origin_violations(
                texts(self.cors_origins@),
                k as int,
            );
            if !check_cors_origin(self.cors_origins[k].as_str()) {
                found.push(ConfigError::InvalidCorsOrigin(self.cors_origins[k].clone()));
                assert(error_models(found@) =~= before.push(
                    ConfigErrorModel::InvalidCorsOrigin(texts(self.cors_origins@)[k as int]),
                ));
            }
            k = k + 1;
            assert(origin_violations(texts(self.cors_origins@), k as int) == if origin_allowed(
                texts(self.cors_origins@)[k - 1],
            ) {
                listed
            } else {
                listed.push(ConfigErrorModel::InvalidCorsOrigin(texts(self.cors_origins@)[k - 1]))
            });
            assert(error_models(found@) =~= settled + origin_violations(
                texts(self.cors_origins@),
                k as int,
            ));
        }
        found
    }
}

/// The address to listen on: `host:port`, with `0.0.0.0` for an empty host.
pub open spec fn addr_text(host: Seq<char>, port: u16) -> Seq<char> {
    (if host.len() == 0 {
        "0.0.0.0"@
    } else {
        host
    }) + ":"@ + decimal(port as nat)
}

impl AppConfig {
    /// The address to listen on, as `host:port`; an empty host stands for
    /// all interfaces and is written `0.0.0.0`.
    pub fn addr(&self) -> (text: String)
        ensures
            text@ == addr_text(self.host@, self.port),
    {
        let mut text: String = if self.host.as_str().is_empty() {
            String::from_str("0.0.0.0")
        } else {
            self.host.clone()
        };
        text.append(":");
        text.append(render_decimal(self.port as u64).as_str());
        text
    }

    /// The request timeout as a `Duration`.
    pub fn timeout_duration(&self) -> (timeout: Duration)
        ensures
            timeout == duration_of_millis(self.request_timeout_ms),
    {
        duration_from_millis(self.request_timeout_ms)
    }

    /// The base URL of the upstream service `service_name`, if it is configured.
    pub fn get_upstream_url(&self, service_name: &str) -> (url: Option<&String>)
        ensures
            match url {
                Some(u) => self.upstreams@.contains_key(service_name@) && u@
                    == self.upstreams@[service_name@],
                None => !self.upstreams@.contains_key(service_name@),
            },
    {
        self.upstreams.get(service_name)
    }

    /// All rules hold of this configuration.
    pub open spec fn valid(&self) -> bool {
        acceptable(self@)
    }

    /// Applies the rules to `raw`, in the order port, timeout, upstream
    /// URLs, origins. Gives the configuration with the very values of `raw`
    /// where all rules hold, else the error of the first rule that fails.
    pub fn validate_and_convert(raw: AppConfigRaw) -> (checked: Result<AppConfig, ConfigError>)
        ensures
            match checked {
                Ok(config) => validated(raw@) == Ok::<ConfigModel, ConfigErrorModel>(config@)
                    && config@ == raw@ && config.valid(),
                Err(error) => validated(raw@) == Err::<ConfigModel, ConfigErrorModel>(error@),
            },
    {
        if raw.port == 0 {
            return Err(ConfigError::InvalidPort(raw.port));
        }
        if raw.request_timeout_ms == 0 || raw.request_timeout_ms > MAX_REQUEST_TIMEOUT_MS {
            return Err(ConfigError::InvalidTimeout(raw.request_timeout_ms));
        }
        let services: usize = raw.upstreams.len();
        let mut i: usize = 0;
        while i < services
            invariant
                i <= services,
                services == raw.upstreams.entries().len(),
                port_allowed(raw.port),
                timeout_allowed(raw.request_timeout_ms),
                forall|j: int|
                    0 <= j < i ==> upstream_fault(#[trigger] raw.upstreams.entries()[j].1) is None,
            decreases services - i,
        {
            match check_upstream_url(raw.upstreams.url_at(i).as_str()) {
                Some(reason) => {
                    proof {
                        lemma_first_upstream_fault(raw.upstreams.entries(), i as int);
                    }
                    return Err(
                        ConfigError::InvalidUpstreamUrl(raw.upstreams.name_at(i).clone(), reason),
                    );
                },
                None => {},
            }
            i = i + 1;
        }
        let origins: usize = raw.cors_origins.len();
        let mut k: usize = 0;
        while k < origins
            invariant
                k <= origins,
                origins == raw.cors_origins@.len(),
                port_allowed(raw.port),
                timeout_allowed(raw.request_timeout_ms),
                upstreams_allowed(raw.upstreams.entries()),
                forall|j: int|
                    0 <= j < k ==> origin_allowed(#[trigger] texts(raw.cors_origins@)[j]),
            decreases origins - k,
        {
            if !check_cors_origin(raw.cors_origins[k].as_str()) {
                proof {
                    lemma_first_origin_fault(texts(raw.cors_origins@), k as int);
                }
                return Err(ConfigError::InvalidCorsOrigin(raw.cors_origins[k].clone()));
            }
            k = k + 1;
        }
        Ok(
            AppConfig {
                host: raw.host,
                port: raw.port,
                request_timeout_ms: raw.request_timeout_ms,
                upstreams: raw.upstreams,
                cors_origins: raw.cors_origins,
            },
        )
    }
}

} // verus!
