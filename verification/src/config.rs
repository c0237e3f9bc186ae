//! The endpoint rule store: deprecation rules, global settings, and the
//! matcher that decides whether a rule applies to a request.
//!
//! Rules are built once at startup, validated, and read-only afterwards.
//! Matching is first-match-wins over the configured order.

use vstd::prelude::*;
use vstd::string::StrSliceExecFns;
use vstd::string::StringExecFns;
use crate::dates::{format_ymd, valid_unix_time, ymd_of};
use crate::glob::{glob_compiles, glob_accepts, glob_is_match};
use crate::strings::{spec_is_prefix, str_eq, str_is_prefix, to_upper, upper_of};

verus! {

/// Lifecycle state of a governed endpoint.
#[derive(Debug, Clone, Copy, PartialEq, Eq, Structural)]
pub enum DeprecationStatus {
    /// Deprecated but still functional.
    Deprecated,
    /// Removed; requests must be answered with an error.
    Removed,
    /// Scheduled for deprecation; warnings only.
    Scheduled,
}

/// The label under which a lifecycle state is reported in tracking events.
pub open spec fn spec_status_label(s: DeprecationStatus) -> Seq<char> {
    match s {
        DeprecationStatus::Deprecated => "deprecated"@,
        DeprecationStatus::Removed => "removed"@,
        DeprecationStatus::Scheduled => "scheduled"@,
    }
}

impl DeprecationStatus {
    /// The state as a label, for tracking events.
    pub fn label(&self) -> (r: String)
        ensures
            r@ == spec_status_label(*self),
    {
        match self {
            DeprecationStatus::Deprecated => String::from_str("deprecated"),
            DeprecationStatus::Removed => String::from_str("removed"),
            DeprecationStatus::Scheduled => String::from_str("scheduled"),
        }
    }
}

impl Default for DeprecationStatus {
    fn default() -> (r: Self)
        ensures
            r == DeprecationStatus::Deprecated,
    {
        DeprecationStatus::Deprecated
    }
}

/// Successor endpoint for a deprecated one.
#[derive(Debug, Clone)]
pub struct ReplacementInfo {
    /// Path of the new endpoint.
    pub path: String,
    /// Whether the query string is carried over on redirect.
    pub preserve_query: bool,
    /// Old parameter name to new parameter name; informational only.
    pub param_mappings: Vec<(String, String)>,
    /// HTTP method of the new endpoint, when it differs.
    pub method: Option<String>,
}

/// Mathematical image of a `ReplacementInfo`.
pub struct ReplacementView {
    pub path: Seq<char>,
    pub preserve_query: bool,
    pub param_mappings: Seq<(Seq<char>, Seq<char>)>,
    pub method: Option<Seq<char>>,
}

/// View of a sequence of string pairs as a sequence of character-sequence
/// pairs.
pub open spec fn pairs_view(s: Seq<(String, String)>) -> Seq<(Seq<char>, Seq<char>)> {
    s.map_values(|p: (String, String)| (p.0@, p.1@))
}

/// View of an optional string as an optional character sequence.
pub open spec fn opt_view(s: Option<String>) -> Option<Seq<char>> {
    match s {
        Some(v) => Some(v@),
        None => None,
    }
}

impl View for ReplacementInfo {
    type V = ReplacementView;

    open spec fn view(&self) -> ReplacementView {
        ReplacementView {
            path: self.path@,
            preserve_query: self.preserve_query,
            param_mappings: pairs_view(self.param_mappings@),
            method: opt_view(self.method),
        }
    }
}

/// What to do when a governed endpoint is accessed.
#[derive(Debug, Clone)]
pub enum DeprecationAction {
    /// Allow the request but add deprecation headers.
    Warn,
    /// Redirect to the replacement endpoint.
    Redirect { status_code: u16 },
    /// Block the request with an error response.
    Block { status_code: u16 },
    /// Respond with an operator-supplied status, body and content type.
    Custom { status_code: u16, body: String, content_type: String },
}

impl Default for DeprecationAction {
    fn default() -> (r: Self)
        ensures
            r == DeprecationAction::Warn,
    {
        DeprecationAction::Warn
    }
}

/// Mathematical image of a `DeprecationAction`.
pub enum ActionView {
    Warn,
    Redirect { status_code: u16 },
    Block { status_code: u16 },
    Custom { status_code: u16, body: Seq<char>, content_type: Seq<char> },
}

impl View for DeprecationAction {
    type V = ActionView;

    open spec fn view(&self) -> ActionView {
        match self {
            DeprecationAction::Warn => ActionView::Warn,
            DeprecationAction::Redirect { status_code } => ActionView::Redirect {
                status_code: *status_code,
            },
            DeprecationAction::Block { status_code } => ActionView::Block {
                status_code: *status_code,
            },
            DeprecationAction::Custom { status_code, body, content_type } => ActionView::Custom {
                status_code: *status_code,
                body: body@,
                content_type: content_type@,
            },
        }
    }
}

/// One governed endpoint.
#[derive(Debug, Clone)]
pub struct DeprecatedEndpoint {
    /// Unique identifier of this rule.
    pub id: String,
    /// Path pattern to match; `*` and `?` make it a glob.
    pub path: String,
    /// HTTP methods to match; empty means all methods.
    pub methods: Vec<String>,
    /// Lifecycle state.
    pub status: DeprecationStatus,
    /// Unix second when the endpoint was deprecated.
    pub deprecated_at: Option<i64>,
    /// Unix second after which the endpoint may stop functioning (RFC 8594).
    pub sunset_at: Option<i64>,
    /// Successor endpoint, when one exists.
    pub replacement: Option<ReplacementInfo>,
    /// Link to migration documentation.
    pub documentation_url: Option<String>,
    /// Custom deprecation message; when absent one is synthesized.
    pub message: Option<String>,
    /// Action taken when the endpoint is accessed.
    pub action: DeprecationAction,
    /// Extra response headers, applied last; they may overwrite by name.
    pub headers: Vec<(String, String)>,
    /// Whether accesses are counted.
    pub track_usage: bool,
}

/// Mathematical image of a `DeprecatedEndpoint`.
#[verifier::ext_equal]
pub struct EndpointView {
    pub id: Seq<char>,
    pub path: Seq<char>,
    pub methods: Seq<Seq<char>>,
    pub status: DeprecationStatus,
    pub deprecated_at: Option<i64>,
    pub sunset_at: Option<i64>,
    pub replacement: Option<ReplacementView>,
    pub documentation_url: Option<Seq<char>>,
    pub message: Option<Seq<char>>,
    pub action: ActionView,
    pub headers: Seq<(Seq<char>, Seq<char>)>,
    pub track_usage: bool,
}

impl View for DeprecatedEndpoint {
    type V = EndpointView;

    open spec fn view(&self) -> EndpointView {
        EndpointView {
            id: self.id@,
            path: self.path@,
            methods: self.methods@.map_values(|m: String| m@),
            status: self.status,
            deprecated_at: self.deprecated_at,
            sunset_at: self.sunset_at,
            replacement: match self.replacement {
                Some(r) => Some(r@),
                None => None,
            },
            documentation_url: opt_view(self.documentation_url),
            message: opt_view(self.message),
            action: self.action@,
            headers: pairs_view(self.headers@),
            track_usage: self.track_usage,
        }
    }
}

/// What to do when an endpoint is accessed past its sunset date.
#[derive(Debug, Clone, Copy, PartialEq, Eq, Structural)]
pub enum PastSunsetAction {
    /// Continue to allow, with headers.
    Warn,
    /// Block with 410 Gone.
    Block,
    /// Redirect to the replacement, where one exists.
    Redirect,
}

impl Default for PastSunsetAction {
    fn default() -> (r: Self)
        ensures
            r == PastSunsetAction::Warn,
    {
        PastSunsetAction::Warn
    }
}

/// Process-wide settings: configurable header names and global policy.
#[derive(Debug, Clone)]
pub struct GlobalSettings {
    /// Header name for the deprecation marker.
    pub deprecation_header: String,
    /// Header name for the sunset date.
    pub sunset_header: String,
    /// Header name for documentation links.
    pub link_header: String,
    /// Header name for the human-readable notice.
    pub notice_header: String,
    /// Whether deprecation headers are attached at all.
    pub include_headers: bool,
    /// Policy for endpoints past their sunset date.
    pub past_sunset_action: PastSunsetAction,
    /// Whether accesses to deprecated endpoints are logged.
    pub log_access: bool,
}

/// Mathematical image of `GlobalSettings`.
pub struct SettingsView {
    pub deprecation_header: Seq<char>,
    pub sunset_header: Seq<char>,
    pub link_header: Seq<char>,
    pub notice_header: Seq<char>,
    pub include_headers: bool,
    pub past_sunset_action: PastSunsetAction,
    pub log_access: bool,
}

impl View for GlobalSettings {
    type V = SettingsView;

    open spec fn view(&self) -> SettingsView {
        SettingsView {
            deprecation_header: self.deprecation_header@,
            sunset_header: self.sunset_header@,
            link_header: self.link_header@,
            notice_header: self.notice_header@,
            include_headers: self.include_headers,
            past_sunset_action: self.past_sunset_action,
            log_access: self.log_access,
        }
    }
}

/// Default name of the deprecation marker header.
pub fn default_deprecation_header() -> (r: String)
    ensures
        r@ == "Deprecation"@,
{
    String::from_str("Deprecation")
}

/// Default name of the sunset date header.
pub fn default_sunset_header() -> (r: String)
    ensures
        r@ == "Sunset"@,
{
    String::from_str("Sunset")
}

/// Default name of the documentation link header.
pub fn default_link_header() -> (r: String)
    ensures
        r@ == "Link"@,
{
    String::from_str("Link")
}

/// Default name of the notice header.
pub fn default_notice_header() -> (r: String)
    ensures
        r@ == "X-Deprecation-Notice"@,
{
    String::from_str("X-Deprecation-Notice")
}

/// Default for boolean settings that are on unless configured off.
pub fn default_true() -> (r: bool)
    ensures
        r,
{
    true
}

/// Default status code of a redirect action: 308 Permanent Redirect.
pub fn default_redirect_code() -> (r: u16)
    ensures
        r == 308,
{
    308
}

/// Default status code of a block action: 410 Gone.
pub fn default_gone_code() -> (r: u16)
    ensures
        r == 410,
{
    410
}

/// Default content type of a custom response.
pub fn default_content_type() -> (r: String)
    ensures
        r@ == "application/json"@,
{
    String::from_str("application/json")
}

impl Default for GlobalSettings {
    fn default() -> (r: Self)
        ensures
            r@.deprecation_header == "Deprecation"@,
            r@.sunset_header == "Sunset"@,
            r@.link_header == "Link"@,
            r@.notice_header == "X-Deprecation-Notice"@,
            r@.include_headers,
            r@.past_sunset_action == PastSunsetAction::Warn,
            r@.log_access,
    {
        GlobalSettings {
            deprecation_header: default_deprecation_header(),
            sunset_header: default_sunset_header(),
            link_header: default_link_header(),
            notice_header: default_notice_header(),
            include_headers: default_true(),
            past_sunset_action: PastSunsetAction::Warn,
            log_access: default_true(),
        }
    }
}

/// Metrics sink configuration; the sink itself lives outside the engine.
#[derive(Debug, Clone)]
pub struct MetricsConfig {
    /// Whether metrics are exposed at all.
    pub enabled: bool,
    /// Prefix for metric names.
    pub prefix: String,
    /// Static labels attached to every metric.
    pub labels: Vec<(String, String)>,
    /// Port of the metrics endpoint; 0 disables it.
    pub port: u16,
}

/// Mathematical image of `MetricsConfig`.
pub struct MetricsView {
    pub enabled: bool,
    pub prefix: Seq<char>,
    pub labels: Seq<(Seq<char>, Seq<char>)>,
    pub port: u16,
}

impl View for MetricsConfig {
    type V = MetricsView;

    open spec fn view(&self) -> MetricsView {
        MetricsView {
            enabled: self.enabled,
            prefix: self.prefix@,
            labels: pairs_view(self.labels@),
            port: self.port,
        }
    }
}

/// Default prefix for metric names.
pub fn default_metrics_prefix() -> (r: String)
    ensures
        r@ == "zentinel_api_deprecation"@,
{
    String::from_str("zentinel_api_deprecation")
}

impl Default for MetricsConfig {
    fn default() -> (r: Self)
        ensures
            r@.enabled,
            r@.prefix == "zentinel_api_deprecation"@,
            r@.labels.len() == 0,
            r@.port == 0,
    {
        MetricsConfig {
            enabled: default_true(),
            prefix: default_metrics_prefix(),
            labels: Vec::new(),
            port: 0,
        }
    }
}

/// The whole configuration: ordered rules, global settings, metrics naming.
#[derive(Debug, Clone)]
pub struct ApiDeprecationConfig {
    /// Governed endpoints, in precedence order (first match wins).
    pub endpoints: Vec<DeprecatedEndpoint>,
    /// Global settings.
    pub settings: GlobalSettings,
    /// Metrics configuration.
    pub metrics: MetricsConfig,
}

/// Mathematical image of an `ApiDeprecationConfig`.
pub struct ConfigView {
    pub endpoints: Seq<EndpointView>,
    pub settings: SettingsView,
    pub metrics: MetricsView,
}

impl View for ApiDeprecationConfig {
    type V = ConfigView;

    open spec fn view(&self) -> ConfigView {
        ConfigView {
            endpoints: self.endpoints@.map_values(|e: DeprecatedEndpoint| e@),
            settings: self.settings@,
            metrics: self.metrics@,
        }
    }
}

impl Default for ApiDeprecationConfig {
    fn default() -> (r: Self)
        ensures
            r@.endpoints.len() == 0,
            r@.settings.deprecation_header == "Deprecation"@,
            r@.settings.sunset_header == "Sunset"@,
            r@.settings.link_header == "Link"@,
            r@.settings.notice_header == "X-Deprecation-Notice"@,
            r@.settings.include_headers,
            r@.settings.past_sunset_action == PastSunsetAction::Warn,
            r@.settings.log_access,
            r@.metrics.enabled,
            r@.metrics.prefix == "zentinel_api_deprecation"@,
            r@.metrics.labels.len() == 0,
            r@.metrics.port == 0,
    {
        ApiDeprecationConfig {
            endpoints: Vec::new(),
            settings: GlobalSettings::default(),
            metrics: MetricsConfig::default(),
        }
    }
}

/// Whether a pattern carries a glob wildcard (`*` or `?`).
pub open spec fn spec_has_wildcard(p: Seq<char>) -> bool {
    exists|i: int| 0 <= i < p.len() && (p[i] == '*' || p[i] == '?')
}

fn has_wildcard(s: &str) -> (r: bool)
    ensures
        r == spec_has_wildcard(s@),
{
    let len = s.unicode_len();
    let mut i: usize = 0;
    while i < len
        invariant
            i <= len,
            len == s@.len(),
            forall|j: int| 0 <= j < i ==> !(s@[j] == '*' || s@[j] == '?'),
        decreases len - i,
    {
        let c = s.get_char(i);
        if c == '*' || c == '?' {
            return true;
        }
        i += 1;
    }
    false
}

/// Path check of the matcher. A wildcard-free pattern matches its own path,
/// any path below it (the pattern plus `/` and more), and, when the pattern
/// itself ends in `/`, any path it prefixes. A pattern with wildcards is a
/// glob; one that does not compile matches nothing.
pub open spec fn spec_path_matches(pattern: Seq<char>, path: Seq<char>) -> bool {
    if !spec_has_wildcard(pattern) {
        ||| path == pattern
        ||| (path.len() > pattern.len() && path.subrange(0, pattern.len() as int) == pattern
            && path[pattern.len() as int] == '/')
        ||| (pattern.len() > 0 && pattern[pattern.len() - 1] == '/' && spec_is_prefix(pattern, path))
    } else {
        glob_compiles(pattern) && glob_accepts(pattern, path)
    }
}

/// Method check of the matcher: an empty method list admits every method;
/// otherwise the request method must appear in the list, compared by
/// uppercase image.
pub open spec fn spec_method_allowed(methods: Seq<Seq<char>>, method: Seq<char>) -> bool {
    ||| methods.len() == 0
    ||| exists|i: int| 0 <= i < methods.len() && #[trigger] upper_of(methods[i]) == upper_of(method)
}

/// Whether a rule applies to a request: its method check and its path check.
pub open spec fn spec_matches(e: EndpointView, path: Seq<char>, method: Seq<char>) -> bool {
    spec_method_allowed(e.methods, method) && spec_path_matches(e.path, path)
}

/// Whether the current time lies past a configured sunset date; no sunset
/// date means never.
pub open spec fn spec_past_sunset(sunset_at: Option<i64>, now_unix: i64) -> bool {
    match sunset_at {
        Some(sunset) => now_unix > sunset,
        None => false,
    }
}

/// Whether the timestamps a rule carries lie in the range the date formatters
/// accept.
pub open spec fn times_valid(e: EndpointView) -> bool {
    &&& (e.deprecated_at matches Some(t) ==> valid_unix_time(t))
    &&& (e.sunset_at matches Some(t) ==> valid_unix_time(t))
}

/// The deprecation notice for a rule: the operator's message verbatim when
/// one is set, else a synthesized sentence naming the path and, where known,
/// the sunset date, the successor path and the documentation link.
pub open spec fn spec_message(e: EndpointView) -> Seq<char> {
    match e.message {
        Some(m) => m,
        None => {
            let base = "This endpoint ("@ + e.path + ") is deprecated"@;
            let with_sunset = match e.sunset_at {
                Some(ts) => base + " and will be removed on "@ + ymd_of(ts),
                None => base,
            };
            let with_replacement = match e.replacement {
                Some(r) => with_sunset + ". Please migrate to "@ + r.path,
                None => with_sunset,
            };
            let with_docs = match e.documentation_url {
                Some(d) => with_replacement + ". See "@ + d + " for migration guide"@,
                None => with_replacement,
            };
            with_docs + "."@
        },
    }
}

/// A rule is valid when its id and path are non-empty and a redirect action
/// has a replacement to aim at.
pub open spec fn spec_endpoint_valid(e: EndpointView) -> bool {
    &&& e.id.len() > 0
    &&& e.path.len() > 0
    &&& ((e.action matches ActionView::Redirect { .. }) ==> e.replacement is Some)
}

/// A configuration error, found at load time; the process must not start on
/// one.
#[derive(Debug, Clone)]
pub enum ConfigError {
    /// A rule with an empty id.
    EmptyEndpointId,
    /// A rule with an empty path.
    EmptyEndpointPath { id: String },
    /// A redirect action with no replacement configured.
    RedirectWithoutReplacement { id: String },
}

/// Which rule defect an error reports, and for which rule.
pub open spec fn spec_endpoint_error_matches(e: EndpointView, err: ConfigError) -> bool {
    match err {
        ConfigError::EmptyEndpointId => e.id.len() == 0,
        ConfigError::EmptyEndpointPath { id } => e.id.len() > 0 && e.path.len() == 0 && id@
            == e.id,
        ConfigError::RedirectWithoutReplacement { id } => e.id.len() > 0 && e.path.len() > 0 && (
        e.action matches ActionView::Redirect { .. }) && e.replacement is None && id@ == e.id,
    }
}

impl ConfigError {
    /// The operator-facing text of the error.
    pub fn message(&self) -> (r: String)
        ensures
            r@ == match *self {
                ConfigError::EmptyEndpointId => "Endpoint id cannot be empty"@,
                ConfigError::EmptyEndpointPath { id } => "Endpoint path cannot be empty for id: "@
                    + id@,
                ConfigError::RedirectWithoutReplacement { id } =>
                "Redirect action requires replacement info for endpoint: "@ + id@,
            },
    {
        match self {
            ConfigError::EmptyEndpointId => String::from_str("Endpoint id cannot be empty"),
            ConfigError::EmptyEndpointPath { id } => String::from_str(
                "Endpoint path cannot be empty for id: ",
            ).concat(id.as_str()),
            ConfigError::RedirectWithoutReplacement { id } => String::from_str(
                "Redirect action requires replacement info for endpoint: ",
            ).concat(id.as_str()),
        }
    }
}

impl DeprecatedEndpoint {
    /// Check the rule's invariant: non-empty id and path, and a replacement
    /// wherever a redirect action is configured.
    pub fn validate(&self) -> (r: Result<(), ConfigError>)
        ensures
            r is Ok <==> spec_endpoint_valid(self@),
            r matches Err(err) ==> spec_endpoint_error_matches(self@, err),
    {
        if self.id.as_str().is_empty() {
            return Err(ConfigError::EmptyEndpointId);
        }
        if self.path.as_str().is_empty() {
            return Err(ConfigError::EmptyEndpointPath { id: self.id.clone() });
        }
        if matches!(self.action, DeprecationAction::Redirect { .. }) && self.replacement.is_none() {
            return Err(ConfigError::RedirectWithoutReplacement { id: self.id.clone() });
        }
        Ok(())
    }

    /// Whether this rule applies to the given request path and method.
    pub fn matches(&self, path: &str, method: &str) -> (r: bool)
        ensures
            r == spec_matches(self@, path@, method@),
    {
        if self.methods.len() > 0 {
            if !self.method_allowed(method) {
                return false;
            }
        }
        self.matches_path(path)
    }

    fn method_allowed(&self, method: &str) -> (r: bool)
        ensures
            r == spec_method_allowed(self@.methods, method@),
    {
        if self.methods.len() == 0 {
            return true;
        }
        let method_upper = to_upper(method);
        let mut i: usize = 0;
        while i < self.methods.len()
            invariant
                i <= self.methods.len(),
                method_upper@ == upper_of(method@),
                forall|j: int| 0 <= j < i ==> #[trigger] upper_of(self@.methods[j]) != upper_of(
                    method@,
                ),
            decreases self.methods.len() - i,
        {
            proof {
                assert(self@.methods[i as int] == self.methods@[i as int]@);
            }
            let candidate = to_upper(self.methods[i].as_str());
            if candidate == method_upper {
                return true;
            }
            i += 1;
        }
        false
    }

    fn matches_path(&self, path: &str) -> (r: bool)
        ensures
            r == spec_path_matches(self@.path, path@),
    {
        let pattern = self.path.as_str();
        if !has_wildcard(pattern) {
            if str_eq(path, pattern) {
                return true;
            }
            let pattern_len = pattern.unicode_len();
            let path_len = path.unicode_len();
            if path_len > pattern_len && str_is_prefix(pattern, path) && path.get_char(pattern_len)
                == '/' {
                proof {
                    assert(path@.subrange(0, pattern@.len() as int) == pattern@);
                }
                return true;
            }
            if pattern_len > 0 && pattern.get_char(pattern_len - 1) == '/' && str_is_prefix(
                pattern,
                path,
            ) {
                return true;
            }
            proof {
                if path@.len() > pattern@.len() && path@.subrange(0, pattern@.len() as int)
                    == pattern@ && path@[pattern@.len() as int] == '/' {
                    assert(spec_is_prefix(pattern@, path@));
                }
            }
            false
        } else {
            glob_is_match(pattern, path)
        }
    }

    /// Whether the rule's sunset date, if any, lies before the given time.
    pub fn is_past_sunset(&self, now_unix: i64) -> (r: bool)
        ensures
            r == spec_past_sunset(self@.sunset_at, now_unix),
    {
        match self.sunset_at {
            Some(sunset) => now_unix > sunset,
            None => false,
        }
    }

    /// The deprecation notice for this rule.
    pub fn deprecation_message(&self) -> (r: String)
        requires
            self@.sunset_at matches Some(t) ==> valid_unix_time(t),
        ensures
            r@ == spec_message(self@),
    {
        if let Some(msg) = &self.message {
            return msg.clone();
        }
        let mut m = String::from_str("This endpoint (");
        m.append(self.path.as_str());
        m.append(") is deprecated");
        if let Some(ts) = self.sunset_at {
            m.append(" and will be removed on ");
            let day = format_ymd(ts);
            m.append(day.as_str());
        }
        if let Some(replacement) = &self.replacement {
            m.append(". Please migrate to ");
            m.append(replacement.path.as_str());
        }
        if let Some(docs) = &self.documentation_url {
            m.append(". See ");
            m.append(docs.as_str());
            m.append(" for migration guide");
        }
        m.append(".");
        proof {
            assert(m@ =~= spec_message(self@));
        }
        m
    }
}

/// Whether every rule of the configuration is valid.
pub open spec fn spec_config_valid(c: ConfigView) -> bool {
    forall|i: int| 0 <= i < c.endpoints.len() ==> spec_endpoint_valid(#[trigger] c.endpoints[i])
}

/// Whether the timestamps of every rule lie in the formatters' range.
pub open spec fn config_times_valid(c: ConfigView) -> bool {
    forall|i: int| 0 <= i < c.endpoints.len() ==> times_valid(#[trigger] c.endpoints[i])
}

/// Position of the first invalid rule: every rule before it is valid.
pub open spec fn first_invalid_endpoint(endpoints: Seq<EndpointView>, i: int) -> bool {
    &&& 0 <= i < endpoints.len()
    &&& !spec_endpoint_valid(endpoints[i])
    &&& forall|j: int| 0 <= j < i ==> spec_endpoint_valid(#[trigger] endpoints[j])
}

/// Position of the first rule that applies to a request: no rule before it
/// applies.
pub open spec fn first_match_at(
    endpoints: Seq<EndpointView>,
    path: Seq<char>,
    method: Seq<char>,
    i: int,
) -> bool {
    &&& 0 <= i < endpoints.len()
    &&& spec_matches(endpoints[i], path, method)
    &&& forall|j: int| 0 <= j < i ==> !spec_matches(#[trigger] endpoints[j], path, method)
}

/// Whether some rule of the list applies to the request.
pub open spec fn spec_some_match(
    endpoints: Seq<EndpointView>,
    path: Seq<char>,
    method: Seq<char>,
) -> bool {
    exists|i: int| 0 <= i < endpoints.len() && spec_matches(#[trigger] endpoints[i], path, method)
}

impl ApiDeprecationConfig {
    /// Check every rule's invariant; the first defect is reported.
    pub fn validate(&self) -> (r: Result<(), ConfigError>)
        ensures
            r is Ok <==> spec_config_valid(self@),
            r matches Err(err) ==> exists|i: int|
                #[trigger] first_invalid_endpoint(self@.endpoints, i) && spec_endpoint_error_matches(
                    self@.endpoints[i],
                    err,
                ),
    {
        let mut i: usize = 0;
        while i < self.endpoints.len()
            invariant
                i <= self.endpoints.len(),
                self@.endpoints.len() == self.endpoints@.len(),
                forall|j: int| 0 <= j < i ==> spec_endpoint_valid(#[trigger] self@.endpoints[j]),
            decreases self.endpoints.len() - i,
        {
            proof {
                assert(self@.endpoints[i as int] == self.endpoints@[i as int]@);
            }
            match self.endpoints[i].validate() {
                Ok(()) => {},
                Err(err) => {
                    proof {
                        assert(first_invalid_endpoint(self@.endpoints, i as int));
                    }
                    return Err(err);
                },
            }
            i += 1;
        }
        Ok(())
    }

    /// The first configured rule that applies to the request, in
    /// configuration order, or nothing when none applies.
    pub fn find_endpoint(&self, path: &str, method: &str) -> (r: Option<&DeprecatedEndpoint>)
        ensures
            match r {
                Some(e) => exists|i: int|
                    #[trigger] first_match_at(self@.endpoints, path@, method@, i) && *e
                        == self.endpoints@[i],
                None => !spec_some_match(self@.endpoints, path@, method@),
            },
    {
        let mut i: usize = 0;
        while i < self.endpoints.len()
            invariant
                i <= self.endpoints.len(),
                self@.endpoints.len() == self.endpoints@.len(),
                forall|j: int| 0 <= j < i ==> !spec_matches(
                    #[trigger] self@.endpoints[j],
                    path@,
                    method@,
                ),
            decreases self.endpoints.len() - i,
        {
            proof {
                assert(self@.endpoints[i as int] == self.endpoints@[i as int]@);
            }
            if self.endpoints[i].matches(path, method) {
                proof {
                    assert(first_match_at(self@.endpoints, path@, method@, i as int));
                }
                return Some(&self.endpoints[i]);
            }
            i += 1;
        }
        None
    }
}

/// A soft configuration finding: the rule is still `Deprecated` although its
/// sunset date lies in the past. Valid, but worth the operator's attention.
pub open spec fn spec_sunset_warning(e: EndpointView, now_unix: i64) -> bool {
    e.status == DeprecationStatus::Deprecated && spec_past_sunset(e.sunset_at, now_unix)
}

/// Ids of the rules a sunset warning applies to, in configuration order.
pub open spec fn spec_sunset_warnings(es: Seq<EndpointView>, now_unix: i64) -> Seq<Seq<char>>
    decreases es.len(),
{
    if es.len() == 0 {
        Seq::empty()
    } else {
        let front = spec_sunset_warnings(es.drop_last(), now_unix);
        if spec_sunset_warning(es.last(), now_unix) {
            front.push(es.last().id)
        } else {
            front
        }
    }
}

impl ApiDeprecationConfig {
    /// Ids of rules that are still `Deprecated` although their sunset date
    /// already lies in the past: a soft warning, not an error.
    pub fn sunset_warnings(&self, now_unix: i64) -> (r: Vec<String>)
        ensures
            r@.map_values(|id: String| id@) == spec_sunset_warnings(
                self@.endpoints,
                now_unix,
            ),
    {
        let ghost es = self@.endpoints;
        let mut out: Vec<String> = Vec::new();
        let mut i: usize = 0;
        while i < self.endpoints.len()
            invariant
                es == self@.endpoints,
                es.len() == self.endpoints@.len(),
                i <= self.endpoints.len(),
                out@.map_values(|id: String| id@) == spec_sunset_warnings(
                    es.take(i as int),
                    now_unix,
                ),
            decreases self.endpoints.len() - i,
        {
            proof {
                assert(es[i as int] == self.endpoints@[i as int]@);
                assert(es.take(i + 1).drop_last() =~= es.take(i as int));
                assert(es.take(i + 1).last() == es[i as int]);
            }
            let endpoint = &self.endpoints[i];
            let past = endpoint.is_past_sunset(now_unix);
            if matches!(endpoint.status, DeprecationStatus::Deprecated) && past {
                out.push(endpoint.id.clone());
                proof {
                    assert(out@.map_values(|id: String| id@) =~= spec_sunset_warnings(
                        es.take(i + 1),
                        now_unix,
                    ));
                }
            } else {
                proof {
                    assert(out@.map_values(|id: String| id@) =~= spec_sunset_warnings(
                        es.take(i + 1),
                        now_unix,
                    ));
                }
            }
            i += 1;
        }
        proof {
            assert(es.take(self.endpoints@.len() as int) =~= es);
        }
        out
    }
}

/// A rule with an empty method list treats every request method alike: its
/// verdict depends on the path alone.
pub proof fn lemma_empty_methods_match_any_method(
    e: EndpointView,
    path: Seq<char>,
    m1: Seq<char>,
    m2: Seq<char>,
)
    requires
        e.methods.len() == 0,
    ensures
        spec_matches(e, path, m1) == spec_matches(e, path, m2),
{
}

/// Method comparison is case-insensitive: two request methods with the same
/// uppercase image receive the same verdict from every rule.
pub proof fn lemma_method_match_case_insensitive(
    e: EndpointView,
    path: Seq<char>,
    m1: Seq<char>,
    m2: Seq<char>,
)
    requires
        upper_of(m1) == upper_of(m2),
    ensures
        spec_matches(e, path, m1) == spec_matches(e, path, m2),
{
    if spec_method_allowed(e.methods, m1) && e.methods.len() > 0 {
        let i = choose|i: int|
            0 <= i < e.methods.len() && #[trigger] upper_of(e.methods[i]) == upper_of(m1);
        assert(upper_of(e.methods[i]) == upper_of(m2));
    }
    if spec_method_allowed(e.methods, m2) && e.methods.len() > 0 {
        let i = choose|i: int|
            0 <= i < e.methods.len() && #[trigger] upper_of(e.methods[i]) == upper_of(m2);
        assert(upper_of(e.methods[i]) == upper_of(m1));
    }
}

} // verus!
