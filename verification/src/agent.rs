//! The decision engine: per-request orchestration of rule lookup, action
//! resolution, header composition and redirect-target construction.
//!
//! Every function here is a pure computation over the configuration, the
//! request facts (path, method, query string) and the current time handed in
//! as Unix seconds; tracking events come back as data for the host to emit.

use vstd::prelude::*;
use vstd::string::StringExecFns;
use crate::config::{
    config_times_valid, first_match_at, opt_view, spec_message, spec_past_sunset,
    spec_some_match, spec_status_label, times_valid, ActionView, ApiDeprecationConfig, ConfigView,
    DeprecatedEndpoint, DeprecationAction, DeprecationStatus, EndpointView, PastSunsetAction,
    ReplacementInfo, ReplacementView, SettingsView,
};
use crate::config::pairs_view;
use crate::dates::now_unix;
use crate::headers::{
    header_map, keys_unique, spec_gone_body, spec_headers_map, DeprecationHeaders,
    gone_response_body,
};

verus! {

/// The action resolved for one request, after status, sunset and global
/// policy have been weighed.
#[derive(Debug, Clone)]
pub enum DeprecationActionResult {
    /// Allow the request; headers carry the warning.
    Warn,
    /// Redirect to the replacement endpoint.
    Redirect { status_code: u16 },
    /// Refuse the request.
    Block { status_code: u16 },
    /// Respond with an operator-supplied status, body and content type.
    Custom { status_code: u16, body: String, content_type: String },
}

/// Mathematical image of a `DeprecationActionResult`.
pub enum ActionResultView {
    Warn,
    Redirect { status_code: u16 },
    Block { status_code: u16 },
    Custom { status_code: u16, body: Seq<char>, content_type: Seq<char> },
}

impl View for DeprecationActionResult {
    type V = ActionResultView;

    open spec fn view(&self) -> ActionResultView {
        match self {
            DeprecationActionResult::Warn => ActionResultView::Warn,
            DeprecationActionResult::Redirect { status_code } => ActionResultView::Redirect {
                status_code: *status_code,
            },
            DeprecationActionResult::Block { status_code } => ActionResultView::Block {
                status_code: *status_code,
            },
            DeprecationActionResult::Custom { status_code, body, content_type } =>
                ActionResultView::Custom {
                status_code: *status_code,
                body: body@,
                content_type: content_type@,
            },
        }
    }
}

/// The action resolution table, first applicable row wins: a removed
/// endpoint is always blocked with 410; past the sunset date the global
/// policy decides, where a redirect policy without a replacement degrades to
/// a 410 block; otherwise the rule's own action stands.
pub open spec fn spec_determine_action(
    e: EndpointView,
    s: SettingsView,
    past_sunset: bool,
) -> ActionResultView {
    if e.status == DeprecationStatus::Removed {
        ActionResultView::Block { status_code: 410 }
    } else if past_sunset {
        match s.past_sunset_action {
            PastSunsetAction::Warn => ActionResultView::Warn,
            PastSunsetAction::Block => ActionResultView::Block { status_code: 410 },
            PastSunsetAction::Redirect => if e.replacement is Some {
                ActionResultView::Redirect { status_code: 301 }
            } else {
                ActionResultView::Block { status_code: 410 }
            },
        }
    } else {
        match e.action {
            ActionView::Warn => ActionResultView::Warn,
            ActionView::Redirect { status_code } => ActionResultView::Redirect { status_code },
            ActionView::Block { status_code } => ActionResultView::Block { status_code },
            ActionView::Custom { status_code, body, content_type } => ActionResultView::Custom {
                status_code,
                body,
                content_type,
            },
        }
    }
}

/// A removed endpoint is blocked with 410 whatever action, sunset date or
/// global policy the configuration carries.
pub proof fn lemma_removed_always_blocks(e: EndpointView, s: SettingsView, past_sunset: bool)
    requires
        e.status == DeprecationStatus::Removed,
    ensures
        spec_determine_action(e, s, past_sunset) == (ActionResultView::Block { status_code: 410 }),
{
}

/// Past the sunset date, a redirect policy with no replacement configured
/// yields a 410 block, never a redirect to an empty target.
pub proof fn lemma_past_sunset_redirect_needs_replacement(e: EndpointView, s: SettingsView)
    requires
        s.past_sunset_action == PastSunsetAction::Redirect,
        e.replacement is None,
    ensures
        spec_determine_action(e, s, true) == (ActionResultView::Block { status_code: 410 }),
{
}

/// View of an optional string slice.
pub open spec fn opt_str_view(s: Option<&str>) -> Option<Seq<char>> {
    match s {
        Some(v) => Some(v@),
        None => None,
    }
}

/// The redirect target: the replacement path, with the request's query
/// string appended verbatim after `?` when the replacement preserves queries
/// and the query is non-empty.
pub open spec fn spec_redirect_target(r: ReplacementView, query: Option<Seq<char>>) -> Seq<char> {
    match query {
        Some(q) => if r.preserve_query && q.len() > 0 {
            r.path + "?"@ + q
        } else {
            r.path
        },
        None => r.path,
    }
}

/// Build the redirect target for a replacement and an optional raw query
/// string; no re-encoding and no parameter remapping.
pub fn redirect_target(replacement: &ReplacementInfo, query_string: Option<&str>) -> (r: String)
    ensures
        r@ == spec_redirect_target(replacement@, opt_str_view(query_string)),
{
    let mut url = replacement.path.clone();
    if replacement.preserve_query {
        if let Some(q) = query_string {
            if q.unicode_len() > 0 {
                url.append("?");
                url.append(q);
            }
        }
    }
    url
}

/// A usage-tracking event: one per matched request whose rule tracks usage.
#[derive(Debug, Clone)]
pub struct UsageEvent {
    /// Id of the matched rule.
    pub endpoint_id: String,
    /// Request path.
    pub path: String,
    /// Request method.
    pub method: String,
    /// The rule's lifecycle state, as a label.
    pub status: String,
}

/// Mathematical image of a `UsageEvent`.
pub struct UsageView {
    pub endpoint_id: Seq<char>,
    pub path: Seq<char>,
    pub method: Seq<char>,
    pub status: Seq<char>,
}

impl View for UsageEvent {
    type V = UsageView;

    open spec fn view(&self) -> UsageView {
        UsageView {
            endpoint_id: self.endpoint_id@,
            path: self.path@,
            method: self.method@,
            status: self.status@,
        }
    }
}

/// A usage event is present exactly when the rule tracks usage, and then
/// names the rule, the request and the rule's state.
pub open spec fn usage_matches(
    u: Option<UsageView>,
    e: EndpointView,
    path: Seq<char>,
    method: Seq<char>,
) -> bool {
    match u {
        Some(ev) => {
            &&& e.track_usage
            &&& ev.endpoint_id == e.id
            &&& ev.path == path
            &&& ev.method == method
            &&& ev.status == spec_status_label(e.status)
        },
        None => !e.track_usage,
    }
}

/// What one matched request resolves to, before it is mapped to a gateway
/// decision.
#[derive(Debug, Clone)]
pub struct DeprecationDecision {
    /// Id of the matched rule.
    pub endpoint_id: String,
    /// The resolved action.
    pub action: DeprecationActionResult,
    /// The composed deprecation headers.
    pub headers: Vec<(String, String)>,
    /// The redirect target, for redirect outcomes with a replacement.
    pub redirect_url: Option<String>,
    /// The deprecation notice.
    pub message: String,
    /// The rule's documentation link.
    pub documentation_url: Option<String>,
    /// The usage-tracking event to emit, when the rule tracks usage.
    pub usage: Option<UsageEvent>,
}

/// Mathematical image of a `DeprecationDecision`.
pub struct DecisionView {
    pub endpoint_id: Seq<char>,
    pub action: ActionResultView,
    pub headers: Seq<(Seq<char>, Seq<char>)>,
    pub redirect_url: Option<Seq<char>>,
    pub message: Seq<char>,
    pub documentation_url: Option<Seq<char>>,
    pub usage: Option<UsageView>,
}

impl View for DeprecationDecision {
    type V = DecisionView;

    open spec fn view(&self) -> DecisionView {
        DecisionView {
            endpoint_id: self.endpoint_id@,
            action: self.action@,
            headers: pairs_view(self.headers@),
            redirect_url: opt_view(self.redirect_url),
            message: self.message@,
            documentation_url: opt_view(self.documentation_url),
            usage: match self.usage {
                Some(u) => Some(u@),
                None => None,
            },
        }
    }
}

/// The redirect target of a decision: present exactly for a redirect
/// outcome whose rule has a replacement.
pub open spec fn spec_redirect_url(
    e: EndpointView,
    act: ActionResultView,
    query: Option<Seq<char>>,
) -> Option<Seq<char>> {
    if act matches ActionResultView::Redirect { .. } {
        match e.replacement {
            Some(r) => Some(spec_redirect_target(r, query)),
            None => None,
        }
    } else {
        None
    }
}

/// What a decision for the rule at position `i` must hold: the rule's id,
/// the resolved action, the composed headers, the redirect target, the
/// notice, the documentation link, and the usage event.
pub open spec fn decision_matches(
    c: ConfigView,
    path: Seq<char>,
    method: Seq<char>,
    query: Option<Seq<char>>,
    now_unix: i64,
    d: DecisionView,
    i: int,
) -> bool {
    let e = c.endpoints[i];
    let act = spec_determine_action(e, c.settings, spec_past_sunset(e.sunset_at, now_unix));
    &&& d.endpoint_id == e.id
    &&& d.action == act
    &&& keys_unique(d.headers)
    &&& header_map(d.headers) == spec_headers_map(e, c.settings)
    &&& d.redirect_url == spec_redirect_url(e, act, query)
    &&& d.message == spec_message(e)
    &&& d.documentation_url == e.documentation_url
    &&& usage_matches(d.usage, e, path, method)
}

/// The deprecation decision engine: a read-only rule store, consulted once
/// per request.
pub struct ApiDeprecationAgent {
    /// The configuration the engine answers from.
    pub config: ApiDeprecationConfig,
}

impl ApiDeprecationAgent {
    /// Wrap a configuration for request-time use.
    pub fn new(config: ApiDeprecationConfig) -> (r: Self)
        ensures
            r.config == config,
    {
        ApiDeprecationAgent { config }
    }

    /// Resolve the action for a matched rule: removed beats past-sunset
    /// beats the rule's configured action.
    fn determine_action(&self, endpoint: &DeprecatedEndpoint, past_sunset: bool) -> (r:
        DeprecationActionResult)
        ensures
            r@ == spec_determine_action(endpoint@, self.config@.settings, past_sunset),
    {
        if matches!(endpoint.status, DeprecationStatus::Removed) {
            return DeprecationActionResult::Block { status_code: 410 };
        }
        if past_sunset {
            return match self.config.settings.past_sunset_action {
                PastSunsetAction::Warn => DeprecationActionResult::Warn,
                PastSunsetAction::Block => DeprecationActionResult::Block { status_code: 410 },
                PastSunsetAction::Redirect => {
                    if endpoint.replacement.is_some() {
                        DeprecationActionResult::Redirect { status_code: 301 }
                    } else {
                        DeprecationActionResult::Block { status_code: 410 }
                    }
                },
            };
        }
        match &endpoint.action {
            DeprecationAction::Warn => DeprecationActionResult::Warn,
            DeprecationAction::Redirect { status_code } => DeprecationActionResult::Redirect {
                status_code: *status_code,
            },
            DeprecationAction::Block { status_code } => DeprecationActionResult::Block {
                status_code: *status_code,
            },
            DeprecationAction::Custom { status_code, body, content_type } =>
                DeprecationActionResult::Custom {
                status_code: *status_code,
                body: body.clone(),
                content_type: content_type.clone(),
            },
        }
    }

    /// Decide one request: find the first applicable rule, resolve its
    /// action, compose headers and redirect target, and report the usage
    /// event to emit. No applicable rule means pass-through.
    pub fn process_request(
        &self,
        path: &str,
        method: &str,
        query_string: Option<&str>,
        now_unix: i64,
    ) -> (r: Option<DeprecationDecision>)
        requires
            config_times_valid(self.config@),
        ensures
            match r {
                Some(d) => exists|i: int|
                    #[trigger] first_match_at(self.config@.endpoints, path@, method@, i)
                        && decision_matches(
                        self.config@,
                        path@,
                        method@,
                        opt_str_view(query_string),
                        now_unix,
                        d@,
                        i,
                    ),
                None => !spec_some_match(self.config@.endpoints, path@, method@),
            },
    {
        let endpoint = match self.config.find_endpoint(path, method) {
            Some(e) => e,
            None => {
                return None;
            },
        };
        let ghost i = choose|i: int|
            #[trigger] first_match_at(self.config@.endpoints, path@, method@, i) && *endpoint
                == self.config.endpoints@[i];
        proof {
            assert(endpoint@ == self.config@.endpoints[i]);
            assert(times_valid(endpoint@));
        }
        let usage = if endpoint.track_usage {
            Some(
                UsageEvent {
                    endpoint_id: endpoint.id.clone(),
                    path: path.to_owned(),
                    method: method.to_owned(),
                    status: endpoint.status.label(),
                },
            )
        } else {
            None
        };
        let past_sunset = endpoint.is_past_sunset(now_unix);
        let action = self.determine_action(endpoint, past_sunset);
        let headers = DeprecationHeaders::for_endpoint(endpoint, &self.config.settings).build();
        let is_redirect = matches!(action, DeprecationActionResult::Redirect { .. });
        let redirect_url = if is_redirect {
            match &endpoint.replacement {
                Some(replacement) => Some(redirect_target(replacement, query_string)),
                None => None,
            }
        } else {
            None
        };
        let documentation_url = match &endpoint.documentation_url {
            Some(d) => Some(d.clone()),
            None => None,
        };
        let decision = DeprecationDecision {
            endpoint_id: endpoint.id.clone(),
            action,
            headers,
            redirect_url,
            message: endpoint.deprecation_message(),
            documentation_url,
            usage,
        };
        proof {
            assert(decision_matches(
                self.config@,
                path@,
                method@,
                opt_str_view(query_string),
                now_unix,
                decision@,
                i,
            ));
        }
        Some(decision)
    }
}

/// What the gateway is told to do with the request.
#[derive(Debug)]
pub enum GatewayDecision {
    /// No rule applies: let the request through untouched.
    PassThrough,
    /// Let the request through and attach the headers to the response.
    AllowWithHeaders { headers: Vec<(String, String)> },
    /// Answer with a redirect to `location`, carrying the headers.
    Redirect { status_code: u16, location: String, headers: Vec<(String, String)> },
    /// Refuse the request with the status, body and headers.
    Block { status_code: u16, body: String, content_type: String, headers: Vec<(String, String)> },
    /// Answer exactly as the operator configured; no deprecation headers.
    CustomResponse { status_code: u16, body: String, content_type: String },
}

/// A redirect performed, for the tracking sink.
#[derive(Debug, Clone)]
pub struct RedirectEvent {
    pub endpoint_id: String,
    pub from_path: String,
    pub to_path: String,
}

/// A request refused, for the tracking sink.
#[derive(Debug, Clone)]
pub struct BlockedEvent {
    pub endpoint_id: String,
    pub path: String,
    pub reason: String,
}

/// The full outcome of one request: the gateway decision, observability
/// tags, and the tracking events to emit.
#[derive(Debug)]
pub struct RequestVerdict {
    /// What the gateway does.
    pub decision: GatewayDecision,
    /// Tag: the request hit a governed endpoint.
    pub deprecated: bool,
    /// Tag: the request was answered with a redirect.
    pub redirected: bool,
    /// Tag: the request was refused.
    pub blocked: bool,
    /// Tag: the operator's custom response was served.
    pub custom_response: bool,
    /// Id of the matched rule, where one matched.
    pub endpoint_id: Option<String>,
    /// Usage event, where the matched rule tracks usage.
    pub usage: Option<UsageEvent>,
    /// Redirect event, where a redirect was performed.
    pub redirect_event: Option<RedirectEvent>,
    /// Blocked event, where the request was refused.
    pub blocked_event: Option<BlockedEvent>,
}

/// View of an optional usage event.
pub open spec fn opt_usage_view(u: Option<UsageEvent>) -> Option<UsageView> {
    match u {
        Some(x) => Some(x@),
        None => None,
    }
}

/// The rule a 410 Gone body is written for: the request's path, the matched
/// rule's notice and documentation link, no replacement and nothing else.
pub open spec fn gone_view(e: EndpointView, path: Seq<char>) -> EndpointView {
    EndpointView {
        id: e.id,
        path: path,
        methods: Seq::empty(),
        status: DeprecationStatus::Removed,
        deprecated_at: None,
        sunset_at: None,
        replacement: None,
        documentation_url: e.documentation_url,
        message: Some(spec_message(e)),
        action: ActionView::Block { status_code: 410 },
        headers: Seq::empty(),
        track_usage: false,
    }
}

/// A verdict that leaves the request alone: no headers, no tags, no events.
pub open spec fn verdict_pass_through(v: RequestVerdict) -> bool {
    &&& v.decision matches GatewayDecision::PassThrough
    &&& !v.deprecated
    &&& !v.redirected
    &&& !v.blocked
    &&& !v.custom_response
    &&& v.endpoint_id is None
    &&& v.usage is None
    &&& v.redirect_event is None
    &&& v.blocked_event is None
}

/// What the verdict must hold when the rule at position `i` matched: the
/// decision that the resolved action maps to, the tags that go with it, and
/// exactly the tracking events the outcome calls for.
pub open spec fn verdict_at(
    c: ConfigView,
    path: Seq<char>,
    method: Seq<char>,
    query: Option<Seq<char>>,
    now_unix: i64,
    v: RequestVerdict,
    i: int,
) -> bool {
    let e = c.endpoints[i];
    let act = spec_determine_action(e, c.settings, spec_past_sunset(e.sunset_at, now_unix));
    let hm = spec_headers_map(e, c.settings);
    &&& v.deprecated
    &&& opt_view(v.endpoint_id) == Some(e.id)
    &&& usage_matches(opt_usage_view(v.usage), e, path, method)
    &&& match act {
        ActionResultView::Warn => {
            &&& (v.decision matches GatewayDecision::AllowWithHeaders { headers } && {
                &&& keys_unique(pairs_view(headers@))
                &&& header_map(pairs_view(headers@)) == hm
            })
            &&& !v.redirected
            &&& !v.blocked
            &&& !v.custom_response
            &&& v.redirect_event is None
            &&& v.blocked_event is None
        },
        ActionResultView::Redirect { status_code: code } => match e.replacement {
            Some(r) => {
                let target = spec_redirect_target(r, query);
                &&& (v.decision matches GatewayDecision::Redirect { status_code, location, headers }
                    && {
                    &&& status_code == code
                    &&& location@ == target
                    &&& keys_unique(pairs_view(headers@))
                    &&& header_map(pairs_view(headers@)) == hm
                })
                &&& v.redirected
                &&& !v.blocked
                &&& !v.custom_response
                &&& (v.redirect_event matches Some(ev) && {
                    &&& ev.endpoint_id@ == e.id
                    &&& ev.from_path@ == path
                    &&& ev.to_path@ == target
                })
                &&& v.blocked_event is None
            },
            None => {
                &&& (v.decision matches GatewayDecision::Block {
                    status_code,
                    body,
                    content_type,
                    headers,
                } && {
                    &&& status_code == 410
                    &&& body@ == spec_gone_body(gone_view(e, path))
                    &&& content_type@ == "application/json"@
                    &&& headers@.len() == 0
                })
                &&& !v.redirected
                &&& v.blocked
                &&& !v.custom_response
                &&& v.redirect_event is None
                &&& (v.blocked_event matches Some(ev) && {
                    &&& ev.endpoint_id@ == e.id
                    &&& ev.path@ == path
                    &&& ev.reason@ == "no_replacement"@
                })
            },
        },
        ActionResultView::Block { status_code: code } => {
            &&& (v.decision matches GatewayDecision::Block {
                status_code,
                body,
                content_type,
                headers,
            } && {
                &&& status_code == code
                &&& body@ == spec_gone_body(gone_view(e, path))
                &&& content_type@ == "application/json"@
                &&& keys_unique(pairs_view(headers@))
                &&& header_map(pairs_view(headers@)) == hm
            })
            &&& !v.redirected
            &&& v.blocked
            &&& !v.custom_response
            &&& v.redirect_event is None
            &&& (v.blocked_event matches Some(ev) && {
                &&& ev.endpoint_id@ == e.id
                &&& ev.path@ == path
                &&& ev.reason@ == "removed"@
            })
        },
        ActionResultView::Custom { status_code: code, body: b, content_type: ct } => {
            &&& (v.decision matches GatewayDecision::CustomResponse {
                status_code,
                body,
                content_type,
            } && {
                &&& status_code == code
                &&& body@ == b
                &&& content_type@ == ct
            })
            &&& !v.redirected
            &&& !v.blocked
            &&& v.custom_response
            &&& v.redirect_event is None
            &&& v.blocked_event is None
        },
    }
}

/// The verdict a configuration owes a request: pass-through where no rule
/// matches, else the outcome of the first matching rule.
pub open spec fn verdict_matches(
    c: ConfigView,
    path: Seq<char>,
    method: Seq<char>,
    query: Option<Seq<char>>,
    now_unix: i64,
    v: RequestVerdict,
) -> bool {
    if spec_some_match(c.endpoints, path, method) {
        exists|i: int|
            #[trigger] first_match_at(c.endpoints, path, method, i) && verdict_at(
                c,
                path,
                method,
                query,
                now_unix,
                v,
                i,
            )
    } else {
        verdict_pass_through(v)
    }
}

impl ApiDeprecationAgent {
    /// Answer one request at the given time: look the rule up, resolve the
    /// action, and map it to the gateway decision with its tags and events.
    pub fn on_request(
        &self,
        path: &str,
        method: &str,
        query_string: Option<&str>,
        now_unix: i64,
    ) -> (v: RequestVerdict)
        requires
            config_times_valid(self.config@),
        ensures
            verdict_matches(
                self.config@,
                path@,
                method@,
                opt_str_view(query_string),
                now_unix,
                v,
            ),
    {
        let decision = match self.process_request(path, method, query_string, now_unix) {
            Some(d) => d,
            None => {
                return RequestVerdict {
                    decision: GatewayDecision::PassThrough,
                    deprecated: false,
                    redirected: false,
                    blocked: false,
                    custom_response: false,
                    endpoint_id: None,
                    usage: None,
                    redirect_event: None,
                    blocked_event: None,
                };
            },
        };
        let ghost c = self.config@;
        let ghost q = opt_str_view(query_string);
        let ghost i = choose|i: int|
            #[trigger] first_match_at(c.endpoints, path@, method@, i) && decision_matches(
                c,
                path@,
                method@,
                q,
                now_unix,
                decision@,
                i,
            );
        let DeprecationDecision {
            endpoint_id,
            action,
            headers,
            redirect_url,
            message,
            documentation_url,
            usage,
        } = decision;
        match action {
            DeprecationActionResult::Warn => {
                let v = RequestVerdict {
                    decision: GatewayDecision::AllowWithHeaders { headers },
                    deprecated: true,
                    redirected: false,
                    blocked: false,
                    custom_response: false,
                    endpoint_id: Some(endpoint_id),
                    usage,
                    redirect_event: None,
                    blocked_event: None,
                };
                proof {
                    assert(verdict_at(c, path@, method@, q, now_unix, v, i));
                }
                v
            },
            DeprecationActionResult::Redirect { status_code } => {
                match redirect_url {
                    Some(url) => {
                        let redirect_event = RedirectEvent {
                            endpoint_id: endpoint_id.clone(),
                            from_path: path.to_owned(),
                            to_path: url.clone(),
                        };
                        let v = RequestVerdict {
                            decision: GatewayDecision::Redirect {
                                status_code,
                                location: url,
                                headers,
                            },
                            deprecated: true,
                            redirected: true,
                            blocked: false,
                            custom_response: false,
                            endpoint_id: Some(endpoint_id),
                            usage,
                            redirect_event: Some(redirect_event),
                            blocked_event: None,
                        };
                        proof {
                            assert(verdict_at(c, path@, method@, q, now_unix, v, i));
                        }
                        v
                    },
                    None => {
                        let synthetic = DeprecatedEndpoint {
                            id: endpoint_id.clone(),
                            path: path.to_owned(),
                            methods: Vec::new(),
                            status: DeprecationStatus::Removed,
                            deprecated_at: None,
                            sunset_at: None,
                            replacement: None,
                            documentation_url,
                            message: Some(message),
                            action: DeprecationAction::Block { status_code: 410 },
                            headers: Vec::new(),
                            track_usage: false,
                        };
                        proof {
                            assert(synthetic@ =~= gone_view(c.endpoints[i], path@));
                        }
                        let body = gone_response_body(&synthetic);
                        let blocked_event = BlockedEvent {
                            endpoint_id: endpoint_id.clone(),
                            path: path.to_owned(),
                            reason: String::from_str("no_replacement"),
                        };
                        let v = RequestVerdict {
                            decision: GatewayDecision::Block {
                                status_code: 410,
                                body,
                                content_type: String::from_str("application/json"),
                                headers: Vec::new(),
                            },
                            deprecated: true,
                            redirected: false,
                            blocked: true,
                            custom_response: false,
                            endpoint_id: Some(endpoint_id),
                            usage,
                            redirect_event: None,
                            blocked_event: Some(blocked_event),
                        };
                        proof {
                            assert(verdict_at(c, path@, method@, q, now_unix, v, i));
                        }
                        v
                    },
                }
            },
            DeprecationActionResult::Block { status_code } => {
                let synthetic = DeprecatedEndpoint {
                    id: endpoint_id.clone(),
                    path: path.to_owned(),
                    methods: Vec::new(),
                    status: DeprecationStatus::Removed,
                    deprecated_at: None,
                    sunset_at: None,
                    replacement: None,
                    documentation_url,
                    message: Some(message),
                    action: DeprecationAction::Block { status_code: 410 },
                    headers: Vec::new(),
                    track_usage: false,
                };
                proof {
                    assert(synthetic@ =~= gone_view(c.endpoints[i], path@));
                }
                let body = gone_response_body(&synthetic);
                let blocked_event = BlockedEvent {
                    endpoint_id: endpoint_id.clone(),
                    path: path.to_owned(),
                    reason: String::from_str("removed"),
                };
                let v = RequestVerdict {
                    decision: GatewayDecision::Block {
                        status_code,
                        body,
                        content_type: String::from_str("application/json"),
                        headers,
                    },
                    deprecated: true,
                    redirected: false,
                    blocked: true,
                    custom_response: false,
                    endpoint_id: Some(endpoint_id),
                    usage,
                    redirect_event: None,
                    blocked_event: Some(blocked_event),
                };
                proof {
                    assert(verdict_at(c, path@, method@, q, now_unix, v, i));
                }
                v
            },
            DeprecationActionResult::Custom { status_code, body, content_type } => {
                let v = RequestVerdict {
                    decision: GatewayDecision::CustomResponse { status_code, body, content_type },
                    deprecated: true,
                    redirected: false,
                    blocked: false,
                    custom_response: true,
                    endpoint_id: Some(endpoint_id),
                    usage,
                    redirect_event: None,
                    blocked_event: None,
                };
                proof {
                    assert(verdict_at(c, path@, method@, q, now_unix, v, i));
                }
                v
            },
        }
    }

    /// Answer one request at the current time. The verdict is the one the
    /// exact engine gives for the Unix second at which the clock was read.
    pub fn on_request_now(&self, path: &str, method: &str, query_string: Option<&str>) -> (v:
        RequestVerdict)
        requires
            config_times_valid(self.config@),
        ensures
            exists|now_unix: i64|
                #[trigger] verdict_matches(
                    self.config@,
                    path@,
                    method@,
                    opt_str_view(query_string),
                    now_unix,
                    v,
                ),
    {
        let now = now_unix();
        let v = self.on_request(path, method, query_string, now);
        proof {
            assert(verdict_matches(
                self.config@,
                path@,
                method@,
                opt_str_view(query_string),
                now,
                v,
            ));
        }
        v
    }
}

/// Whole days between now and a sunset date, truncated toward zero;
/// negative when the sunset lies in the past.
pub open spec fn spec_days_until(sunset_at: i64, now_unix: i64) -> int {
    let diff = sunset_at as int - now_unix as int;
    if diff >= 0 {
        diff / 86400
    } else {
        -((-diff) / 86400)
    }
}

/// Whole days until a sunset date, for the tracking sink's gauge.
pub fn days_until_sunset(sunset_at: i64, now_unix: i64) -> (r: i64)
    ensures
        r == spec_days_until(sunset_at, now_unix),
{
    let diff: i128 = sunset_at as i128 - now_unix as i128;
    if diff >= 0 {
        let days: u64 = (diff as u64) / 86400;
        days as i64
    } else {
        let magnitude: u64 = (-diff) as u64;
        let days: u64 = magnitude / 86400;
        -(days as i64)
    }
}

/// One days-until-sunset gauge value.
#[derive(Debug, Clone)]
pub struct SunsetGauge {
    /// Id of the rule.
    pub endpoint_id: String,
    /// The rule's path.
    pub path: String,
    /// Whole days until the sunset date; negative when past.
    pub days: i64,
}

/// Mathematical image of a `SunsetGauge`.
pub struct GaugeView {
    pub endpoint_id: Seq<char>,
    pub path: Seq<char>,
    pub days: int,
}

impl View for SunsetGauge {
    type V = GaugeView;

    open spec fn view(&self) -> GaugeView {
        GaugeView { endpoint_id: self.endpoint_id@, path: self.path@, days: self.days as int }
    }
}

/// Views of a list of gauges.
pub open spec fn gauge_views(s: Seq<SunsetGauge>) -> Seq<GaugeView> {
    s.map_values(|g: SunsetGauge| g@)
}

/// One gauge per rule that has a sunset date, in configuration order.
pub open spec fn spec_sunset_gauges(es: Seq<EndpointView>, now_unix: i64) -> Seq<GaugeView>
    decreases es.len(),
{
    if es.len() == 0 {
        Seq::empty()
    } else {
        let front = spec_sunset_gauges(es.drop_last(), now_unix);
        match es.last().sunset_at {
            Some(ts) => front.push(
                GaugeView {
                    endpoint_id: es.last().id,
                    path: es.last().path,
                    days: spec_days_until(ts, now_unix),
                },
            ),
            None => front,
        }
    }
}

impl ApiDeprecationAgent {
    /// The days-until-sunset gauge values for every rule that has a sunset
    /// date, in configuration order.
    pub fn sunset_gauges(&self, now_unix: i64) -> (r: Vec<SunsetGauge>)
        ensures
            gauge_views(r@) == spec_sunset_gauges(self.config@.endpoints, now_unix),
    {
        let ghost es = self.config@.endpoints;
        let mut out: Vec<SunsetGauge> = Vec::new();
        let mut i: usize = 0;
        while i < self.config.endpoints.len()
            invariant
                es == self.config@.endpoints,
                es.len() == self.config.endpoints@.len(),
                i <= self.config.endpoints.len(),
                gauge_views(out@) == spec_sunset_gauges(es.take(i as int), now_unix),
            decreases self.config.endpoints.len() - i,
        {
            proof {
                assert(es[i as int] == self.config.endpoints@[i as int]@);
                assert(es.take(i + 1).drop_last() =~= es.take(i as int));
                assert(es.take(i + 1).last() == es[i as int]);
            }
            let endpoint = &self.config.endpoints[i];
            if let Some(ts) = endpoint.sunset_at {
                let gauge = SunsetGauge {
                    endpoint_id: endpoint.id.clone(),
                    path: endpoint.path.clone(),
                    days: days_until_sunset(ts, now_unix),
                };
                out.push(gauge);
                proof {
                    assert(gauge_views(out@) =~= spec_sunset_gauges(es.take(i + 1), now_unix));
                }
            } else {
                proof {
                    assert(gauge_views(out@) =~= spec_sunset_gauges(es.take(i + 1), now_unix));
                }
            }
            i += 1;
        }
        proof {
            assert(es.take(self.config.endpoints@.len() as int) =~= es);
        }
        out
    }
}

} // verus!
