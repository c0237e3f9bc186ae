//! The header composer: deprecation marker, sunset date, documentation
//! links, notice text, and the structured error bodies.
//!
//! Headers are kept as an ordered list of name/value pairs with unique
//! names; contracts speak of the list's image as a `Map` from header name to
//! value, so an insert means what a map insert means.

use vstd::prelude::*;
use vstd::map::*;
use vstd::string::StrSliceExecFns;
use vstd::string::StringExecFns;
use crate::config::{
    pairs_view, spec_message, DeprecatedEndpoint, EndpointView, GlobalSettings, SettingsView,
};
use crate::dates::{
    format_http_date, format_rfc3339, http_date_of, parse_rfc7231_naive, parse_rfc3339_text,
    rfc3339_of, rfc7231_value, rfc3339_value, valid_unix_time,
};
use crate::json::{json_escape, json_escaped};
use crate::strings::{dec_int, i64_to_string, str_eq};

verus! {

/// No header name appears twice.
pub open spec fn keys_unique(s: Seq<(Seq<char>, Seq<char>)>) -> bool {
    forall|i: int, j: int| 0 <= i < j < s.len() ==> (#[trigger] s[i]).0 != (#[trigger] s[j]).0
}

/// Whether the list holds an entry under the name.
pub open spec fn spec_has_header(s: Seq<(Seq<char>, Seq<char>)>, name: Seq<char>) -> bool {
    exists|i: int| 0 <= i < s.len() && (#[trigger] s[i]).0 == name
}

/// An index of an entry under the name.
pub open spec fn spec_header_index(s: Seq<(Seq<char>, Seq<char>)>, name: Seq<char>) -> int {
    choose|i: int| 0 <= i < s.len() && (#[trigger] s[i]).0 == name
}

/// The list's image as a map from header name to value.
pub open spec fn header_map(s: Seq<(Seq<char>, Seq<char>)>) -> Map<Seq<char>, Seq<char>> {
    Map::new(|k: Seq<char>| spec_has_header(s, k), |k: Seq<char>| s[spec_header_index(s, k)].1)
}

proof fn lemma_update_same_key_inserts(s: Seq<(Seq<char>, Seq<char>)>, i: int, v: Seq<char>)
    requires
        keys_unique(s),
        0 <= i < s.len(),
    ensures
        keys_unique(s.update(i, (s[i].0, v))),
        header_map(s.update(i, (s[i].0, v))) == header_map(s).insert(s[i].0, v),
{
    let k = s[i].0;
    let t = s.update(i, (k, v));
    assert(forall|j: int| 0 <= j < t.len() ==> (#[trigger] t[j]).0 == s[j].0);
    assert forall|k2: Seq<char>| spec_has_header(t, k2) == spec_has_header(s, k2) by {
        if spec_has_header(t, k2) {
            let w = choose|w: int| 0 <= w < t.len() && (#[trigger] t[w]).0 == k2;
            assert(s[w].0 == k2);
        }
        if spec_has_header(s, k2) {
            let w = choose|w: int| 0 <= w < s.len() && (#[trigger] s[w]).0 == k2;
            assert(t[w].0 == k2);
        }
    }
    assert(header_map(t) =~= header_map(s).insert(k, v)) by {
        assert forall|k2: Seq<char>| #[trigger]
            header_map(t).dom().contains(k2) implies header_map(s).insert(k, v).dom().contains(k2)
            && header_map(t)[k2] == header_map(s).insert(k, v)[k2] by {
            let w = spec_header_index(t, k2);
            assert(0 <= w < t.len() && t[w].0 == k2);
            if k2 == k {
                assert(w == i);
                assert(header_map(t)[k2] == v);
            } else {
                assert(w != i);
                assert(t[w] == s[w]);
                let w2 = spec_header_index(s, k2);
                assert(0 <= w2 < s.len() && s[w2].0 == k2);
                assert(w2 == w);
                assert(header_map(t)[k2] == s[w].1);
            }
        }
        assert forall|k2: Seq<char>| #[trigger]
            header_map(s).insert(k, v).dom().contains(k2) implies header_map(t).dom().contains(
            k2,
        ) by {
            if k2 == k {
                assert(t[i].0 == k2);
            } else {
                let w2 = spec_header_index(s, k2);
                assert(t[w2].0 == k2);
            }
        }
    }
}

proof fn lemma_push_new_key_inserts(s: Seq<(Seq<char>, Seq<char>)>, k: Seq<char>, v: Seq<char>)
    requires
        keys_unique(s),
        !spec_has_header(s, k),
    ensures
        keys_unique(s.push((k, v))),
        header_map(s.push((k, v))) == header_map(s).insert(k, v),
{
    let t = s.push((k, v));
    assert(forall|j: int| 0 <= j < s.len() ==> (#[trigger] t[j]).0 == s[j].0);
    assert(t[s.len() as int].0 == k);
    assert forall|i: int, j: int| 0 <= i < j < t.len() implies (#[trigger] t[i]).0 != (
    #[trigger] t[j]).0 by {
        if j < s.len() {
        } else {
            assert(t[j].0 == k);
            assert(s[i].0 != k);
        }
    }
    assert(header_map(t) =~= header_map(s).insert(k, v)) by {
        assert forall|k2: Seq<char>| #[trigger]
            header_map(t).dom().contains(k2) implies header_map(s).insert(k, v).dom().contains(k2)
            && header_map(t)[k2] == header_map(s).insert(k, v)[k2] by {
            let w = spec_header_index(t, k2);
            assert(0 <= w < t.len() && t[w].0 == k2);
            if k2 == k {
                assert(w == s.len()) by {
                    if w < s.len() {
                        assert(s[w].0 == k2);
                    }
                }
                assert(header_map(t)[k2] == v);
            } else {
                assert(w < s.len());
                assert(s[w].0 == k2);
                let w2 = spec_header_index(s, k2);
                assert(0 <= w2 < s.len() && s[w2].0 == k2);
                assert(w2 == w);
                assert(header_map(t)[k2] == s[w].1);
            }
        }
        assert forall|k2: Seq<char>| #[trigger]
            header_map(s).insert(k, v).dom().contains(k2) implies header_map(t).dom().contains(
            k2,
        ) by {
            if k2 == k {
                assert(t[s.len() as int].0 == k2);
            } else {
                let w2 = spec_header_index(s, k2);
                assert(t[w2].0 == k2);
            }
        }
    }
}

/// Builder for the deprecation-related response headers.
pub struct DeprecationHeaders {
    headers: Vec<(String, String)>,
}

impl View for DeprecationHeaders {
    type V = Seq<(Seq<char>, Seq<char>)>;

    closed spec fn view(&self) -> Seq<(Seq<char>, Seq<char>)> {
        pairs_view(self.headers@)
    }
}

impl DeprecationHeaders {
    /// The builder never holds two entries under one name.
    pub open spec fn wf(&self) -> bool {
        keys_unique(self@)
    }

    /// The headers as a map from name to value.
    pub open spec fn as_map(&self) -> Map<Seq<char>, Seq<char>> {
        header_map(self@)
    }

    /// An empty builder.
    pub fn new() -> (r: Self)
        ensures
            r.wf(),
            r@ == Seq::<(Seq<char>, Seq<char>)>::empty(),
            r.as_map() == Map::<Seq<char>, Seq<char>>::empty(),
    {
        let r = DeprecationHeaders { headers: Vec::new() };
        proof {
            assert(r@ =~= Seq::<(Seq<char>, Seq<char>)>::empty());
            assert(r.as_map() =~= Map::<Seq<char>, Seq<char>>::empty()) by {
                if exists|k: Seq<char>| header_map(r@).dom().contains(k) {
                    let k = choose|k: Seq<char>| header_map(r@).dom().contains(k);
                    let w = spec_header_index(r@, k);
                }
            }
        }
        r
    }

    /// Set a header: an existing entry under the name is replaced in place,
    /// a new name is appended.
    fn set(&mut self, name: String, value: String)
        requires
            old(self).wf(),
        ensures
            final(self).wf(),
            final(self).as_map() == old(self).as_map().insert(name@, value@),
    {
        let ghost s0 = old(self)@;
        let ghost name_view = name@;
        let ghost value_view = value@;
        let mut i: usize = 0;
        while i < self.headers.len()
            invariant
                s0 == old(self)@,
                self@ == s0,
                keys_unique(s0),
                i <= self.headers.len(),
                s0.len() == self.headers.len(),
                name@ == name_view,
                value@ == value_view,
                forall|j: int| 0 <= j < i ==> (#[trigger] s0[j]).0 != name_view,
            decreases self.headers.len() - i,
        {
            proof {
                assert(s0[i as int] == (self.headers@[i as int].0@, self.headers@[i as int].1@));
            }
            if str_eq(self.headers[i].0.as_str(), name.as_str()) {
                proof {
                    assert(s0[i as int].0 == name_view);
                }
                self.headers[i] = (name, value);
                proof {
                    assert(self@ =~= s0.update(i as int, (s0[i as int].0, value_view)));
                    lemma_update_same_key_inserts(s0, i as int, value_view);
                    assert(self.as_map() == header_map(s0).insert(name_view, value_view));
                }
                return ;
            }
            i += 1;
        }
        proof {
            assert(!spec_has_header(s0, name_view));
        }
        self.headers.push((name, value));
        proof {
            assert(self@ =~= s0.push((name_view, value_view)));
            lemma_push_new_key_inserts(s0, name_view, value_view);
        }
    }

    /// Add one header by name, replacing an entry of the same name.
    pub fn with_header(self, name: String, value: String) -> (r: Self)
        requires
            self.wf(),
        ensures
            r.wf(),
            r.as_map() == self.as_map().insert(name@, value@),
    {
        let mut this = self;
        this.set(name, value);
        this
    }

    /// The composed headers as name/value pairs.
    pub fn build(self) -> (r: Vec<(String, String)>)
        ensures
            pairs_view(r@) == self@,
    {
        self.headers
    }

    /// The composed headers as name/value pairs.
    pub fn to_vec(self) -> (r: Vec<(String, String)>)
        ensures
            pairs_view(r@) == self@,
    {
        self.headers
    }
}

/// Value of the deprecation marker header: `true` when no deprecation
/// timestamp is set, else `@` followed by the Unix second.
pub open spec fn spec_deprecation_value(e: EndpointView) -> Seq<char> {
    match e.deprecated_at {
        Some(ts) => "@"@ + dec_int(ts as int),
        None => "true"@,
    }
}

/// Whether a Link header is emitted at all.
pub open spec fn spec_has_link(e: EndpointView) -> bool {
    e.documentation_url is Some || e.replacement is Some
}

/// Value of the Link header: the documentation link tagged `deprecation`,
/// the successor link tagged `successor-version`, comma-joined when both
/// exist.
pub open spec fn spec_link_value(e: EndpointView) -> Seq<char> {
    match (e.documentation_url, e.replacement) {
        (Some(d), Some(r)) => "<"@ + d + ">; rel=\"deprecation\""@ + ", "@ + "<"@ + r.path
            + ">; rel=\"successor-version\""@,
        (Some(d), None) => "<"@ + d + ">; rel=\"deprecation\""@,
        (None, Some(r)) => "<"@ + r.path + ">; rel=\"successor-version\""@,
        (None, None) => Seq::empty(),
    }
}

/// A map after inserting a list of pairs in order: later entries win.
pub open spec fn insert_all(
    m: Map<Seq<char>, Seq<char>>,
    hs: Seq<(Seq<char>, Seq<char>)>,
) -> Map<Seq<char>, Seq<char>>
    decreases hs.len(),
{
    if hs.len() == 0 {
        m
    } else {
        insert_all(m, hs.drop_last()).insert(hs.last().0, hs.last().1)
    }
}

/// The composed headers for a rule: the deprecation marker, the sunset date
/// where one is set, the link header where anything links, the notice, and
/// the rule's extra headers last, overwriting by name.
pub open spec fn spec_headers_map(e: EndpointView, s: SettingsView) -> Map<Seq<char>, Seq<char>> {
    let with_marker = Map::<Seq<char>, Seq<char>>::empty().insert(
        s.deprecation_header,
        spec_deprecation_value(e),
    );
    let with_sunset = match e.sunset_at {
        Some(ts) => with_marker.insert(s.sunset_header, http_date_of(ts)),
        None => with_marker,
    };
    let with_link = if spec_has_link(e) {
        with_sunset.insert(s.link_header, spec_link_value(e))
    } else {
        with_sunset
    };
    let with_notice = with_link.insert(s.notice_header, spec_message(e));
    insert_all(with_notice, e.headers)
}

/// A text that ends with the three characters `GMT`.
pub open spec fn ends_with_gmt(v: Seq<char>) -> bool {
    v.len() >= 3 && v.subrange(v.len() - 3, v.len() as int) == "GMT"@
}

/// No later insertion collides with the sunset header's name: the notice
/// header, the link header (where one is emitted) and the rule's extra
/// headers all go by other names.
pub open spec fn sunset_name_retained(e: EndpointView, s: SettingsView) -> bool {
    &&& s.sunset_header != s.notice_header
    &&& (spec_has_link(e) ==> s.sunset_header != s.link_header)
    &&& forall|i: int| 0 <= i < e.headers.len() ==> (#[trigger] e.headers[i]).0 != s.sunset_header
}

proof fn lemma_insert_all_frame(
    m: Map<Seq<char>, Seq<char>>,
    hs: Seq<(Seq<char>, Seq<char>)>,
    k: Seq<char>,
)
    requires
        forall|i: int| 0 <= i < hs.len() ==> (#[trigger] hs[i]).0 != k,
    ensures
        insert_all(m, hs).contains_key(k) == m.contains_key(k),
        m.contains_key(k) ==> insert_all(m, hs)[k] == m[k],
    decreases hs.len(),
{
    if hs.len() > 0 {
        assert(hs.last().0 != k);
        lemma_insert_all_frame(m, hs.drop_last(), k);
    }
}

impl DeprecationHeaders {
    /// Compose the deprecation headers for a rule under the given settings.
    /// The result is a function of the rule and the settings alone; where no
    /// later name collides with it, the sunset header is present for every
    /// rule with a sunset date and its value ends with `GMT`.
    pub fn for_endpoint(endpoint: &DeprecatedEndpoint, settings: &GlobalSettings) -> (r: Self)
        requires
            endpoint@.sunset_at matches Some(t) ==> valid_unix_time(t),
        ensures
            r.wf(),
            r.as_map() == spec_headers_map(endpoint@, settings@),
            endpoint@.sunset_at is Some && sunset_name_retained(endpoint@, settings@) ==> {
                &&& r.as_map().contains_key(settings@.sunset_header)
                &&& ends_with_gmt(r.as_map()[settings@.sunset_header])
            },
    {
        let mut builder = DeprecationHeaders::new();
        let marker_value = match endpoint.deprecated_at {
            Some(ts) => String::from_str("@").concat(i64_to_string(ts).as_str()),
            None => String::from_str("true"),
        };
        builder.set(settings.deprecation_header.clone(), marker_value);
        if let Some(ts) = endpoint.sunset_at {
            let date = format_http_date(ts);
            proof {
                assert(ends_with_gmt(http_date_of(ts)));
            }
            builder.set(settings.sunset_header.clone(), date);
        }
        if endpoint.documentation_url.is_some() || endpoint.replacement.is_some() {
            let mut link = String::new();
            if let Some(docs) = &endpoint.documentation_url {
                link.append("<");
                link.append(docs.as_str());
                link.append(">; rel=\"deprecation\"");
                if endpoint.replacement.is_some() {
                    link.append(", ");
                }
            }
            if let Some(replacement) = &endpoint.replacement {
                link.append("<");
                link.append(replacement.path.as_str());
                link.append(">; rel=\"successor-version\"");
            }
            proof {
                assert(link@ =~= spec_link_value(endpoint@));
            }
            builder.set(settings.link_header.clone(), link);
        }
        let notice = endpoint.deprecation_message();
        builder.set(settings.notice_header.clone(), notice);
        let ghost with_notice = builder.as_map();
        let ghost extras = endpoint@.headers;
        let mut i: usize = 0;
        while i < endpoint.headers.len()
            invariant
                builder.wf(),
                extras == endpoint@.headers,
                extras.len() == endpoint.headers@.len(),
                i <= endpoint.headers.len(),
                builder.as_map() == insert_all(with_notice, extras.take(i as int)),
            decreases endpoint.headers.len() - i,
        {
            proof {
                assert(extras[i as int] == (
                    endpoint.headers@[i as int].0@,
                    endpoint.headers@[i as int].1@,
                ));
            }
            let extra_name = endpoint.headers[i].0.clone();
            let extra_value = endpoint.headers[i].1.clone();
            builder.set(extra_name, extra_value);
            proof {
                assert(extras.take(i + 1).drop_last() =~= extras.take(i as int));
                assert(extras.take(i + 1).last() == extras[i as int]);
            }
            i += 1;
        }
        proof {
            assert(extras.take(endpoint.headers@.len() as int) =~= extras);
            if endpoint@.sunset_at is Some && sunset_name_retained(endpoint@, settings@) {
                lemma_insert_all_frame(with_notice, extras, settings@.sunset_header);
            }
        }
        builder
    }
}

/// A map composed from equal views is equal: header composition is
/// deterministic in the rule, the settings and the formatters' output; no
/// other input reaches it.
pub proof fn lemma_header_composition_deterministic(
    e1: EndpointView,
    s1: SettingsView,
    e2: EndpointView,
    s2: SettingsView,
)
    requires
        e1 == e2,
        s1 == s2,
    ensures
        spec_headers_map(e1, s1) == spec_headers_map(e2, s2),
{
}

/// What `parse_http_date` returns: the RFC 7231 reading where the text ends
/// in ` GMT` and its front parses, else the RFC 3339 reading, else nothing.
pub open spec fn spec_parse_http_date(s: Seq<char>) -> Option<i64> {
    if s.len() >= 4 && s.subrange(s.len() - 4, s.len() as int) == " GMT"@ && rfc7231_value(
        s.subrange(0, s.len() - 4),
    ) is Some {
        rfc7231_value(s.subrange(0, s.len() - 4))
    } else {
        rfc3339_value(s)
    }
}

/// Parse an HTTP date: RFC 7231 form first, ISO 8601 / RFC 3339 as a
/// fallback.
pub fn parse_http_date(s: &str) -> (r: Option<i64>)
    ensures
        r == spec_parse_http_date(s@),
{
    let len = s.unicode_len();
    if len >= 4 {
        let c0 = s.get_char(len - 4);
        let c1 = s.get_char(len - 3);
        let c2 = s.get_char(len - 2);
        let c3 = s.get_char(len - 1);
        if c0 == ' ' && c1 == 'G' && c2 == 'M' && c3 == 'T' {
            proof {
                reveal_strlit(" GMT");
                assert(s@.subrange(len - 4, len as int) =~= " GMT"@);
            }
            let stripped = s.substring_char(0, len - 4);
            if let Some(ts) = parse_rfc7231_naive(stripped) {
                return Some(ts);
            }
            return parse_rfc3339_text(s);
        }
        proof {
            reveal_strlit(" GMT");
            if s@.subrange(len - 4, len as int) == " GMT"@ {
                assert(s@[len - 4] == " GMT"@[0]);
                assert(s@[len - 3] == " GMT"@[1]);
                assert(s@[len - 2] == " GMT"@[2]);
                assert(s@[len - 1] == " GMT"@[3]);
            }
        }
        return parse_rfc3339_text(s);
    }
    parse_rfc3339_text(s)
}

/// The message of the 410 Gone body: which endpoint is gone, and what to use
/// instead where a replacement exists.
pub open spec fn spec_gone_message(e: EndpointView) -> Seq<char> {
    match e.replacement {
        Some(r) => "The endpoint "@ + e.path + " has been removed"@ + ". Please use "@ + r.path
            + " instead"@,
        None => "The endpoint "@ + e.path + " has been removed"@,
    }
}

/// The structured body of a 410 Gone response: error code
/// `endpoint_removed`, the message, and, where known, the replacement path
/// and the documentation link.
pub open spec fn spec_gone_body(e: EndpointView) -> Seq<char> {
    let head = "{\"error\":\"endpoint_removed\",\"message\":\""@ + json_escaped(
        spec_gone_message(e),
    ) + "\""@;
    let with_replacement = match e.replacement {
        Some(r) => head + ",\"replacement\":\""@ + json_escaped(r.path) + "\""@,
        None => head,
    };
    let with_docs = match e.documentation_url {
        Some(d) => with_replacement + ",\"documentation\":\""@ + json_escaped(d) + "\""@,
        None => with_replacement,
    };
    with_docs + "}"@
}

/// The structured body of an informational deprecation response: error code
/// `deprecated_endpoint`, the notice, the endpoint path, and, where known,
/// the sunset date, the replacement path and the documentation link.
pub open spec fn spec_deprecation_body(e: EndpointView) -> Seq<char> {
    let head = "{\"error\":\"deprecated_endpoint\",\"message\":\""@ + json_escaped(spec_message(e))
        + "\",\"endpoint\":\""@ + json_escaped(e.path) + "\""@;
    let with_sunset = match e.sunset_at {
        Some(ts) => head + ",\"sunset\":\""@ + rfc3339_of(ts) + "\""@,
        None => head,
    };
    let with_replacement = match e.replacement {
        Some(r) => with_sunset + ",\"replacement\":\""@ + json_escaped(r.path) + "\""@,
        None => with_sunset,
    };
    let with_docs = match e.documentation_url {
        Some(d) => with_replacement + ",\"documentation\":\""@ + json_escaped(d) + "\""@,
        None => with_replacement,
    };
    with_docs + "}"@
}

fn gone_message(endpoint: &DeprecatedEndpoint) -> (r: String)
    ensures
        r@ == spec_gone_message(endpoint@),
{
    let mut m = String::from_str("The endpoint ");
    m.append(endpoint.path.as_str());
    m.append(" has been removed");
    if let Some(replacement) = &endpoint.replacement {
        m.append(". Please use ");
        m.append(replacement.path.as_str());
        m.append(" instead");
    }
    proof {
        assert(m@ =~= spec_gone_message(endpoint@));
    }
    m
}

/// The body of a 410 Gone response for a removed endpoint.
pub fn gone_response_body(endpoint: &DeprecatedEndpoint) -> (r: String)
    ensures
        r@ == spec_gone_body(endpoint@),
{
    let message = gone_message(endpoint);
    let mut body = String::from_str("{\"error\":\"endpoint_removed\",\"message\":\"");
    body.append(json_escape(message.as_str()).as_str());
    body.append("\"");
    if let Some(replacement) = &endpoint.replacement {
        body.append(",\"replacement\":\"");
        body.append(json_escape(replacement.path.as_str()).as_str());
        body.append("\"");
    }
    if let Some(docs) = &endpoint.documentation_url {
        body.append(",\"documentation\":\"");
        body.append(json_escape(docs.as_str()).as_str());
        body.append("\"");
    }
    body.append("}");
    proof {
        assert(body@ =~= spec_gone_body(endpoint@));
    }
    body
}

/// The body of an informational deprecation response.
pub fn deprecation_response_body(endpoint: &DeprecatedEndpoint) -> (r: String)
    requires
        endpoint@.sunset_at matches Some(t) ==> valid_unix_time(t),
    ensures
        r@ == spec_deprecation_body(endpoint@),
{
    let message = endpoint.deprecation_message();
    let mut body = String::from_str("{\"error\":\"deprecated_endpoint\",\"message\":\"");
    body.append(json_escape(message.as_str()).as_str());
    body.append("\",\"endpoint\":\"");
    body.append(json_escape(endpoint.path.as_str()).as_str());
    body.append("\"");
    if let Some(ts) = endpoint.sunset_at {
        body.append(",\"sunset\":\"");
        body.append(format_rfc3339(ts).as_str());
        body.append("\"");
    }
    if let Some(replacement) = &endpoint.replacement {
        body.append(",\"replacement\":\"");
        body.append(json_escape(replacement.path.as_str()).as_str());
        body.append("\"");
    }
    if let Some(docs) = &endpoint.documentation_url {
        body.append(",\"documentation\":\"");
        body.append(json_escape(docs.as_str()).as_str());
        body.append("\"");
    }
    body.append("}");
    proof {
        assert(body@ =~= spec_deprecation_body(endpoint@));
    }
    body
}

} // verus!
