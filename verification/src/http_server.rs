use vstd::prelude::*;
use vstd::string::StringExecFns;
use vstd::string::StrSliceExecFns;
use crate::call_messages;
use crate::error::BindError;
use crate::storage_models;
use crate::strutil::str_eq;

verus! {

/// Why an incoming callback request was turned away.
#[derive(Debug, Clone)]
pub struct RequestProcessError(pub String);

/// The parts of a parsed URL that binding and routing read.
pub struct UriParts {
    pub scheme: Option<String>,
    pub host: Option<String>,
    pub port: Option<u16>,
    pub path: String,
}

/// What http's URI parser makes of the text: nothing when the text is
/// no URI, else its scheme, host, port and path.
pub uninterp spec fn spec_uri_parts(s: Seq<char>) -> Option<
    (Option<Seq<char>>, Option<Seq<char>>, Option<u16>, Seq<char>),
>;

/// Relies on http::Uri::from_str (via str::parse) and the accessors
/// scheme_str, host, port_u16 and path: the parsed parts of the URL
/// text, which depend on the text alone.
#[verifier::external_body]
fn parse_uri(s: &str) -> (r: Option<UriParts>)
    ensures
        r is Some <==> spec_uri_parts(s@) is Some,
        r matches Some(p) ==> (spec_uri_parts(s@) matches Some(q) && {
            &&& match p.scheme {
                Some(x) => q.0 == Some(x@),
                None => q.0 is None,
            }
            &&& match p.host {
                Some(x) => q.1 == Some(x@),
                None => q.1 is None,
            }
            &&& p.port == q.2
            &&& p.path@ == q.3
        }),
{
    let u: http::Uri = match s.parse() {
        Ok(u) => u,
        Err(_) => {
            return None;
        },
    };
    Some(
        UriParts {
            scheme: u.scheme_str().map(|v| v.to_string()),
            host: u.host().map(|v| v.to_string()),
            port: u.port_u16(),
            path: u.path().to_string(),
        },
    )
}

/// What listening address a redirect URL asks for.
///
/// A URL with host and port names them; with host and the plain http
/// scheme, port 80 is understood; the https scheme, a missing or
/// unknown scheme without a port, and a missing host cannot be bound
/// and are each their own error.
pub fn host_port_for_url(url: &str) -> (r: Result<(String, u16), BindError>)
    ensures
        match spec_uri_parts(url@) {
            None => r matches Err(BindError::InvalidUrlOnParse { url: u, .. }) && u@ == url@,
            Some(q) => match q.1 {
                None => r matches Err(BindError::InvalidUrl { url: u, .. }) && u@ == url@,
                Some(host) => match q.2 {
                    Some(port) => r matches Ok(hp) && hp.0@ == host && hp.1 == port,
                    None => match q.0 {
                        None => r matches Err(BindError::InvalidUrl { url: u, .. }) && u@ == url@,
                        Some(scheme) => if scheme == "http"@ {
                            r matches Ok(hp) && hp.0@ == host && hp.1 == 80
                        } else {
                            r matches Err(BindError::InvalidUrl { url: u, .. }) && u@ == url@
                        },
                    },
                },
            },
        },
{
    match parse_uri(url) {
        None => Err(
            BindError::InvalidUrlOnParse {
                url: url.to_owned(),
                text: "can't parse url".to_owned(),
            },
        ),
        Some(parts) => {
            match parts.host {
                None => Err(
                    BindError::InvalidUrl { url: url.to_owned(), text: "invalid host".to_owned() },
                ),
                Some(host) => {
                    match parts.port {
                        Some(port) => Ok((host, port)),
                        None => {
                            match parts.scheme {
                                None => Err(
                                    BindError::InvalidUrl {
                                        url: url.to_owned(),
                                        text: "unknown url scheme".to_owned(),
                                    },
                                ),
                                Some(scheme) => {
                                    if str_eq(scheme.as_str(), "http") {
                                        Ok((host, 80))
                                    } else if str_eq(scheme.as_str(), "https") {
                                        Err(
                                            BindError::InvalidUrl {
                                                url: url.to_owned(),
                                                text: "https scheme not supported".to_owned(),
                                            },
                                        )
                                    } else {
                                        Err(
                                            BindError::InvalidUrl {
                                                url: url.to_owned(),
                                                text: "unknown url scheme".to_owned(),
                                            },
                                        )
                                    }
                                },
                            }
                        },
                    }
                },
            }
        },
    }
}

/// What the bind fallback does after one attempt: go on down the
/// list, or serve on the address that took the bind.
pub enum BindStep {
    TryNext,
    Bound { redirect_url: String, addr: String },
}

/// The bind fallback over the candidate addresses: every failure is
/// kept, in order, for the aggregate report.
pub struct BindFlow {
    pub errors: Vec<BindError>,
}

impl BindFlow {
    /// A fallback that has tried nothing yet.
    pub fn new() -> (r: Self)
        ensures
            r.errors@.len() == 0,
    {
        BindFlow { errors: Vec::new() }
    }

    /// Consume one attempt: the first address that binds wins and the
    /// listing of failures stops; a failure is recorded and the next
    /// candidate is tried.
    pub fn on_attempt(&mut self, redirect_url: String, outcome: Result<String, BindError>) -> (r:
        BindStep)
        ensures
            match outcome {
                Ok(addr) => r matches BindStep::Bound { redirect_url: u, addr: a } && u
                    == redirect_url && a == addr && final(self).errors == old(self).errors,
                Err(e) => r is TryNext && final(self).errors@ == old(self).errors@.push(e),
            },
    {
        match outcome {
            Ok(addr) => BindStep::Bound { redirect_url, addr },
            Err(e) => {
                self.errors.push(e);
                BindStep::TryNext
            },
        }
    }

    /// When no candidate bound, the flow ends in the aggregate error
    /// that lists every individual failure.
    pub fn into_failure(self) -> (r: storage_models::AuthError)
        ensures
            r matches storage_models::AuthError::BindErrors { errors } && errors == self.errors,
    {
        storage_models::AuthError::BindErrors { errors: self.errors }
    }
}

/// The index of the first successful attempt, with the failures seen
/// before it; or, when every attempt failed, all the failures.
pub open spec fn spec_bind_scan(outcomes: Seq<Result<String, BindError>>) -> (
    Option<int>,
    Seq<BindError>,
)
    decreases outcomes.len(),
{
    if outcomes.len() == 0 {
        (None, Seq::empty())
    } else {
        match outcomes[0] {
            Ok(_) => (Some(0int), Seq::empty()),
            Err(e) => {
                let rest = spec_bind_scan(outcomes.drop_first());
                let idx = match rest.0 {
                    Some(i) => Some(i + 1),
                    None => None,
                };
                (idx, seq![e].add(rest.1))
            },
        }
    }
}

/// The bind-fallback law: the server binds to the first address whose
/// bind succeeds, and the failures reported are exactly those of the
/// addresses tried before it, in order; when every bind fails, the
/// aggregate holds every failure, in order, and nothing is bound.
pub proof fn lemma_bind_fallback(outcomes: Seq<Result<String, BindError>>)
    ensures
        spec_bind_scan(outcomes).0 matches Some(i) ==> {
            &&& 0 <= i < outcomes.len()
            &&& outcomes[i] is Ok
            &&& forall|j: int| 0 <= j < i ==> outcomes[j] is Err
            &&& spec_bind_scan(outcomes).1.len() == i
            &&& forall|j: int|
                0 <= j < i ==> (#[trigger] outcomes[j] matches Err(e) && spec_bind_scan(
                    outcomes,
                ).1[j] == e)
        },
        spec_bind_scan(outcomes).0 is None ==> {
            &&& forall|j: int| 0 <= j < outcomes.len() ==> outcomes[j] is Err
            &&& spec_bind_scan(outcomes).1.len() == outcomes.len()
            &&& forall|j: int|
                0 <= j < outcomes.len() ==> (#[trigger] outcomes[j] matches Err(e)
                    && spec_bind_scan(outcomes).1[j] == e)
        },
    decreases outcomes.len(),
{
    if outcomes.len() > 0 {
        let rest = outcomes.drop_first();
        lemma_bind_fallback(rest);
        let scan = spec_bind_scan(outcomes);
        let rscan = spec_bind_scan(rest);
        if outcomes[0] is Err {
            assert(forall|j: int| 1 <= j < outcomes.len() ==> outcomes[j] == rest[j - 1]);
            assert(forall|j: int| 1 <= j < scan.1.len() ==> scan.1[j] == rscan.1[j - 1]);
            match scan.0 {
                Some(i) => {
                    assert(rscan.0 == Some(i - 1));
                    assert forall|j: int| 0 <= j < i implies (#[trigger] outcomes[j]
                        matches Err(e) && scan.1[j] == e) by {
                        if j > 0 {
                            assert(rest[j - 1] matches Err(e) && rscan.1[j - 1] == e);
                        }
                    }
                },
                None => {
                    assert(rscan.0 is None);
                    assert forall|j: int| 0 <= j < outcomes.len() implies (#[trigger] outcomes[j]
                        matches Err(e) && scan.1[j] == e) by {
                        if j > 0 {
                            assert(rest[j - 1] matches Err(e) && rscan.1[j - 1] == e);
                        }
                    }
                },
            }
        }
    }
}


/// The first position of `c` in `s` at or after `i`; the length when
/// `c` does not occur there.
pub open spec fn spec_find_from(s: Seq<char>, c: char, i: int) -> int
    decreases s.len() - i
        when 0 <= i <= s.len()
{
    if i >= s.len() {
        s.len() as int
    } else if s[i] == c {
        i
    } else {
        spec_find_from(s, c, i + 1)
    }
}

/// The first position found lies between `i` and the length.
pub proof fn lemma_find_from_bounds(s: Seq<char>, c: char, i: int)
    requires
        0 <= i <= s.len(),
    ensures
        i <= spec_find_from(s, c, i) <= s.len(),
        spec_find_from(s, c, i) < s.len() ==> s[spec_find_from(s, c, i)] == c,
        forall|j: int| i <= j < spec_find_from(s, c, i) ==> s[j] != c,
    decreases s.len() - i,
{
    if i < s.len() && s[i] != c {
        lemma_find_from_bounds(s, c, i + 1);
    }
}

/// Finding within a piece of `s` mirrors finding in `s` itself.
proof fn lemma_find_shift(s: Seq<char>, c: char, a: int, b: int, j: int)
    requires
        0 <= a <= b <= s.len(),
        a <= j <= b,
    ensures
        ({
            let f = spec_find_from(s, c, j);
            let g = spec_find_from(s.subrange(a, b), c, j - a);
            if f < b {
                g == f - a
            } else {
                g == b - a
            }
        }),
    decreases b - j,
{
    lemma_find_from_bounds(s, c, j);
    if j < b {
        if s[j] != c {
            lemma_find_shift(s, c, a, b, j + 1);
        }
    }
}

/// One `key=value` piece of a query: the key runs to the first '=',
/// the value is what follows; a piece without '=' is a key with the
/// empty value.
pub open spec fn spec_split_pair(seg: Seq<char>) -> (Seq<char>, Seq<char>) {
    let e = spec_find_from(seg, '=', 0);
    if e >= seg.len() {
        (seg, Seq::empty())
    } else {
        (seg.subrange(0, e), seg.subrange(e + 1, seg.len() as int))
    }
}

/// The `key=value` pairs of the query text from position `i` on,
/// split on '&'.
pub open spec fn spec_parse_query_from(s: Seq<char>, i: int) -> Seq<(Seq<char>, Seq<char>)>
    decreases s.len() - i
        when 0 <= i <= s.len()
        via spec_parse_query_from_dec
{
    if i >= s.len() {
        Seq::empty()
    } else {
        let amp = spec_find_from(s, '&', i);
        seq![spec_split_pair(s.subrange(i, amp))].add(
            if amp >= s.len() {
                Seq::empty()
            } else {
                spec_parse_query_from(s, amp + 1)
            },
        )
    }
}

#[via_fn]
proof fn spec_parse_query_from_dec(s: Seq<char>, i: int) {
    if 0 <= i <= s.len() && i < s.len() {
        lemma_find_from_bounds(s, '&', i);
    }
}

/// The value of the last pair whose key is `name`, as a map built by
/// insertion would hold it.
pub open spec fn spec_lookup_last(pairs: Seq<(Seq<char>, Seq<char>)>, name: Seq<char>) -> Option<
    Seq<char>,
>
    decreases pairs.len(),
{
    if pairs.len() == 0 {
        None
    } else if pairs.last().0 == name {
        Some(pairs.last().1)
    } else {
        spec_lookup_last(pairs.drop_last(), name)
    }
}

/// The value the query text gives the parameter `name`, if any.
pub open spec fn spec_query_param(q: Seq<char>, name: Seq<char>) -> Option<Seq<char>> {
    spec_lookup_last(spec_parse_query_from(q, 0), name)
}

/// The first position of `c` in `s` at or after `from`.
fn find_from(s: &str, c: char, from: usize) -> (r: usize)
    requires
        from <= s@.len(),
    ensures
        r == spec_find_from(s@, c, from as int),
        from <= r <= s@.len(),
{
    let len = s.unicode_len();
    let mut i = from;
    while i < len
        invariant
            from <= i <= len,
            len == s@.len(),
            spec_find_from(s@, c, from as int) == spec_find_from(s@, c, i as int),
        decreases len - i,
    {
        if s.get_char(i) == c {
            return i;
        }
        i = i + 1;
    }
    i
}

/// The views of parsed pairs.
pub open spec fn spec_pair_views(pairs: Seq<(String, String)>) -> Seq<(Seq<char>, Seq<char>)> {
    Seq::new(pairs.len(), |k: int| (pairs[k].0@, pairs[k].1@))
}

/// Split the query text into its `key=value` pairs, in order.
pub fn parse_query(q: &str) -> (pairs: Vec<(String, String)>)
    ensures
        spec_pair_views(pairs@) == spec_parse_query_from(q@, 0),
{
    let ghost full = spec_parse_query_from(q@, 0);
    let len = q.unicode_len();
    let mut pairs: Vec<(String, String)> = Vec::new();
    let mut i: usize = 0;
    proof {
        assert(spec_pair_views(pairs@) =~= Seq::<(Seq<char>, Seq<char>)>::empty());
        assert(full =~= spec_pair_views(pairs@).add(spec_parse_query_from(q@, 0)));
    }
    while i < len
        invariant
            i <= len,
            len == q@.len(),
            full == spec_parse_query_from(q@, 0),
            full =~= spec_pair_views(pairs@).add(spec_parse_query_from(q@, i as int)),
        decreases len - i,
    {
        let amp = find_from(q, '&', i);
        let eq = find_from(q, '=', i);
        proof {
            lemma_find_from_bounds(q@, '&', i as int);
            lemma_find_from_bounds(q@, '=', i as int);
            lemma_find_shift(q@, '=', i as int, amp as int, i as int);
        }
        let ghost seg = q@.subrange(i as int, amp as int);
        let key;
        let val;
        if eq < amp {
            key = q.substring_char(i, eq).to_owned();
            val = q.substring_char(eq + 1, amp).to_owned();
            proof {
                assert(seg.subrange(0, eq - i) =~= q@.subrange(i as int, eq as int));
                assert(seg.subrange(eq - i + 1, seg.len() as int) =~= q@.subrange(
                    eq + 1,
                    amp as int,
                ));
            }
        } else {
            key = q.substring_char(i, amp).to_owned();
            val = String::new();
        }
        let ghost rest_old = spec_parse_query_from(q@, i as int);
        let ghost rest_new = if (amp as int) < len as int {
            spec_parse_query_from(q@, amp as int + 1)
        } else {
            Seq::<(Seq<char>, Seq<char>)>::empty()
        };
        let ghost old_views = spec_pair_views(pairs@);
        proof {
            assert(spec_split_pair(seg) == (key@, val@));
            assert(rest_old =~= seq![spec_split_pair(seg)].add(rest_new));
        }
        pairs.push((key, val));
        if amp < len {
            i = amp + 1;
        } else {
            i = len;
        }
        proof {
            assert(spec_pair_views(pairs@) =~= old_views.push((key@, val@)));
            assert(old_views.add(rest_old) =~= spec_pair_views(pairs@).add(rest_new));
            if (i as int) >= len as int {
                assert(spec_parse_query_from(q@, len as int) =~= rest_new);
            }
        }
    }
    proof {
        assert(spec_parse_query_from(q@, len as int) =~= Seq::<(Seq<char>, Seq<char>)>::empty());
        assert(full =~= spec_pair_views(pairs@));
    }
    pairs
}

/// The value of the last pair whose key is `name`, over the pairs as
/// parsed.
pub open spec fn spec_lookup_pairs(pairs: Seq<(String, String)>, name: Seq<char>) -> Option<
    Seq<char>,
>
    decreases pairs.len(),
{
    if pairs.len() == 0 {
        None
    } else if pairs.last().0@ == name {
        Some(pairs.last().1@)
    } else {
        spec_lookup_pairs(pairs.drop_last(), name)
    }
}

/// Looking the name up in the parsed pairs is looking it up in the
/// query text.
pub proof fn lemma_lookup_agrees(pairs: Seq<(String, String)>, name: Seq<char>)
    ensures
        spec_lookup_pairs(pairs, name) == spec_lookup_last(spec_pair_views(pairs), name),
    decreases pairs.len(),
{
    if pairs.len() > 0 {
        lemma_lookup_agrees(pairs.drop_last(), name);
        assert(spec_pair_views(pairs).drop_last() =~= spec_pair_views(pairs.drop_last()));
    }
}

/// The value the query gives the parameter `name`: of pairs that
/// repeat a key, the last wins, as in a map built by insertion.
pub fn query_param(pairs: &Vec<(String, String)>, name: &str) -> (r: Option<String>)
    ensures
        match r {
            Some(v) => spec_lookup_pairs(pairs@, name@) == Some(v@),
            None => spec_lookup_pairs(pairs@, name@) is None,
        },
{
    let mut i: usize = pairs.len();
    proof {
        assert(pairs@.subrange(0, pairs@.len() as int) =~= pairs@);
    }
    while i > 0
        invariant
            i <= pairs@.len(),
            spec_lookup_pairs(pairs@, name@) == spec_lookup_pairs(
                pairs@.subrange(0, i as int),
                name@,
            ),
        decreases i,
    {
        let p = &pairs[i - 1];
        if str_eq(p.0.as_str(), name) {
            proof {
                assert(pairs@.subrange(0, i as int).last() == pairs@[i - 1]);
            }
            return Some(p.1.clone());
        }
        proof {
            assert(pairs@.subrange(0, i as int).drop_last() =~= pairs@.subrange(0, i - 1));
        }
        i = i - 1;
    }
    proof {
        assert(pairs@.subrange(0, 0) =~= Seq::<(String, String)>::empty());
    }
    None
}

/// What the callback endpoint decides for one incoming request.
pub enum CallbackDecision {
    Reject { reason: String },
    Exchange { code: String },
    ProviderError { error: String, error_description: String },
}

/// Decide an incoming callback request against the expected CSRF
/// state token.
///
/// A request without a query or without a `state` parameter is
/// rejected; a `state` that does not match the expected token is
/// rejected, and in particular never reaches the token exchange; with
/// the right state, a provider-reported error is passed on, a `code`
/// goes to the exchange, and anything else is rejected.
pub fn decide_callback(query: Option<&str>, expected_state: &str) -> (r: CallbackDecision)
    ensures
        query is None ==> r is Reject,
        query matches Some(q) ==> ({
            let st = spec_query_param(q@, "state"@);
            let code = spec_query_param(q@, "code"@);
            let err = spec_query_param(q@, "error"@);
            let errd = spec_query_param(q@, "error_description"@);
            &&& st is None ==> r is Reject
            &&& (st matches Some(v) && v != expected_state@) ==> r is Reject
            &&& (st matches Some(v) && v == expected_state@) ==> (if err is Some && errd is Some {
                r matches CallbackDecision::ProviderError { error, error_description } && err
                    == Some(error@) && errd == Some(error_description@)
            } else if code is Some {
                r matches CallbackDecision::Exchange { code: c } && code == Some(c@)
            } else {
                r is Reject
            })
        }),
{
    let q = match query {
        Some(q) => q,
        None => {
            return CallbackDecision::Reject { reason: "query is empty".to_owned() };
        },
    };
    let pairs = parse_query(q);
    proof {
        lemma_lookup_agrees(pairs@, "state"@);
        lemma_lookup_agrees(pairs@, "code"@);
        lemma_lookup_agrees(pairs@, "error"@);
        lemma_lookup_agrees(pairs@, "error_description"@);
    }
    let state = query_param(&pairs, "state");
    let code = query_param(&pairs, "code");
    let error = query_param(&pairs, "error");
    let error_description = query_param(&pairs, "error_description");
    match state {
        None => CallbackDecision::Reject { reason: "state field is empty".to_owned() },
        Some(st) => {
            if !str_eq(st.as_str(), expected_state) {
                let mut reason = String::new();
                reason.append("unknown state field value: '");
                reason.append(st.as_str());
                reason.append("', waiting for state: '");
                reason.append(expected_state);
                reason.append("'");
                CallbackDecision::Reject { reason }
            } else {
                match (error, error_description) {
                    (Some(e), Some(d)) => CallbackDecision::ProviderError {
                        error: e,
                        error_description: d,
                    },
                    _ => {
                        match code {
                            Some(c) => CallbackDecision::Exchange { code: c },
                            None => CallbackDecision::Reject {
                                reason: "can't extract code and state from url".to_owned(),
                            },
                        }
                    },
                }
            }
        },
    }
}

/// Where an incoming request goes: the liveness endpoint, the
/// configured redirect path, or nowhere.
pub enum Route {
    Ping,
    Callback,
    Unknown,
}

/// Route a request by its path: "/ping" answers liveness, the
/// configured redirect path takes the callback, anything else is not
/// found.
pub fn route_request(path: &str, redirect_path: &str) -> (r: Route)
    ensures
        path@ == "/ping"@ ==> r is Ping,
        path@ != "/ping"@ && path@ == redirect_path@ ==> r is Callback,
        path@ != "/ping"@ && path@ != redirect_path@ ==> r is Unknown,
{
    if str_eq(path, "/ping") {
        Route::Ping
    } else if str_eq(path, redirect_path) {
        Route::Callback
    } else {
        Route::Unknown
    }
}

/// One HTTP response, ready for a transport to write out.
pub struct HttpResponsePlan {
    pub status: u16,
    pub content_type: Option<String>,
    pub body: String,
}

/// The liveness answer: 200 with the body "ok".
pub fn ping_response() -> (r: HttpResponsePlan)
    ensures
        r.status == 200,
        r.body@ == "ok"@,
{
    HttpResponsePlan { status: 200, content_type: None, body: "ok".to_owned() }
}

/// The answer for a path the server does not serve: 404, empty body.
pub fn not_found_response() -> (r: HttpResponsePlan)
    ensures
        r.status == 404,
        r.body@.len() == 0,
{
    HttpResponsePlan { status: 404, content_type: None, body: String::new() }
}

/// The answer for a callback that finished the flow: 200, plain text.
pub fn callback_success_response() -> (r: HttpResponsePlan)
    ensures
        r.status == 200,
        r.content_type matches Some(t) && t@ == "text/plain"@,
        r.body@ == "Ok. Successful."@,
{
    HttpResponsePlan {
        status: 200,
        content_type: Some("text/plain".to_owned()),
        body: "Ok. Successful.".to_owned(),
    }
}

/// The answer for a rejected callback: 400, the reason as plain text.
pub fn callback_error_response(reason: String) -> (r: HttpResponsePlan)
    ensures
        r.status == 400,
        r.content_type matches Some(t) && t@ == "text/plain"@,
        r.body == reason,
{
    HttpResponsePlan { status: 400, content_type: Some("text/plain".to_owned()), body: reason }
}

/// The event that reports the flow finished well.
pub fn auth_finished_ok_event(call_id: u64) -> (m: call_messages::Message)
    ensures
        m.call_id == Some(call_id),
        m.data matches call_messages::Data::Auth(call_messages::Auth::Finished { result: Ok(_) }),
{
    call_messages::Message {
        call_id: Some(call_id),
        data: call_messages::Data::Auth(call_messages::Auth::Finished { result: Ok(()) }),
    }
}

/// The event that reports a rejected or failed incoming request.
pub fn incoming_request_error_event(call_id: u64, url: &str, error: &str) -> (m:
    call_messages::Message)
    ensures
        m.call_id == Some(call_id),
        m.data matches call_messages::Data::Auth(call_messages::Auth::Finished {
            result: Err(storage_models::AuthError::IncomingRequestError { url: u, error: e }),
        }) && u@ == url@ && e@ == error@,
{
    call_messages::Message {
        call_id: Some(call_id),
        data: call_messages::Data::Auth(
            call_messages::Auth::Finished {
                result: Err(
                    storage_models::AuthError::IncomingRequestError {
                        url: url.to_owned(),
                        error: error.to_owned(),
                    },
                ),
            },
        ),
    }
}

} // verus!
