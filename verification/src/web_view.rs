use vstd::prelude::*;

use crate::error::IdentityError;
use crate::text;
use crate::text::{spec_find, spec_starts_with, str_views};
use crate::url_support;
use crate::url_support::host_port_of;

verus! {

/// Options of the interactive browser surface.
#[derive(Clone, Copy, Debug, PartialEq, Eq, Structural)]
pub struct WebViewOptions {
    /// Close the surface when it navigates to a URL that is neither the
    /// start URL nor an allowed redirect.
    pub enforce_invalid_navigation: bool,
    /// Seconds before the flow is abandoned, where a limit is set. The
    /// driver races the surface's events against this deadline.
    pub timeout_secs: Option<u64>,
}

impl Default for WebViewOptions {
    /// No navigation enforcement and no timeout.
    fn default() -> (r: Self)
        ensures
            !r.enforce_invalid_navigation,
            r.timeout_secs is None,
    {
        WebViewOptions { enforce_invalid_navigation: false, timeout_secs: None }
    }
}

/// The terminal failure kinds of the interactive flow; each is distinct,
/// non-retryable, and reported to the caller.
#[derive(Debug, PartialEq, Eq)]
pub enum WebViewExecutionError {
    /// The redirect URI names a loopback host without giving a port.
    InvalidRedirectUri(String),
    /// The user closed the surface without completing sign-in.
    WindowClosedRequested,
    /// The surface navigated to a URL that is neither the start URL nor an
    /// allowed redirect, with enforcement enabled.
    WindowClosedOnInvalidNavigation,
    /// The configured timeout elapsed before the redirect.
    WindowClosedOnTimeoutReached,
    /// The configured start host or domain is structurally invalid.
    InvalidStartUri { reason: String },
    /// The redirect carried neither a query string nor a fragment, so no
    /// code can be extracted.
    RedirectUriMissingQueryOrFragment(String),
    /// The query or fragment did not parse into the expected response
    /// shape.
    SerdeError(String),
    /// The channel between the surface and the waiting caller failed.
    RecvError(String),
    /// Building the credential that precedes navigation failed.
    AuthorizationError(IdentityError),
    /// Exchanging the captured code for a token failed.
    AuthExecutionError(String),
}

/// The response carried by a redirect's query or fragment: a code with its
/// echoed state, or an error with its description.
#[derive(Debug, PartialEq, Eq)]
pub struct AuthorizationQueryResponse {
    pub code: Option<String>,
    pub state: Option<String>,
    pub error: Option<String>,
    pub error_description: Option<String>,
}

/// The (key, value) views of parsed pairs.
pub open spec fn pair_views(s: Seq<(String, String)>) -> Seq<(Seq<char>, Seq<char>)> {
    s.map_values(|p: (String, String)| (p.0@, p.1@))
}

/// One `key=value` segment split at its first `=`; a segment without `=`
/// is a key with an empty value.
pub open spec fn spec_pair_of(seg: Seq<char>) -> (Seq<char>, Seq<char>) {
    match spec_find(seg, '=') {
        Some(i) => (seg.take(i), seg.skip(i + 1)),
        None => (seg, Seq::empty()),
    }
}

/// The pairs of a query string: segments split on `&`, each split at its
/// first `=`. An empty string has no pairs.
pub open spec fn spec_query_pairs(q: Seq<char>) -> Seq<(Seq<char>, Seq<char>)>
    decreases q.len(),
{
    if q.len() == 0 {
        Seq::empty()
    } else {
        match spec_find(q, '&') {
            Some(i) => {
                if 0 <= i && i + 1 <= q.len() {
                    seq![spec_pair_of(q.take(i))] + spec_query_pairs(q.skip(i + 1))
                } else {
                    seq![spec_pair_of(q)]
                }
            },
            None => seq![spec_pair_of(q)],
        }
    }
}

/// The value of the first pair that carries `key`, if any.
pub open spec fn spec_lookup_first(
    pairs: Seq<(Seq<char>, Seq<char>)>,
    key: Seq<char>,
) -> Option<Seq<char>>
    decreases pairs.len(),
{
    if pairs.len() == 0 {
        None
    } else if pairs[0].0 == key {
        Some(pairs[0].1)
    } else {
        spec_lookup_first(pairs.drop_first(), key)
    }
}

/// A pair carrying `key` before any other gives the first lookup.
proof fn lemma_lookup_first_at(pairs: Seq<(Seq<char>, Seq<char>)>, key: Seq<char>, i: int)
    requires
        0 <= i < pairs.len(),
        pairs[i].0 == key,
        forall|j: int| 0 <= j < i ==> (#[trigger] pairs[j]).0 != key,
    ensures
        spec_lookup_first(pairs, key) == Some(pairs[i].1),
    decreases i,
{
    if i > 0 {
        lemma_lookup_first_at(pairs.drop_first(), key, i - 1);
        assert forall|j: int| 0 <= j < i - 1 implies (#[trigger] pairs.drop_first()[j]).0
            != key by {
            assert(pairs.drop_first()[j] == pairs[j + 1]);
        }
        assert(pairs.drop_first()[i - 1] == pairs[i]);
    }
}

/// With no pair carrying `key`, the first lookup is absent.
proof fn lemma_lookup_first_none(pairs: Seq<(Seq<char>, Seq<char>)>, key: Seq<char>)
    requires
        forall|j: int| 0 <= j < pairs.len() ==> (#[trigger] pairs[j]).0 != key,
    ensures
        spec_lookup_first(pairs, key) is None,
    decreases pairs.len(),
{
    if pairs.len() > 0 {
        assert forall|j: int| 0 <= j < pairs.len() - 1 implies (#[trigger] pairs.drop_first()[j]).0
            != key by {
            assert(pairs.drop_first()[j] == pairs[j + 1]);
        }
        lemma_lookup_first_none(pairs.drop_first(), key);
    }
}

/// One `key=value` segment as owned strings.
fn pair_of_segment(seg: &str) -> (r: (String, String))
    ensures
        (r.0@, r.1@) == spec_pair_of(seg@),
{
    match text::find_char(seg, '=') {
        Some(i) => {
            proof {
                text::lemma_spec_find(seg@, '=');
            }
            let len: usize = seg.unicode_len();
            let key = seg.substring_char(0, i);
            let value = seg.substring_char(i + 1, len);
            (String::from_str(key), String::from_str(value))
        },
        None => (String::from_str(seg), String::new()),
    }
}

/// The `key=value` pairs of a query or fragment, split on `&` and `=`.
pub fn split_query_pairs(s: &str) -> (r: Vec<(String, String)>)
    ensures
        pair_views(r@) == spec_query_pairs(s@),
    decreases s@.len(),
{
    let len: usize = s.unicode_len();
    if len == 0 {
        let r: Vec<(String, String)> = Vec::new();
        proof {
            assert(pair_views(r@) =~= spec_query_pairs(s@));
        }
        return r;
    }
    match text::find_char(s, '&') {
        Some(i) => {
            proof {
                text::lemma_spec_find(s@, '&');
            }
            let seg = s.substring_char(0, i);
            let rest = s.substring_char(i + 1, len);
            let first = pair_of_segment(seg);
            let mut rest_pairs = split_query_pairs(rest);
            let mut r: Vec<(String, String)> = Vec::new();
            r.push(first);
            r.append(&mut rest_pairs);
            proof {
                assert(seg@ == s@.take(i as int));
                assert(rest@ == s@.skip(i + 1));
                assert(pair_views(r@) =~= spec_query_pairs(s@));
            }
            r
        },
        None => {
            let first = pair_of_segment(s);
            let mut r: Vec<(String, String)> = Vec::new();
            r.push(first);
            proof {
                assert(pair_views(r@) =~= spec_query_pairs(s@));
            }
            r
        },
    }
}

/// The value of the first pair named `key`, as an owned string.
fn lookup_first(pairs: &Vec<(String, String)>, key: &str) -> (r: Option<String>)
    ensures
        match r {
            Some(v) => spec_lookup_first(pair_views(pairs@), key@) == Some(v@),
            None => spec_lookup_first(pair_views(pairs@), key@) is None,
        },
{
    let mut i: usize = 0;
    let n = pairs.len();
    while i < n
        invariant
            n == pairs@.len(),
            i <= n,
            forall|j: int| 0 <= j < i ==> (#[trigger] pair_views(pairs@)[j]).0 != key@,
        decreases n - i,
    {
        if text::str_eq(pairs[i].0.as_str(), key) {
            proof {
                assert(pair_views(pairs@)[i as int].0 == key@);
                lemma_lookup_first_at(pair_views(pairs@), key@, i as int);
            }
            return Some(pairs[i].1.clone());
        }
        proof {
            assert(pair_views(pairs@)[i as int].0 == pairs@[i as int].0@);
        }
        i += 1;
    }
    proof {
        lemma_lookup_first_none(pair_views(pairs@), key@);
    }
    None
}

/// The four response fields agree with what the first lookups of the
/// query's pairs give.
pub open spec fn spec_response_matches(r: AuthorizationQueryResponse, q: Seq<char>) -> bool {
    let pairs = spec_query_pairs(q);
    &&& opt_matches(r.code, spec_lookup_first(pairs, "code"@))
    &&& opt_matches(r.state, spec_lookup_first(pairs, "state"@))
    &&& opt_matches(r.error, spec_lookup_first(pairs, "error"@))
    &&& opt_matches(r.error_description, spec_lookup_first(pairs, "error_description"@))
}

/// The owned option holds exactly the characters of the ghost one.
pub open spec fn opt_matches(a: Option<String>, b: Option<Seq<char>>) -> bool {
    match (a, b) {
        (Some(x), Some(y)) => x@ == y,
        (None, None) => true,
        _ => false,
    }
}

/// Parses a query or fragment into the expected response shape: the first
/// `code`, `state`, `error` and `error_description` values.
pub fn parse_authorization_response(target: &str) -> (r: AuthorizationQueryResponse)
    ensures
        spec_response_matches(r, target@),
{
    let pairs = split_query_pairs(target);
    let code = lookup_first(&pairs, "code");
    let state = lookup_first(&pairs, "state");
    let error = lookup_first(&pairs, "error");
    let error_description = lookup_first(&pairs, "error_description");
    AuthorizationQueryResponse { code, state, error, error_description }
}

/// The fragment of a URL: what follows the first `#`.
pub open spec fn spec_fragment_of(url: Seq<char>) -> Option<Seq<char>> {
    match spec_find(url, '#') {
        Some(h) => Some(url.skip(h + 1)),
        None => None,
    }
}

/// The URL up to its fragment.
pub open spec fn spec_head_of(url: Seq<char>) -> Seq<char> {
    match spec_find(url, '#') {
        Some(h) => url.take(h),
        None => url,
    }
}

/// The query of a URL: what follows the first `?` before the fragment.
pub open spec fn spec_query_of(url: Seq<char>) -> Option<Seq<char>> {
    let head = spec_head_of(url);
    match spec_find(head, '?') {
        Some(q) => Some(head.skip(q + 1)),
        None => None,
    }
}

/// The query and fragment of a URL, as owned strings.
pub fn split_query_fragment(url: &str) -> (r: (Option<String>, Option<String>))
    ensures
        opt_matches(r.0, spec_query_of(url@)),
        opt_matches(r.1, spec_fragment_of(url@)),
{
    let len: usize = url.unicode_len();
    let (head, fragment) = match text::find_char(url, '#') {
        Some(h) => {
            proof {
                text::lemma_spec_find(url@, '#');
            }
            (url.substring_char(0, h), Some(String::from_str(url.substring_char(h + 1, len))))
        },
        None => (url, None),
    };
    let head_len: usize = head.unicode_len();
    let query = match text::find_char(head, '?') {
        Some(q) => {
            proof {
                text::lemma_spec_find(head@, '?');
            }
            Some(String::from_str(head.substring_char(q + 1, head_len)))
        },
        None => None,
    };
    (query, fragment)
}

/// A loopback host, on which a redirect URI must name a port.
pub open spec fn spec_is_loopback_host(h: Seq<char>) -> bool {
    h == "localhost"@ || h == "127.0.0.1"@ || h == "[::1]"@ || h == "::1"@
}

fn is_loopback_host(h: &str) -> (r: bool)
    ensures
        r == spec_is_loopback_host(h@),
{
    text::str_eq(h, "localhost") || text::str_eq(h, "127.0.0.1") || text::str_eq(h, "[::1]")
        || text::str_eq(h, "::1")
}

/// A redirect URI is invalid when it parses to a loopback host without an
/// explicit port: the local listener's port cannot be inferred.
pub open spec fn spec_redirect_uri_invalid(u: Seq<char>) -> bool {
    match host_port_of(u) {
        Some(hp) => spec_is_loopback_host(hp.0) && hp.1 is None,
        None => false,
    }
}

fn redirect_uri_invalid(u: &str) -> (r: bool)
    ensures
        r == spec_redirect_uri_invalid(u@),
{
    match url_support::url_host_port(u) {
        Some(hp) => is_loopback_host(hp.0.as_str()) && hp.1.is_none(),
        None => false,
    }
}

/// The position of the first invalid redirect URI, if any.
pub open spec fn spec_first_invalid_redirect(uris: Seq<Seq<char>>) -> Option<int>
    decreases uris.len(),
{
    if uris.len() == 0 {
        None
    } else if spec_redirect_uri_invalid(uris[0]) {
        Some(0int)
    } else {
        match spec_first_invalid_redirect(uris.drop_first()) {
            Some(i) => Some(i + 1),
            None => None,
        }
    }
}

/// The first invalid redirect URI is invalid, has only valid ones before
/// it, and is absent exactly when all are valid.
proof fn lemma_first_invalid_redirect(uris: Seq<Seq<char>>)
    ensures
        match spec_first_invalid_redirect(uris) {
            Some(i) => {
                &&& 0 <= i < uris.len()
                &&& spec_redirect_uri_invalid(uris[i])
                &&& forall|j: int| 0 <= j < i ==> !spec_redirect_uri_invalid(#[trigger] uris[j])
            },
            None => forall|j: int|
                0 <= j < uris.len() ==> !spec_redirect_uri_invalid(#[trigger] uris[j]),
        },
    decreases uris.len(),
{
    if uris.len() > 0 && !spec_redirect_uri_invalid(uris[0]) {
        let rest = uris.drop_first();
        lemma_first_invalid_redirect(rest);
        match spec_first_invalid_redirect(rest) {
            Some(i) => {
                assert(uris[i + 1] == rest[i]);
                assert forall|j: int| 0 <= j < i + 1 implies !spec_redirect_uri_invalid(
                    #[trigger] uris[j],
                ) by {
                    if j > 0 {
                        assert(uris[j] == rest[j - 1]);
                    }
                }
            },
            None => {
                assert forall|j: int| 0 <= j < uris.len() implies !spec_redirect_uri_invalid(
                    #[trigger] uris[j],
                ) by {
                    if j > 0 {
                        assert(uris[j] == rest[j - 1]);
                    }
                }
            },
        }
    }
}

/// The states of the interactive flow. `Succeeded` and `Failed` are
/// terminal: no transition leaves them.
#[derive(Debug, PartialEq, Eq)]
pub enum WebViewState {
    Idle,
    NavigatingToAuthUrl,
    AwaitingRedirect,
    Succeeded(AuthorizationQueryResponse),
    Failed(WebViewExecutionError),
}

impl WebViewState {
    /// Terminal states absorb every further event.
    pub open spec fn is_terminal(self) -> bool {
        self is Succeeded || self is Failed
    }
}

/// What the browser surface reports to the waiting flow.
#[derive(Debug, PartialEq, Eq)]
pub enum WebViewEvent {
    /// The surface navigated, or was redirected, to a URL.
    Navigated(String),
    /// The user closed the surface.
    WindowClosed,
    /// The configured timeout elapsed before a redirect.
    TimeoutReached,
    /// The channel from the surface broke, with its message.
    ChannelError(String),
}

/// The navigated URL is one of the allowed redirect targets.
pub open spec fn spec_is_redirect(url: Seq<char>, uris: Seq<Seq<char>>) -> bool {
    exists|i: int| 0 <= i < uris.len() && spec_starts_with(url, #[trigger] uris[i])
}

/// The query of the URL where it has one, else its fragment.
pub open spec fn spec_target_of(url: Seq<char>) -> Option<Seq<char>> {
    match spec_query_of(url) {
        Some(q) => Some(q),
        None => spec_fragment_of(url),
    }
}

/// The extracted query or fragment has the expected shape: it carries a
/// code or an error.
pub open spec fn spec_shape_ok(target: Seq<char>) -> bool {
    spec_lookup_first(spec_query_pairs(target), "code"@) is Some || spec_lookup_first(
        spec_query_pairs(target),
        "error"@,
    ) is Some
}

/// The interactive flow: drives a browser surface through the
/// authorization URL, watches its navigation events, and extracts the
/// authorization response from the redirect.
#[derive(Debug)]
pub struct WebViewSession {
    /// The authorization URL the surface starts at.
    pub auth_url: String,
    /// The redirect URIs at which the response may arrive.
    pub redirect_uris: Vec<String>,
    pub options: WebViewOptions,
    pub state: WebViewState,
}

impl WebViewSession {
    /// A session over validated inputs. An invalid redirect URI, or a
    /// start URL with no host, fails the session before any navigation.
    pub fn new(auth_url: String, redirect_uris: Vec<String>, options: WebViewOptions) -> (r:
        WebViewSession)
        ensures
            r.auth_url == auth_url,
            r.redirect_uris == redirect_uris,
            r.options == options,
            match spec_first_invalid_redirect(str_views(redirect_uris@)) {
                Some(i) => r.state matches WebViewState::Failed(
                    WebViewExecutionError::InvalidRedirectUri(u),
                ) && u@ == str_views(redirect_uris@)[i],
                None => match host_port_of(auth_url@) {
                    Some(hp) => r.state == WebViewState::Idle,
                    None => r.state matches WebViewState::Failed(
                        WebViewExecutionError::InvalidStartUri { reason },
                    ) && reason@ == "the start uri has no host"@,
                },
            },
    {
        proof {
            lemma_first_invalid_redirect(str_views(redirect_uris@));
        }
        let mut i: usize = 0;
        let n = redirect_uris.len();
        while i < n
            invariant
                n == redirect_uris@.len(),
                i <= n,
                forall|j: int|
                    0 <= j < i ==> !spec_redirect_uri_invalid(
                        #[trigger] str_views(redirect_uris@)[j],
                    ),
            decreases n - i,
        {
            if redirect_uri_invalid(redirect_uris[i].as_str()) {
                proof {
                    assert(str_views(redirect_uris@)[i as int] == redirect_uris@[i as int]@);
                    lemma_first_invalid_redirect(str_views(redirect_uris@));
                }
                let uri = redirect_uris[i].clone();
                return WebViewSession {
                    auth_url,
                    redirect_uris,
                    options,
                    state: WebViewState::Failed(WebViewExecutionError::InvalidRedirectUri(uri)),
                };
            }
            proof {
                assert(str_views(redirect_uris@)[i as int] == redirect_uris@[i as int]@);
            }
            i += 1;
        }
        if url_support::url_host_port(auth_url.as_str()).is_none() {
            return WebViewSession {
                auth_url,
                redirect_uris,
                options,
                state: WebViewState::Failed(
                    WebViewExecutionError::InvalidStartUri {
                        reason: String::from_str("the start uri has no host"),
                    },
                ),
            };
        }
        WebViewSession { auth_url, redirect_uris, options, state: WebViewState::Idle }
    }

    /// Marks the surface as navigating to the authorization URL. Only an
    /// idle session starts navigating; every other state is unchanged.
    pub fn start_navigation(&mut self)
        ensures
            final(self).auth_url == old(self).auth_url,
            final(self).redirect_uris == old(self).redirect_uris,
            final(self).options == old(self).options,
            final(self).state == (if old(self).state is Idle {
                WebViewState::NavigatingToAuthUrl
            } else {
                old(self).state
            }),
    {
        if let WebViewState::Idle = &self.state {
            self.state = WebViewState::NavigatingToAuthUrl;
        }
    }

    /// Applies one surface event. Terminal states ignore every event; a
    /// live session fails on a closed window, a timeout or a broken
    /// channel, finishes on a redirect, advances on the authorization URL,
    /// and otherwise fails or stays put per the enforcement option.
    pub fn handle_event(&mut self, event: WebViewEvent)
        ensures
            final(self).auth_url == old(self).auth_url,
            final(self).redirect_uris == old(self).redirect_uris,
            final(self).options == old(self).options,
            old(self).state.is_terminal() ==> final(self).state == old(self).state,
            !old(self).state.is_terminal() ==> match event {
                WebViewEvent::WindowClosed => final(self).state == WebViewState::Failed(
                    WebViewExecutionError::WindowClosedRequested,
                ),
                WebViewEvent::TimeoutReached => final(self).state == WebViewState::Failed(
                    WebViewExecutionError::WindowClosedOnTimeoutReached,
                ),
                WebViewEvent::ChannelError(m) => final(self).state matches WebViewState::Failed(
                    WebViewExecutionError::RecvError(x),
                ) && x@ == m@,
                WebViewEvent::Navigated(url) => {
                    if spec_is_redirect(url@, str_views(old(self).redirect_uris@)) {
                        match spec_target_of(url@) {
                            Some(target) => {
                                if spec_shape_ok(target) {
                                    final(self).state matches WebViewState::Succeeded(resp)
                                        && spec_response_matches(resp, target)
                                } else {
                                    final(self).state matches WebViewState::Failed(
                                        WebViewExecutionError::SerdeError(m),
                                    ) && m@ == "the query or fragment held neither code nor error"@
                                }
                            },
                            None => final(self).state matches WebViewState::Failed(
                                WebViewExecutionError::RedirectUriMissingQueryOrFragment(u),
                            ) && u@ == url@,
                        }
                    } else if spec_starts_with(url@, old(self).auth_url@) {
                        final(self).state == WebViewState::AwaitingRedirect
                    } else if old(self).options.enforce_invalid_navigation {
                        final(self).state == WebViewState::Failed(
                            WebViewExecutionError::WindowClosedOnInvalidNavigation,
                        )
                    } else {
                        final(self).state == old(self).state
                    }
                },
            },
    {
        let terminal = match &self.state {
            WebViewState::Succeeded(_) => true,
            WebViewState::Failed(_) => true,
            _ => false,
        };
        if terminal {
            return;
        }
        match event {
            WebViewEvent::WindowClosed => {
                self.state = WebViewState::Failed(WebViewExecutionError::WindowClosedRequested);
            },
            WebViewEvent::TimeoutReached => {
                self.state = WebViewState::Failed(
                    WebViewExecutionError::WindowClosedOnTimeoutReached,
                );
            },
            WebViewEvent::ChannelError(m) => {
                self.state = WebViewState::Failed(WebViewExecutionError::RecvError(m));
            },
            WebViewEvent::Navigated(url) => {
                if self.url_is_redirect(url.as_str()) {
                    let (query, fragment) = split_query_fragment(url.as_str());
                    let target = match query {
                        Some(q) => Some(q),
                        None => fragment,
                    };
                    match target {
                        Some(t) => {
                            let resp = parse_authorization_response(t.as_str());
                            if resp.code.is_some() || resp.error.is_some() {
                                self.state = WebViewState::Succeeded(resp);
                            } else {
                                self.state = WebViewState::Failed(
                                    WebViewExecutionError::SerdeError(
                                        String::from_str(
                                            "the query or fragment held neither code nor error",
                                        ),
                                    ),
                                );
                            }
                        },
                        None => {
                            self.state = WebViewState::Failed(
                                WebViewExecutionError::RedirectUriMissingQueryOrFragment(url),
                            );
                        },
                    }
                } else if text::starts_with_str(url.as_str(), self.auth_url.as_str()) {
                    self.state = WebViewState::AwaitingRedirect;
                } else if self.options.enforce_invalid_navigation {
                    self.state = WebViewState::Failed(
                        WebViewExecutionError::WindowClosedOnInvalidNavigation,
                    );
                }
            },
        }
    }

    /// Whether the URL starts with one of the allowed redirect URIs.
    fn url_is_redirect(&self, url: &str) -> (r: bool)
        ensures
            r == spec_is_redirect(url@, str_views(self.redirect_uris@)),
    {
        let mut i: usize = 0;
        let n = self.redirect_uris.len();
        while i < n
            invariant
                n == self.redirect_uris@.len(),
                i <= n,
                forall|j: int|
                    0 <= j < i ==> !spec_starts_with(
                        url@,
                        #[trigger] str_views(self.redirect_uris@)[j],
                    ),
            decreases n - i,
        {
            if text::starts_with_str(url, self.redirect_uris[i].as_str()) {
                proof {
                    assert(str_views(self.redirect_uris@)[i as int]
                        == self.redirect_uris@[i as int]@);
                }
                return true;
            }
            proof {
                assert(str_views(self.redirect_uris@)[i as int] == self.redirect_uris@[i as int]@);
            }
            i += 1;
        }
        false
    }

    /// Marks the flow failed because building the credential that precedes
    /// navigation failed. Terminal states are unchanged.
    pub fn fail_authorization(&mut self, err: IdentityError)
        ensures
            final(self).auth_url == old(self).auth_url,
            final(self).redirect_uris == old(self).redirect_uris,
            final(self).options == old(self).options,
            final(self).state == (if old(self).state.is_terminal() {
                old(self).state
            } else {
                WebViewState::Failed(WebViewExecutionError::AuthorizationError(err))
            }),
    {
        let terminal = match &self.state {
            WebViewState::Succeeded(_) => true,
            WebViewState::Failed(_) => true,
            _ => false,
        };
        if !terminal {
            self.state = WebViewState::Failed(WebViewExecutionError::AuthorizationError(err));
        }
    }

    /// Marks the flow failed because exchanging the captured code for a
    /// token failed. Terminal states are unchanged.
    pub fn fail_execution(&mut self, message: String)
        ensures
            final(self).auth_url == old(self).auth_url,
            final(self).redirect_uris == old(self).redirect_uris,
            final(self).options == old(self).options,
            old(self).state.is_terminal() ==> final(self).state == old(self).state,
            !old(self).state.is_terminal() ==> (final(self).state matches WebViewState::Failed(
                WebViewExecutionError::AuthExecutionError(m),
            ) && m@ == message@),
    {
        let terminal = match &self.state {
            WebViewState::Succeeded(_) => true,
            WebViewState::Failed(_) => true,
            _ => false,
        };
        if !terminal {
            self.state = WebViewState::Failed(WebViewExecutionError::AuthExecutionError(message));
        }
    }
}

} // verus!
