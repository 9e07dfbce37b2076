//! Reverse-proxy middleware model: validation of the upstream base URI at
//! construction time, rewriting of a request's target to the upstream
//! authority, and the per-request control flow that decides which of the
//! user-supplied hooks (`on_request`, `on_response`, `on_error`) run and
//! which response the caller receives.
//!
//! The middleware wraps an inner service. Per request it evaluates a
//! user-supplied `should_proxy` predicate: when false it delegates to the
//! inner service and is fully transparent; when true it forwards the request
//! to the upstream and settles the outcome through `on_response` (upstream
//! replied, with any HTTP status) or `on_error` (transport-level failure).
//! The asynchronous plumbing — the outbound client, the suspension points —
//! lives outside this crate and drives these functions.

use vstd::prelude::*;

verus! {

/// A transport-level failure of the outbound upstream call, as classified
/// for the `on_error` hook. An HTTP response with an error status is not a
/// `ProxyError`: any status flows through `on_response`.
#[derive(Clone, Copy, PartialEq, Eq, Structural, Debug)]
pub enum ProxyError {
    /// The connection to the upstream could not be established.
    Connect,
    /// The outbound call timed out.
    Timeout,
    /// The connection was established but the exchange failed mid-flight.
    Transport,
}

/// Why construction of the proxy middleware was rejected.
#[derive(Clone, Copy, PartialEq, Eq, Structural, Debug)]
pub enum ProxyConstructionError {
    /// The upstream URI does not begin with `http://` or `https://`.
    MissingScheme,
    /// The upstream URI has a scheme but no authority after it.
    EmptyAuthority,
    /// The authority part holds a byte that cannot stand in an authority.
    InvalidAuthority,
}

/// The byte `/`.
pub const SLASH: u8 = 47;

/// The byte `?`.
pub const QUESTION: u8 = 63;

/// The byte `#`.
pub const HASH_SIGN: u8 = 35;

/// The byte ` `: the last of the ASCII control range and space.
pub const SPACE: u8 = 32;

/// The ASCII `DEL` byte: the first byte past the visible ASCII range.
pub const DELETE: u8 = 127;

/// Whether a byte may stand in the authority part of an upstream URI:
/// visible ASCII that is not one of the delimiters `/`, `?`, `#`. Control
/// bytes, space and non-ASCII bytes cannot stand there, so a URI holding
/// them is rejected at construction, never at request time.
pub open spec fn authority_byte(b: u8) -> bool {
    SPACE < b < DELETE && b != SLASH && b != QUESTION && b != HASH_SIGN
}

/// A non-empty run of authority bytes.
pub open spec fn valid_authority(s: Seq<u8>) -> bool {
    s.len() > 0 && (forall|i: int| 0 <= i < s.len() ==> authority_byte(s[i]))
}

/// The bytes of `http://`.
pub open spec fn http_prefix() -> Seq<u8> {
    seq![104u8, 116u8, 116u8, 112u8, 58u8, 47u8, 47u8]
}

/// The bytes of `https://`.
pub open spec fn https_prefix() -> Seq<u8> {
    seq![104u8, 116u8, 116u8, 112u8, 115u8, 58u8, 47u8, 47u8]
}

/// Whether `s` is a well-formed upstream base URI: an `http` or `https`
/// scheme followed by a non-empty authority and nothing else.
pub open spec fn valid_upstream(s: Seq<u8>) -> bool {
    ||| (s.len() >= 7 && s.subrange(0, 7) == http_prefix() && valid_authority(s.skip(7)))
    ||| (s.len() >= 8 && s.subrange(0, 8) == https_prefix() && valid_authority(s.skip(8)))
}

/// Where the authority of `s` starts: past an `https://` or `http://`
/// prefix; `None` when `s` carries neither scheme.
pub open spec fn scheme_split(s: Seq<u8>) -> Option<int> {
    if s.len() >= 8 && s.subrange(0, 8) == https_prefix() {
        Some(8int)
    } else if s.len() >= 7 && s.subrange(0, 7) == http_prefix() {
        Some(7int)
    } else {
        None
    }
}

/// The upstream base target of the proxy middleware: scheme and authority,
/// validated once at construction. Per request, the target authority and
/// scheme of a forwarded request are rewritten to this value while path,
/// query, method, headers and body are preserved.
#[derive(Debug)]
pub struct UpstreamUri {
    https: bool,
    authority: Vec<u8>,
}

impl UpstreamUri {
    /// Well-formedness: the held authority is non-empty and every byte of
    /// it may stand in an authority.
    pub open spec fn wf(&self) -> bool {
        valid_authority(self.spec_authority())
    }

    /// Whether the scheme is `https` (`http` otherwise).
    pub closed spec fn spec_https(&self) -> bool {
        self.https
    }

    /// The authority bytes.
    pub closed spec fn spec_authority(&self) -> Seq<u8> {
        self.authority@
    }

    /// The bytes of the scheme plus the `://` separator.
    pub open spec fn spec_scheme_prefix(&self) -> Seq<u8> {
        if self.spec_https() {
            https_prefix()
        } else {
            http_prefix()
        }
    }

    /// Whether the scheme is `https`.
    pub fn is_https(&self) -> (r: bool)
        ensures
            r == self.spec_https(),
    {
        self.https
    }

    /// The authority bytes.
    pub fn authority(&self) -> (r: &Vec<u8>)
        ensures
            r@ == self.spec_authority(),
    {
        &self.authority
    }
}

/// Whether `prefix` is a prefix of `s`, byte for byte.
fn has_prefix(s: &[u8], prefix: &[u8]) -> (r: bool)
    ensures
        r == (s@.len() >= prefix@.len() && s@.subrange(0, prefix@.len() as int) == prefix@),
{
    if s.len() < prefix.len() {
        return false;
    }
    let mut i: usize = 0;
    while i < prefix.len()
        invariant
            i <= prefix.len(),
            prefix.len() <= s.len(),
            forall|j: int| 0 <= j < i ==> s@[j] == prefix@[j],
        decreases prefix.len() - i,
    {
        if s[i] != prefix[i] {
            proof {
                assert(s@.subrange(0, prefix@.len() as int)[i as int] != prefix@[i as int]);
            }
            return false;
        }
        i += 1;
    }
    proof {
        assert(s@.subrange(0, prefix@.len() as int) =~= prefix@);
    }
    true
}

/// The `http://` prefix bytes.
fn http_prefix_bytes() -> (v: Vec<u8>)
    ensures
        v@ == http_prefix(),
{
    let mut v: Vec<u8> = Vec::new();
    v.push(104);  // h
    v.push(116);  // t
    v.push(116);  // t
    v.push(112);  // p
    v.push(58);  // :
    v.push(47);  // /
    v.push(47);  // /
    proof {
        assert(v@ =~= http_prefix());
    }
    v
}

/// The `https://` prefix bytes.
fn https_prefix_bytes() -> (v: Vec<u8>)
    ensures
        v@ == https_prefix(),
{
    let mut v: Vec<u8> = Vec::new();
    v.push(104);  // h
    v.push(116);  // t
    v.push(116);  // t
    v.push(112);  // p
    v.push(115);  // s
    v.push(58);  // :
    v.push(47);  // /
    v.push(47);  // /
    proof {
        assert(v@ =~= https_prefix());
    }
    v
}

/// Copies the bytes of `s` from `from` to its end into a fresh vector.
fn tail_of(s: &[u8], from: usize) -> (v: Vec<u8>)
    requires
        from <= s@.len(),
    ensures
        v@ == s@.skip(from as int),
{
    let mut v: Vec<u8> = Vec::new();
    let mut i: usize = from;
    while i < s.len()
        invariant
            from <= i <= s@.len(),
            v@ =~= s@.subrange(from as int, i as int),
        decreases s@.len() - i,
    {
        v.push(s[i]);
        i += 1;
    }
    proof {
        assert(v@ =~= s@.skip(from as int));
    }
    v
}

/// Looks for a byte of the authority that may not stand there.
fn find_bad_authority_byte(s: &Vec<u8>) -> (r: Option<usize>)
    ensures
        r matches Some(i) ==> i < s@.len() && !authority_byte(s@[i as int]),
        r is None ==> (forall|i: int| 0 <= i < s@.len() ==> authority_byte(s@[i])),
{
    let mut i: usize = 0;
    while i < s.len()
        invariant
            i <= s@.len(),
            forall|j: int| 0 <= j < i ==> authority_byte(s@[j]),
        decreases s@.len() - i,
    {
        let b = s[i];
        if b <= SPACE || b >= DELETE || b == SLASH || b == QUESTION || b == HASH_SIGN {
            return Some(i);
        }
        i += 1;
    }
    None
}

/// Validates an upstream base URI at middleware construction time. Accepts
/// exactly the well-formed upstream URIs; everything else is rejected here,
/// never deferred to request time.
pub fn parse_upstream(uri: &[u8]) -> (r: Result<UpstreamUri, ProxyConstructionError>)
    ensures
        r is Ok <==> valid_upstream(uri@),
        r matches Ok(u) ==> u.wf(),
        r matches Ok(u) ==> {
            &&& u.spec_https() == (uri@.len() >= 8 && uri@.subrange(0, 8) == https_prefix())
            &&& uri@ == u.spec_scheme_prefix() + u.spec_authority()
        },
        r == Err::<UpstreamUri, ProxyConstructionError>(ProxyConstructionError::MissingScheme)
            <==> scheme_split(uri@) is None,
        r == Err::<UpstreamUri, ProxyConstructionError>(ProxyConstructionError::EmptyAuthority)
            <==> (scheme_split(uri@) matches Some(n) && uri@.skip(n).len() == 0),
        r == Err::<UpstreamUri, ProxyConstructionError>(ProxyConstructionError::InvalidAuthority)
            <==> (scheme_split(uri@) matches Some(n) && uri@.skip(n).len() > 0 && !valid_authority(
            uri@.skip(n),
        )),
{
    let https_p = https_prefix_bytes();
    let http_p = http_prefix_bytes();
    let (https, scheme_len): (bool, usize) = if has_prefix(uri, https_p.as_slice()) {
        (true, 8)
    } else if has_prefix(uri, http_p.as_slice()) {
        (false, 7)
    } else {
        return Err(ProxyConstructionError::MissingScheme);
    };
    let authority = tail_of(uri, scheme_len);
    if authority.len() == 0 {
        return Err(ProxyConstructionError::EmptyAuthority);
    }
    match find_bad_authority_byte(&authority) {
        Some(_) => Err(ProxyConstructionError::InvalidAuthority),
        None => {
            let u = UpstreamUri { https, authority };
            proof {
                assert(uri@ =~= u.spec_scheme_prefix() + u.spec_authority());
            }
            Ok(u)
        },
    }
}

/// Appends all bytes of `src` to `dst`.
fn append_bytes(dst: &mut Vec<u8>, src: &[u8])
    ensures
        final(dst)@ == old(dst)@ + src@,
{
    let mut i: usize = 0;
    while i < src.len()
        invariant
            i <= src@.len(),
            dst@ =~= old(dst)@ + src@.subrange(0, i as int),
        decreases src@.len() - i,
    {
        dst.push(src[i]);
        i += 1;
    }
    proof {
        assert(dst@ =~= old(dst)@ + src@);
    }
}

/// Rewrites a request target to the upstream: the upstream's scheme and
/// authority followed by the request's own path and query, which are
/// preserved unchanged.
pub fn rewrite_target(upstream: &UpstreamUri, path_and_query: &[u8]) -> (t: Vec<u8>)
    ensures
        t@ == upstream.spec_scheme_prefix() + upstream.spec_authority() + path_and_query@,
{
    let mut t: Vec<u8> = if upstream.is_https() {
        https_prefix_bytes()
    } else {
        http_prefix_bytes()
    };
    append_bytes(&mut t, upstream.authority().as_slice());
    append_bytes(&mut t, path_and_query);
    t
}

/// How a request that entered the proxy middleware was carried: served by
/// the inner service (the `should_proxy` predicate said no), or forwarded to
/// the upstream with the outcome of the outbound call.
pub enum RequestPath<R> {
    /// The inner service produced this response; the middleware must return
    /// it untouched.
    Local(R),
    /// The request was forwarded; `Ok` holds the upstream response (any HTTP
    /// status), `Err` a transport-level failure.
    Forwarded(Result<R, ProxyError>),
}

/// Settles a request: the inner service's response passes through untouched;
/// an upstream response passes through `on_response`; a transport failure is
/// absorbed by `on_error`, whose response is what the caller receives.
/// Exactly one of the two hooks runs on a forwarded request, never both.
pub fn finish_request<R, FResp: FnOnce(R) -> R, FErr: FnOnce(ProxyError) -> R>(
    path: RequestPath<R>,
    on_response: FResp,
    on_error: FErr,
) -> (resp: R)
    requires
        forall|x: R| path == RequestPath::Forwarded(Ok::<R, ProxyError>(x)) ==> call_requires(
            on_response,
            (x,),
        ),
        forall|e: ProxyError| path == RequestPath::Forwarded(Err::<R, ProxyError>(e))
            ==> call_requires(on_error, (e,)),
    ensures
        path matches RequestPath::Local(x) ==> resp == x,
        path matches RequestPath::Forwarded(Ok(x)) ==> call_ensures(on_response, (x,), resp),
        path matches RequestPath::Forwarded(Err(e)) ==> call_ensures(on_error, (e,), resp),
{
    match path {
        RequestPath::Local(x) => x,
        RequestPath::Forwarded(Ok(x)) => on_response(x),
        RequestPath::Forwarded(Err(e)) => on_error(e),
    }
}

/// One observable step of handling a request inside the proxy middleware.
#[derive(Clone, Copy, PartialEq, Eq, Structural, Debug)]
pub enum ProxyEvent {
    /// The inner service was called.
    InnerCall,
    /// The `on_request` hook ran.
    OnRequest,
    /// The outbound upstream call was issued.
    UpstreamCall,
    /// The `on_response` hook ran.
    OnResponse,
    /// The `on_error` hook ran.
    OnError,
}

/// The full ordered trace of observable steps for one request, given the
/// value of `should_proxy` and, when forwarded, whether the upstream call
/// succeeded.
pub open spec fn event_trace(should_proxy: bool, upstream_ok: bool) -> Seq<ProxyEvent> {
    if !should_proxy {
        seq![ProxyEvent::InnerCall]
    } else if upstream_ok {
        seq![ProxyEvent::OnRequest, ProxyEvent::UpstreamCall, ProxyEvent::OnResponse]
    } else {
        seq![ProxyEvent::OnRequest, ProxyEvent::UpstreamCall, ProxyEvent::OnError]
    }
}

/// How many times `e` occurs in `t`.
pub open spec fn occurrences(t: Seq<ProxyEvent>, e: ProxyEvent) -> nat
    decreases t.len(),
{
    if t.len() == 0 {
        0
    } else {
        occurrences(t.drop_last(), e) + if t.last() == e {
            1nat
        } else {
            0
        }
    }
}

/// The ordered steps of handling one request, as a value.
pub fn request_events(should_proxy: bool, upstream_ok: bool) -> (ev: Vec<ProxyEvent>)
    ensures
        ev@ == event_trace(should_proxy, upstream_ok),
{
    let mut ev: Vec<ProxyEvent> = Vec::new();
    if !should_proxy {
        ev.push(ProxyEvent::InnerCall);
    } else {
        ev.push(ProxyEvent::OnRequest);
        ev.push(ProxyEvent::UpstreamCall);
        if upstream_ok {
            ev.push(ProxyEvent::OnResponse);
        } else {
            ev.push(ProxyEvent::OnError);
        }
    }
    proof {
        assert(ev@ =~= event_trace(should_proxy, upstream_ok));
    }
    ev
}

/// Unfolds `occurrences` over a trace of length at most three.
proof fn lemma_occurrences_small(t: Seq<ProxyEvent>, e: ProxyEvent)
    requires
        t.len() <= 3,
    ensures
        t.len() == 1 ==> occurrences(t, e) == (if t[0] == e {
            1nat
        } else {
            0nat
        }),
        t.len() == 3 ==> occurrences(t, e) == (if t[0] == e {
            1nat
        } else {
            0nat
        }) + (if t[1] == e {
            1nat
        } else {
            0nat
        }) + (if t[2] == e {
            1nat
        } else {
            0nat
        }),
{
    if t.len() == 1 {
        assert(t.drop_last().len() == 0);
        assert(occurrences(t.drop_last(), e) == 0);
        assert(t.last() == t[0]);
    }
    if t.len() == 3 {
        let t2 = t.drop_last();
        let t1 = t2.drop_last();
        let t0 = t1.drop_last();
        assert(t0.len() == 0);
        assert(occurrences(t0, e) == 0);
        assert(t1.last() == t[0]);
        assert(t2.last() == t[1]);
        assert(t.last() == t[2]);
        assert(occurrences(t1, e) == occurrences(t0, e) + if t[0] == e {
            1nat
        } else {
            0nat
        });
        assert(occurrences(t2, e) == occurrences(t1, e) + if t[1] == e {
            1nat
        } else {
            0nat
        });
        assert(occurrences(t, e) == occurrences(t2, e) + if t[2] == e {
            1nat
        } else {
            0nat
        });
    }
}

/// Transparency: when `should_proxy` is false the only step is the inner
/// call — no hook runs and no upstream call is made — and `finish_request`
/// returns the inner response unchanged.
pub proof fn lemma_transparent(upstream_ok: bool)
    ensures
        event_trace(false, upstream_ok) == seq![ProxyEvent::InnerCall],
        occurrences(event_trace(false, upstream_ok), ProxyEvent::OnRequest) == 0,
        occurrences(event_trace(false, upstream_ok), ProxyEvent::OnResponse) == 0,
        occurrences(event_trace(false, upstream_ok), ProxyEvent::OnError) == 0,
        occurrences(event_trace(false, upstream_ok), ProxyEvent::UpstreamCall) == 0,
{
    lemma_occurrences_small(event_trace(false, upstream_ok), ProxyEvent::OnRequest);
    lemma_occurrences_small(event_trace(false, upstream_ok), ProxyEvent::OnResponse);
    lemma_occurrences_small(event_trace(false, upstream_ok), ProxyEvent::OnError);
    lemma_occurrences_small(event_trace(false, upstream_ok), ProxyEvent::UpstreamCall);
}

/// On a proxied request whose upstream call succeeds, `on_request` runs
/// exactly once, before the upstream call; `on_response` exactly once, after
/// it; and `on_error` never.
pub proof fn lemma_success_hooks()
    ensures
        event_trace(true, true) == seq![
            ProxyEvent::OnRequest,
            ProxyEvent::UpstreamCall,
            ProxyEvent::OnResponse,
        ],
        occurrences(event_trace(true, true), ProxyEvent::OnRequest) == 1,
        occurrences(event_trace(true, true), ProxyEvent::OnResponse) == 1,
        occurrences(event_trace(true, true), ProxyEvent::OnError) == 0,
{
    lemma_occurrences_small(event_trace(true, true), ProxyEvent::OnRequest);
    lemma_occurrences_small(event_trace(true, true), ProxyEvent::OnResponse);
    lemma_occurrences_small(event_trace(true, true), ProxyEvent::OnError);
}

/// On a proxied request whose upstream call fails at the transport level,
/// `on_error` runs exactly once and `on_response` never.
pub proof fn lemma_failure_hooks()
    ensures
        event_trace(true, false) == seq![
            ProxyEvent::OnRequest,
            ProxyEvent::UpstreamCall,
            ProxyEvent::OnError,
        ],
        occurrences(event_trace(true, false), ProxyEvent::OnRequest) == 1,
        occurrences(event_trace(true, false), ProxyEvent::OnError) == 1,
        occurrences(event_trace(true, false), ProxyEvent::OnResponse) == 0,
{
    lemma_occurrences_small(event_trace(true, false), ProxyEvent::OnRequest);
    lemma_occurrences_small(event_trace(true, false), ProxyEvent::OnError);
    lemma_occurrences_small(event_trace(true, false), ProxyEvent::OnResponse);
}

/// For no request do both `on_response` and `on_error` run.
pub proof fn lemma_never_both_hooks(should_proxy: bool, upstream_ok: bool)
    ensures
        occurrences(event_trace(should_proxy, upstream_ok), ProxyEvent::OnResponse) == 0
            || occurrences(event_trace(should_proxy, upstream_ok), ProxyEvent::OnError) == 0,
{
    lemma_occurrences_small(event_trace(should_proxy, upstream_ok), ProxyEvent::OnResponse);
    lemma_occurrences_small(event_trace(should_proxy, upstream_ok), ProxyEvent::OnError);
}

} // verus!
