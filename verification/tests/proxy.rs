use fregate::proxy::{
    finish_request, parse_upstream, request_events, rewrite_target, ProxyConstructionError,
    ProxyError, ProxyEvent, RequestPath,
};

#[test]
fn parse_http_upstream() {
    let u = parse_upstream(b"http://upstream:50051").unwrap();
    assert!(!u.is_https());
    assert_eq!(u.authority().as_slice(), b"upstream:50051");
}

#[test]
fn parse_https_upstream() {
    let u = parse_upstream(b"https://service.internal").unwrap();
    assert!(u.is_https());
    assert_eq!(u.authority().as_slice(), b"service.internal");
}

#[test]
fn parse_rejects_missing_scheme() {
    assert_eq!(
        parse_upstream(b"ftp://upstream").unwrap_err(),
        ProxyConstructionError::MissingScheme
    );
    assert_eq!(
        parse_upstream(b"upstream:50051").unwrap_err(),
        ProxyConstructionError::MissingScheme
    );
    assert_eq!(
        parse_upstream(b"").unwrap_err(),
        ProxyConstructionError::MissingScheme
    );
}

#[test]
fn parse_rejects_empty_authority() {
    assert_eq!(
        parse_upstream(b"http://").unwrap_err(),
        ProxyConstructionError::EmptyAuthority
    );
    assert_eq!(
        parse_upstream(b"https://").unwrap_err(),
        ProxyConstructionError::EmptyAuthority
    );
}

#[test]
fn parse_rejects_bad_authority_bytes() {
    assert_eq!(
        parse_upstream(b"http://host/path").unwrap_err(),
        ProxyConstructionError::InvalidAuthority
    );
    assert_eq!(
        parse_upstream(b"http://ho st").unwrap_err(),
        ProxyConstructionError::InvalidAuthority
    );
    assert_eq!(
        parse_upstream(b"http://host?q").unwrap_err(),
        ProxyConstructionError::InvalidAuthority
    );
}

#[test]
fn parse_rejects_invisible_and_non_ascii_bytes() {
    // A control byte cannot stand in an authority.
    assert_eq!(
        parse_upstream(b"http://ho\x01st").unwrap_err(),
        ProxyConstructionError::InvalidAuthority
    );
    // Neither can a byte past the visible ASCII range.
    assert_eq!(
        parse_upstream(b"http://h\xc3\xa9st").unwrap_err(),
        ProxyConstructionError::InvalidAuthority
    );
    assert_eq!(
        parse_upstream(b"http://host\x7f").unwrap_err(),
        ProxyConstructionError::InvalidAuthority
    );
    // The whole visible range short of the delimiters is accepted.
    let u = parse_upstream(b"http://user:pw@host.example:8080").unwrap();
    assert_eq!(u.authority().as_slice(), b"user:pw@host.example:8080");
}

#[test]
fn rewrite_preserves_path_and_query() {
    let u = parse_upstream(b"http://up:8080").unwrap();
    let target = rewrite_target(&u, b"/api/v1/items?page=2");
    assert_eq!(target.as_slice(), b"http://up:8080/api/v1/items?page=2");
}

#[test]
fn rewrite_https_scheme() {
    let u = parse_upstream(b"https://up").unwrap();
    let target = rewrite_target(&u, b"/");
    assert_eq!(target.as_slice(), b"https://up/");
}

#[test]
fn local_response_is_byte_identical() {
    let inner: Vec<u8> = b"inner body".to_vec();
    let resp = finish_request(
        RequestPath::Local(inner.clone()),
        |r: Vec<u8>| {
            let mut r = r;
            r.push(b'!');
            r
        },
        |_e: ProxyError| b"error".to_vec(),
    );
    assert_eq!(resp, inner);
}

#[test]
fn upstream_success_flows_through_on_response() {
    let upstream: Vec<u8> = b"status 404 from upstream".to_vec();
    let resp = finish_request(
        RequestPath::Forwarded(Ok(upstream)),
        |r: Vec<u8>| {
            let mut tagged = b"seen:".to_vec();
            tagged.extend(r);
            tagged
        },
        |_e: ProxyError| panic!("on_error must not run when the upstream call succeeds"),
    );
    assert_eq!(resp, b"seen:status 404 from upstream".to_vec());
}

#[test]
fn transport_failure_is_absorbed_by_on_error() {
    let resp = finish_request(
        RequestPath::Forwarded(Err(ProxyError::Connect)),
        |_r: Vec<u8>| panic!("on_response must not run when the upstream call fails"),
        |e: ProxyError| {
            assert_eq!(e, ProxyError::Connect);
            b"HTTP 500".to_vec()
        },
    );
    assert_eq!(resp, b"HTTP 500".to_vec());
}

#[test]
fn each_transport_error_variant_reaches_on_error() {
    for error in [
        ProxyError::Connect,
        ProxyError::Timeout,
        ProxyError::Transport,
    ] {
        let resp = finish_request(
            RequestPath::Forwarded(Err(error)),
            |_r: ProxyError| panic!("on_response must not run"),
            |e: ProxyError| e,
        );
        assert_eq!(resp, error);
    }
}

#[test]
fn events_of_a_local_request() {
    assert_eq!(request_events(false, true), vec![ProxyEvent::InnerCall]);
    assert_eq!(request_events(false, false), vec![ProxyEvent::InnerCall]);
}

#[test]
fn events_of_a_successful_forward() {
    assert_eq!(
        request_events(true, true),
        vec![
            ProxyEvent::OnRequest,
            ProxyEvent::UpstreamCall,
            ProxyEvent::OnResponse
        ]
    );
}

#[test]
fn events_of_a_failed_forward() {
    assert_eq!(
        request_events(true, false),
        vec![
            ProxyEvent::OnRequest,
            ProxyEvent::UpstreamCall,
            ProxyEvent::OnError
        ]
    );
}

#[test]
fn every_second_request_is_proxied() {
    // should_proxy captures a shared counter; it proxies when count % 2 == 0,
    // so of four sequential requests the first and third go upstream and the
    // second and fourth are served locally.
    let mut count: u32 = 0;
    let mut outcomes: Vec<Vec<ProxyEvent>> = Vec::new();
    for _request in 0..4 {
        let should_proxy = count % 2 == 0;
        count += 1;
        outcomes.push(request_events(should_proxy, true));
    }
    assert_eq!(
        outcomes[0],
        vec![
            ProxyEvent::OnRequest,
            ProxyEvent::UpstreamCall,
            ProxyEvent::OnResponse
        ]
    );
    assert_eq!(outcomes[1], vec![ProxyEvent::InnerCall]);
    assert_eq!(
        outcomes[2],
        vec![
            ProxyEvent::OnRequest,
            ProxyEvent::UpstreamCall,
            ProxyEvent::OnResponse
        ]
    );
    assert_eq!(outcomes[3], vec![ProxyEvent::InnerCall]);
}

#[test]
fn unreachable_upstream_yields_the_hook_response() {
    // A forwarded request against an unreachable upstream: the transport
    // failure is classified and absorbed; the caller sees the hook's
    // synthetic response, never the raw failure.
    let u = parse_upstream(b"http://127.0.0.1:1").unwrap();
    let target = rewrite_target(&u, b"/");
    assert_eq!(target.as_slice(), b"http://127.0.0.1:1/");
    let resp = finish_request(
        RequestPath::Forwarded(Err(ProxyError::Connect)),
        |r: Vec<u8>| r,
        |_e: ProxyError| b"HTTP 502".to_vec(),
    );
    assert_eq!(resp, b"HTTP 502".to_vec());
}
