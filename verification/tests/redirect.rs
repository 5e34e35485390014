use http::header::{HeaderValue, ACCEPT, AUTHORIZATION, COOKIE, PROXY_AUTHORIZATION, WWW_AUTHENTICATE};
use http::{HeaderMap, Method, StatusCode};
use rquest::redirect::{ActionKind, Policy, RedirectError};
use rquest::url::{Scheme, Url};

fn u(s: &str) -> Url {
    let parsed = url::Url::parse(s).unwrap();
    let scheme = match parsed.scheme() {
        "http" => Scheme::Http,
        "https" => Scheme::Https,
        "ws" => Scheme::Ws,
        "wss" => Scheme::Wss,
        "ftp" => Scheme::Ftp,
        _ => Scheme::Other,
    };
    Url::new(
        scheme,
        parsed.host_str().map(|h| h.to_string()),
        parsed.port(),
        parsed.path().to_string(),
    )
}

#[test]
fn test_redirect_policy_limit() {
    let policy = Policy::default();
    let next = u("http://x.y/z");
    let mut previous = (0..=9)
        .map(|i| u(&format!("http://a.b/c/{}", i)))
        .collect::<Vec<_>>();

    match policy.check(
        StatusCode::FOUND,
        &Method::GET,
        &next,
        &Method::GET,
        &previous,
    ) {
        ActionKind::Follow => (),
        other => panic!("unexpected {:?}", other),
    }

    previous.push(u("http://a.b.d/e/33"));

    match policy.check(
        StatusCode::FOUND,
        &Method::GET,
        &next,
        &Method::GET,
        &previous,
    ) {
        ActionKind::Error(err) if err == RedirectError::TooManyRedirects => (),
        other => panic!("unexpected {:?}", other),
    }
}

#[test]
fn test_redirect_policy_limit_to_0() {
    let policy = Policy::limited(0);
    let next = u("http://x.y/z");
    let previous = vec![u("http://a.b/c")];

    match policy.check(
        StatusCode::FOUND,
        &Method::GET,
        &next,
        &Method::GET,
        &previous,
    ) {
        ActionKind::Error(err) if err == RedirectError::TooManyRedirects => (),
        other => panic!("unexpected {:?}", other),
    }
}

#[test]
fn test_redirect_policy_custom() {
    let policy = Policy::custom(|attempt| {
        if attempt.url().host_str().map(|h| h.as_str()) == Some("foo") {
            attempt.stop()
        } else {
            attempt.follow()
        }
    });

    let next = u("http://bar/baz");
    match policy.check(StatusCode::FOUND, &Method::GET, &next, &Method::GET, &[]) {
        ActionKind::Follow => (),
        other => panic!("unexpected {:?}", other),
    }

    let next = u("http://foo/baz");
    match policy.check(StatusCode::FOUND, &Method::GET, &next, &Method::GET, &[]) {
        ActionKind::Stop => (),
        other => panic!("unexpected {:?}", other),
    }
}

#[test]
fn test_redirect_custom_policy_methods() {
    let policy = Policy::custom(|attempt| {
        let next = attempt.next_method();
        if next != Method::HEAD {
            panic!("unexpected next method {:?}", next);
        }
        let prev = attempt.previous_method();
        if prev != Method::PUT {
            panic!("unexpected previous method {:?}", prev);
        }
        attempt.stop()
    });

    let next = u("http://bar/baz");
    let res = policy.check(StatusCode::FOUND, &Method::HEAD, &next, &Method::PUT, &[]);
    assert!(matches!(res, ActionKind::Stop));
}

#[test]
fn test_remove_sensitive_headers() {
    let mut headers = HeaderMap::new();
    headers.insert(ACCEPT, HeaderValue::from_static("*/*"));
    headers.insert(AUTHORIZATION, HeaderValue::from_static("let me in"));
    headers.insert(COOKIE, HeaderValue::from_static("foo=bar"));

    let next = u("http://initial-domain.com/path");
    let mut prev = vec![u("http://initial-domain.com/new_path")];
    let mut filtered_headers = headers.clone();

    Policy::remove_sensitive_headers(&mut headers, &next, &prev);
    assert_eq!(headers, filtered_headers);

    prev.push(u("http://new-domain.com/path"));
    filtered_headers.remove(AUTHORIZATION);
    filtered_headers.remove(COOKIE);

    Policy::remove_sensitive_headers(&mut headers, &next, &prev);
    assert_eq!(headers, filtered_headers);
}

#[test]
fn limit_boundary_follows_at_max_and_errors_one_past() {
    let policy = Policy::limited(5);
    let next = u("http://x.y/z");
    let mut previous = (0..5)
        .map(|i| u(&format!("http://a.b/c/{}", i)))
        .collect::<Vec<_>>();

    let res = policy.check(
        StatusCode::FOUND,
        &Method::GET,
        &next,
        &Method::GET,
        &previous,
    );
    assert!(matches!(res, ActionKind::Follow));

    previous.push(u("http://a.b/c/5"));
    let res = policy.check(
        StatusCode::FOUND,
        &Method::GET,
        &next,
        &Method::GET,
        &previous,
    );
    assert!(matches!(res, ActionKind::Error(RedirectError::TooManyRedirects)));
}

#[test]
fn limit_zero_follows_on_empty_history() {
    let policy = Policy::limited(0);
    let next = u("http://x.y/z");
    let res = policy.check(StatusCode::FOUND, &Method::GET, &next, &Method::GET, &[]);
    assert!(matches!(res, ActionKind::Follow));
}

#[test]
fn none_policy_always_stops() {
    let policy = Policy::none();
    let next = u("http://x.y/z");
    let res = policy.check(StatusCode::FOUND, &Method::GET, &next, &Method::GET, &[]);
    assert!(matches!(res, ActionKind::Stop));

    let previous = (0..20)
        .map(|i| u(&format!("http://a.b/c/{}", i)))
        .collect::<Vec<_>>();
    let res = policy.check(
        StatusCode::MOVED_PERMANENTLY,
        &Method::POST,
        &next,
        &Method::GET,
        &previous,
    );
    assert!(matches!(res, ActionKind::Stop));
}

#[test]
fn custom_policy_sees_status_and_history() {
    let policy = Policy::custom(|attempt| {
        assert_eq!(attempt.status(), StatusCode::SEE_OTHER);
        assert_eq!(attempt.previous().len(), 2);
        assert_eq!(
            attempt.previous()[0].host_str().map(|h| h.as_str()),
            Some("a.b")
        );
        let cause = RedirectError::Other("chain rejected".to_string());
        attempt.error(cause)
    });

    let next = u("http://x.y/z");
    let previous = vec![u("http://a.b/one"), u("http://c.d/two")];
    let res = policy.check(
        StatusCode::SEE_OTHER,
        &Method::GET,
        &next,
        &Method::GET,
        &previous,
    );
    match res {
        ActionKind::Error(RedirectError::Other(msg)) => assert_eq!(msg, "chain rejected"),
        other => panic!("unexpected {:?}", other),
    }
}

#[test]
fn too_many_redirects_message() {
    assert_eq!(RedirectError::TooManyRedirects.message(), "too many redirects");
    let custom = RedirectError::Other("loop detected".to_string());
    assert_eq!(custom.message(), "loop detected");
}

#[test]
fn redaction_no_op_without_previous_hop() {
    let mut headers = HeaderMap::new();
    headers.insert(AUTHORIZATION, HeaderValue::from_static("let me in"));
    let expected = headers.clone();

    let next = u("http://x.y/z");
    Policy::remove_sensitive_headers(&mut headers, &next, &[]);
    assert_eq!(headers, expected);
}

#[test]
fn redaction_removes_all_sensitive_headers_cross_origin() {
    let mut headers = HeaderMap::new();
    headers.insert(ACCEPT, HeaderValue::from_static("*/*"));
    headers.insert(AUTHORIZATION, HeaderValue::from_static("let me in"));
    headers.insert(COOKIE, HeaderValue::from_static("foo=bar"));
    headers.insert("cookie2", HeaderValue::from_static("v=1"));
    headers.insert(PROXY_AUTHORIZATION, HeaderValue::from_static("proxy"));
    headers.insert(WWW_AUTHENTICATE, HeaderValue::from_static("Basic"));

    let next = u("http://x.y/z");
    let prev = vec![u("http://a.b.d/e/33")];
    Policy::remove_sensitive_headers(&mut headers, &next, &prev);

    assert_eq!(headers.len(), 1);
    assert_eq!(headers.get(ACCEPT).unwrap(), "*/*");
    assert!(headers.get(AUTHORIZATION).is_none());
    assert!(headers.get(COOKIE).is_none());
    assert!(headers.get("cookie2").is_none());
    assert!(headers.get(PROXY_AUTHORIZATION).is_none());
    assert!(headers.get(WWW_AUTHENTICATE).is_none());
}

#[test]
fn redaction_triggered_by_port_change_alone() {
    let mut headers = HeaderMap::new();
    headers.insert(AUTHORIZATION, HeaderValue::from_static("let me in"));

    let next = u("http://a.b:8080/z");
    let prev = vec![u("http://a.b/c")];
    Policy::remove_sensitive_headers(&mut headers, &next, &prev);
    assert!(headers.get(AUTHORIZATION).is_none());
}

#[test]
fn redaction_no_op_when_explicit_port_equals_default() {
    let mut headers = HeaderMap::new();
    headers.insert(AUTHORIZATION, HeaderValue::from_static("let me in"));
    let expected = headers.clone();

    let next = u("http://a.b:80/z");
    let prev = vec![u("http://a.b/c/0")];
    Policy::remove_sensitive_headers(&mut headers, &next, &prev);
    assert_eq!(headers, expected);
}

#[test]
fn redaction_compares_against_most_recent_hop_only() {
    // A chain that left its first origin and later returns to it: the hop
    // back is still cross-origin relative to the most recent URL, so the
    // headers are stripped. Deliberate behaviour, not a defect.
    let mut headers = HeaderMap::new();
    headers.insert(AUTHORIZATION, HeaderValue::from_static("let me in"));

    let next = u("http://first.origin/back");
    let prev = vec![u("http://first.origin/start"), u("http://elsewhere.example/hop")];
    Policy::remove_sensitive_headers(&mut headers, &next, &prev);
    assert!(headers.get(AUTHORIZATION).is_none());
}
