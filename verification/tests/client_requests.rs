use fatcat::client::{
    base_path_from_parts, container_id_get_request, container_lookup_get_request,
    container_post_request, creator_id_get_request, creator_lookup_get_request,
    creator_post_request, editgroup_id_accept_post_request, editgroup_id_get_request,
    editgroup_post_request, editor_username_changelog_get_request, editor_username_get_request,
    file_id_get_request, file_lookup_get_request, file_post_request, into_base_path,
    release_id_get_request, release_lookup_get_request, release_post_request, work_id_get_request,
    work_post_request, ClientInitError, UrlErrorKind, UrlParts, body_preview, response_variant,
    unexpected_response_message,
};
use fatcat::service::{query_parameter_in, ServiceOperation};
use fatcat::server::{path_parameter_integer, path_parameter_text, HttpMethod};

const BASE: &str = "http://localhost:8080";

#[test]
fn base_paths() {
    assert_eq!(into_base_path("http://localhost:8080", Some("http")).unwrap(), "http://localhost:8080");
    assert_eq!(into_base_path("http://localhost:8080/v0/extra?x=1", None).unwrap(), "http://localhost:8080");
    assert_eq!(into_base_path("http://example.org:80", Some("http")).unwrap(), "http://example.org");
    assert_eq!(into_base_path("https://api.fatcat.wiki", Some("https")).unwrap(), "https://api.fatcat.wiki");
    assert_eq!(into_base_path("http://[::1]:9411/", None).unwrap(), "http://[::1]:9411");
    assert_eq!(into_base_path("HTTP://Example.ORG", None).unwrap(), "http://example.org");
    match into_base_path("https://api.fatcat.wiki", Some("http")) {
        Err(ClientInitError::InvalidScheme) => {}
        other => panic!("{:?}", other),
    }
    match into_base_path("localhost:8080", Some("http")) {
        Err(ClientInitError::InvalidScheme) => {}
        other => panic!("{:?}", other),
    }
    match into_base_path("not a url", None) {
        Err(ClientInitError::InvalidUrl(e)) => assert_eq!(e, UrlErrorKind::RelativeUrlWithoutBase),
        other => panic!("{:?}", other),
    }
    match into_base_path("mailto:someone@example.org", None) {
        Err(ClientInitError::MissingHost) => {}
        other => panic!("{:?}", other),
    }
}

#[test]
fn base_path_of_parts() {
    let parts = UrlParts { scheme: "http".to_string(), host: Some("h".to_string()), port: Some(81) };
    assert_eq!(base_path_from_parts(&parts, None).unwrap(), "http://h:81");
    assert_eq!(base_path_from_parts(&parts, Some("http")).unwrap(), "http://h:81");
    assert!(matches!(base_path_from_parts(&parts, Some("https")), Err(ClientInitError::InvalidScheme)));
    let no_port = UrlParts { scheme: "https".to_string(), host: Some("h".to_string()), port: None };
    assert_eq!(base_path_from_parts(&no_port, None).unwrap(), "https://h");
    let no_host = UrlParts { scheme: "file".to_string(), host: None, port: None };
    assert!(matches!(base_path_from_parts(&no_host, None), Err(ClientInitError::MissingHost)));
    // The scheme is checked before the host.
    assert!(matches!(base_path_from_parts(&no_host, Some("http")), Err(ClientInitError::InvalidScheme)));
}

#[test]
fn init_error_conversion_and_description() {
    let e = ClientInitError::from(UrlErrorKind::EmptyHost);
    assert!(matches!(e, ClientInitError::InvalidUrl(UrlErrorKind::EmptyHost)));
    assert_eq!(e.description(), "Failed to produce a hyper client.");
}

#[test]
fn request_lines_without_parameters() {
    let cases = [
        (container_post_request(BASE), "/v0/container"),
        (creator_post_request(BASE), "/v0/creator"),
        (editgroup_post_request(BASE), "/v0/editgroup"),
        (file_post_request(BASE), "/v0/file"),
        (release_post_request(BASE), "/v0/release"),
        (work_post_request(BASE), "/v0/work"),
    ];
    for (line, path) in cases.iter() {
        assert_eq!(line.method, HttpMethod::Post);
        assert_eq!(line.url, format!("{}{}", BASE, path));
    }
}

#[test]
fn request_lines_with_path_segments() {
    let r = container_id_get_request(BASE, "a b/c?d#e%");
    assert_eq!(r.method, HttpMethod::Get);
    assert_eq!(r.url, "http://localhost:8080/v0/container/a%20b%2Fc%3Fd%23e%25");
    assert_eq!(creator_id_get_request(BASE, "café").url, "http://localhost:8080/v0/creator/caf%C3%A9");
    assert_eq!(file_id_get_request(BASE, "x").url, "http://localhost:8080/v0/file/x");
    assert_eq!(release_id_get_request(BASE, "{r}").url, "http://localhost:8080/v0/release/%7Br%7D");
    assert_eq!(work_id_get_request(BASE, "w`").url, "http://localhost:8080/v0/work/w%60");
    assert_eq!(editor_username_get_request(BASE, "bn ew").url, "http://localhost:8080/v0/editor/bn%20ew");
    let r = editor_username_changelog_get_request(BASE, "a/b");
    assert_eq!(r.method, HttpMethod::Get);
    assert_eq!(r.url, "http://localhost:8080/v0/editor/a%2Fb/changelog");
    let r = editgroup_id_accept_post_request(BASE, -42);
    assert_eq!(r.method, HttpMethod::Post);
    assert_eq!(r.url, "http://localhost:8080/v0/editgroup/-42/accept");
    let r = editgroup_id_get_request(BASE, i32::MAX);
    assert_eq!(r.method, HttpMethod::Get);
    assert_eq!(r.url, "http://localhost:8080/v0/editgroup/2147483647");
}

#[test]
fn request_lines_with_queries() {
    let r = container_lookup_get_request(BASE, "1234-5678");
    assert_eq!(r.method, HttpMethod::Get);
    assert_eq!(r.url, "http://localhost:8080/v0/container/lookup?issn=1234-5678&");
    assert_eq!(creator_lookup_get_request(BASE, "0000-0002 \"x\"").url,
        "http://localhost:8080/v0/creator/lookup?orcid=0000-0002%20%22x%22&");
    assert_eq!(container_lookup_get_request(BASE, "a b").url,
        "http://localhost:8080/v0/container/lookup?issn=a%20b&");
    // `?` and `/` stay as they are in a query string; the value escapes its
    // own `&`, `=`, `+` and `%`.
    assert_eq!(file_lookup_get_request(BASE, "a?b/c&d=e+f").url,
        "http://localhost:8080/v0/file/lookup?sha1=a?b/c%26d%3De%2Bf&");
    assert_eq!(file_lookup_get_request(BASE, "100%").url,
        "http://localhost:8080/v0/file/lookup?sha1=100%25&");
    assert_eq!(release_lookup_get_request(BASE, "10.123/abc<1>#é").url,
        "http://localhost:8080/v0/release/lookup?doi=10.123/abc%3C1%3E%23%C3%A9&");
    assert_eq!(release_lookup_get_request(BASE, "").url,
        "http://localhost:8080/v0/release/lookup?doi=&");
}

fn last_segment(url: &str, prefix: &str) -> String {
    url.strip_prefix(prefix).unwrap().to_string()
}

#[test]
fn server_reads_back_what_the_client_sends() {
    let ids = ["plain", "with space", "slash/and?query#frag", "100%", "%41", "ünïcødé ☃", "", "`{}`<>\""];
    for id in ids.iter() {
        let url = container_id_get_request(BASE, id).url;
        let segment = last_segment(&url, "http://localhost:8080/v0/container/");
        assert!(!segment.contains('/') && !segment.contains('?') && !segment.contains('#'));
        assert!(segment.is_ascii());
        assert_eq!(path_parameter_text("id", Some(&segment)).unwrap(), *id);
    }
    for n in [0i32, 1, -1, 789, i32::MAX, i32::MIN].iter() {
        let url = editgroup_id_get_request(BASE, *n).url;
        let segment = last_segment(&url, "http://localhost:8080/v0/editgroup/");
        assert_eq!(path_parameter_integer("id", Some(&segment)).unwrap(), *n as i64);
    }
}

#[test]
fn response_variants_by_status() {
    assert_eq!(response_variant(ServiceOperation::ContainerIdGet, 200), Some(0));
    assert_eq!(response_variant(ServiceOperation::ContainerIdGet, 400), Some(1));
    assert_eq!(response_variant(ServiceOperation::ContainerIdGet, 0), Some(2));
    assert_eq!(response_variant(ServiceOperation::ContainerIdGet, 404), None);
    assert_eq!(response_variant(ServiceOperation::ContainerLookupGet, 404), Some(2));
    assert_eq!(response_variant(ServiceOperation::ContainerPost, 201), Some(0));
    assert_eq!(response_variant(ServiceOperation::ContainerPost, 200), None);
    assert_eq!(response_variant(ServiceOperation::EditgroupIdAcceptPost, 404), Some(2));
    assert_eq!(response_variant(ServiceOperation::EditorUsernameGet, 400), None);
    assert_eq!(response_variant(ServiceOperation::WorkPost, 500), None);
}

#[test]
fn unexpected_response_report() {
    assert_eq!(
        unexpected_response_message(503, "Headers { }", "busy"),
        "Unexpected response code 503:\nHeaders { }\n\nbusy"
    );
    assert_eq!(unexpected_response_message(0, "", ""), "Unexpected response code 0:\n\n\n");
    assert_eq!(body_preview(b"hello"), "hello");
    assert_eq!(body_preview("é!".as_bytes()), "é!");
    assert_eq!(body_preview(b""), "");
    assert_eq!(body_preview(&[0xff]), "<Body was not UTF8: [255]>");
    assert_eq!(body_preview(&[104, 0xc3]), "<Body was not UTF8: [104, 195]>");
    let bytes = vec![0u8, 10, 0xed, 0xa0, 0x80];
    assert_eq!(body_preview(&bytes), format!("<Body was not UTF8: {:?}>", bytes));
}

#[test]
fn every_status_reads_back_as_its_variant() {
    for op in ServiceOperation::all().iter() {
        let statuses = op.response_statuses();
        for (i, code) in statuses.iter().enumerate() {
            assert_eq!(response_variant(*op, *code), Some(i));
        }
    }
}

#[test]
fn lookup_values_reach_the_server_unchanged() {
    let values = ["10.1000/x+y", "a&b=c", "ünïcødé ☃", " ", "%41", "%", "", "0000-0001", "*-._~!", "a?b#c\"<>`{}"];
    for v in values.iter() {
        let url = release_lookup_get_request(BASE, v).url;
        let query = url.strip_prefix("http://localhost:8080/v0/release/lookup?").unwrap();
        assert_eq!(query_parameter_in("doi", Some(query)), Ok(v.to_string()));
        let url = container_lookup_get_request(BASE, v).url;
        let query = url.splitn(2, '?').nth(1).unwrap();
        assert_eq!(query_parameter_in("issn", Some(query)), Ok(v.to_string()));
    }
}

#[test]
fn client_init_error_text() {
    assert_eq!(ClientInitError::InvalidScheme.text(), "InvalidScheme");
    assert_eq!(ClientInitError::MissingHost.text(), "MissingHost");
    assert_eq!(
        ClientInitError::InvalidUrl(UrlErrorKind::RelativeUrlWithoutBase).text(),
        "InvalidUrl(RelativeUrlWithoutBase)"
    );
    // Each kind is named as url's own error prints it.
    let pairs = [
        (UrlErrorKind::EmptyHost, url::ParseError::EmptyHost),
        (UrlErrorKind::IdnaError, url::ParseError::IdnaError),
        (UrlErrorKind::InvalidPort, url::ParseError::InvalidPort),
        (UrlErrorKind::InvalidIpv4Address, url::ParseError::InvalidIpv4Address),
        (UrlErrorKind::InvalidIpv6Address, url::ParseError::InvalidIpv6Address),
        (UrlErrorKind::InvalidDomainCharacter, url::ParseError::InvalidDomainCharacter),
        (UrlErrorKind::RelativeUrlWithoutBase, url::ParseError::RelativeUrlWithoutBase),
        (UrlErrorKind::RelativeUrlWithCannotBeABaseBase, url::ParseError::RelativeUrlWithCannotBeABaseBase),
        (UrlErrorKind::SetHostOnCannotBeABaseUrl, url::ParseError::SetHostOnCannotBeABaseUrl),
        (UrlErrorKind::Overflow, url::ParseError::Overflow),
    ];
    for (k, e) in pairs.iter() {
        assert_eq!(ClientInitError::InvalidUrl(*k).text(), format!("InvalidUrl({:?})", e));
    }
    // The kind a parse failure is reported with is url's own.
    match into_base_path("http://[::1", None) {
        Err(e) => assert_eq!(e.text(), format!("InvalidUrl({:?})", url::Url::parse("http://[::1").unwrap_err())),
        Ok(b) => panic!("{}", b),
    }
    match into_base_path("http://h:99999", None) {
        Err(ClientInitError::InvalidUrl(k)) => assert_eq!(k, UrlErrorKind::InvalidPort),
        other => panic!("{:?}", other),
    }
}

#[test]
fn lookup_query_as_the_query_set_writes_it() {
    // Without `+`, `&`, `=` or `%` in the value, the query is the query-set
    // percent-encoding of `name=value&`.
    let values = ["a b", "10.123/abc<1>#é", "x?y/z", "plain", "", "\"q\"`{}"];
    for v in values.iter() {
        let expected = format!(
            "http://localhost:8080/v0/release/lookup?{}",
            url::percent_encoding::utf8_percent_encode(
                &format!("doi={}&", v),
                url::percent_encoding::QUERY_ENCODE_SET
            )
        );
        assert_eq!(release_lookup_get_request(BASE, v).url, expected);
    }
}
