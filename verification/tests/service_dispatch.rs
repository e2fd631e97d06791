use fatcat::decimal::{parse_i32, IntErrorKind};
use fatcat::server::{HttpMethod, Parameter, ParameterKind};
use fatcat::service::{
    body_unread, context_span_id, dispatch, not_found, optional_body, path_parameter_i32_at,
    path_parameter_text_at, query_parameter_in, route, route_patterns, ServiceOperation,
    NOT_FOUND,
};

#[test]
fn service_table() {
    let all = ServiceOperation::all();
    assert_eq!(all.len(), 19);
    assert_eq!(route_patterns().len(), 19);
    assert_eq!(all[0], ServiceOperation::ContainerLookupGet);
    assert_eq!(all[18], ServiceOperation::WorkPost);
    assert_eq!(ServiceOperation::ContainerIdGet.pattern_index(), 2);
    assert_eq!(route_patterns()[2], r"^/v0/container/(?P<id>[^/?#]*)$");
    assert_eq!(ServiceOperation::EditgroupIdAcceptPost.method(), HttpMethod::Post);
    assert_eq!(ServiceOperation::EditgroupIdAcceptPost.pattern_index(), 8);
    assert_eq!(
        ServiceOperation::EditgroupIdGet.parameter(),
        Some(Parameter::Path { name: "id", kind: ParameterKind::Integer })
    );
    assert_eq!(ServiceOperation::ContainerLookupGet.parameter(), Some(Parameter::Query { name: "issn" }));
    assert_eq!(ServiceOperation::WorkPost.parameter(), Some(Parameter::Body { name: "body" }));
    assert_eq!(ServiceOperation::EditgroupPost.parameter(), None);
    assert_eq!(ServiceOperation::ContainerIdGet.response_statuses(), vec![200, 400, 0]);
    assert_eq!(ServiceOperation::ReleaseLookupGet.response_statuses(), vec![200, 400, 404, 0]);
    assert_eq!(ServiceOperation::EditgroupIdGet.response_statuses(), vec![200, 404, 0]);
    assert_eq!(ServiceOperation::WorkPost.response_statuses(), vec![201, 400, 0]);
    for op in all.iter() {
        assert!(op.pattern_index() < route_patterns().len());
    }
}

#[test]
fn routing_by_method_and_path() {
    assert_eq!(route(HttpMethod::Post, "/v0/container"), Some(ServiceOperation::ContainerPost));
    assert_eq!(route(HttpMethod::Get, "/v0/container"), None);
    assert_eq!(route(HttpMethod::Get, "/v0/container/abc"), Some(ServiceOperation::ContainerIdGet));
    assert_eq!(
        route(HttpMethod::Post, "/v0/editgroup/5/accept"),
        Some(ServiceOperation::EditgroupIdAcceptPost)
    );
    assert_eq!(route(HttpMethod::Get, "/v0/editgroup/5/accept"), None);
    assert_eq!(route(HttpMethod::Get, "/v0/editgroup/5"), Some(ServiceOperation::EditgroupIdGet));
    assert_eq!(
        route(HttpMethod::Get, "/v0/editor/bob/changelog"),
        Some(ServiceOperation::EditorUsernameChangelogGet)
    );
    assert_eq!(route(HttpMethod::Get, "/v0/editor/bob"), Some(ServiceOperation::EditorUsernameGet));
    assert_eq!(route(HttpMethod::Get, "/v1/container/abc"), None);
    assert_eq!(route(HttpMethod::Get, "/v0/container/a/b"), None);
    assert_eq!(route(HttpMethod::Post, "/v0/work"), Some(ServiceOperation::WorkPost));
}

#[test]
fn lookup_routes_are_reached() {
    // The identifier pattern also takes `lookup`; the lookup operation is tried first.
    assert_eq!(route(HttpMethod::Get, "/v0/container/lookup"), Some(ServiceOperation::ContainerLookupGet));
    assert_eq!(route(HttpMethod::Get, "/v0/creator/lookup"), Some(ServiceOperation::CreatorLookupGet));
    assert_eq!(route(HttpMethod::Get, "/v0/file/lookup"), Some(ServiceOperation::FileLookupGet));
    assert_eq!(route(HttpMethod::Get, "/v0/release/lookup"), Some(ServiceOperation::ReleaseLookupGet));
    assert_eq!(route(HttpMethod::Get, "/v0/release/lookupx"), Some(ServiceOperation::ReleaseIdGet));
}

#[test]
fn dispatch_takes_first_fitting_operation() {
    let mut matched = vec![false; 19];
    assert_eq!(dispatch(HttpMethod::Get, &matched), None);
    matched[1] = true;
    assert_eq!(dispatch(HttpMethod::Get, &matched), Some(ServiceOperation::ContainerLookupGet));
    assert_eq!(dispatch(HttpMethod::Post, &matched), None);
    matched[2] = true;
    assert_eq!(dispatch(HttpMethod::Get, &matched), Some(ServiceOperation::ContainerLookupGet));
    matched[1] = false;
    assert_eq!(dispatch(HttpMethod::Get, &matched), Some(ServiceOperation::ContainerIdGet));
    let mut post = vec![false; 19];
    post[17] = true;
    post[18] = true;
    assert_eq!(dispatch(HttpMethod::Post, &post), Some(ServiceOperation::WorkPost));
    assert_eq!(dispatch(HttpMethod::Get, &post), Some(ServiceOperation::WorkIdGet));
}

#[test]
fn service_integer_path_parameter() {
    assert_eq!(path_parameter_i32_at(7, "id", "/v0/editgroup/42"), Ok(42));
    assert_eq!(path_parameter_i32_at(8, "id", "/v0/editgroup/-7/accept"), Ok(-7));
    assert_eq!(path_parameter_i32_at(7, "id", "/v0/editgroup/%34%32"), Ok(42));
    let e = path_parameter_i32_at(7, "id", "/v0/editgroup/abc").unwrap_err();
    assert_eq!(e.status, 400);
    assert_eq!(e.message, "Couldn't parse path parameter id: invalid digit found in string");
    let e = path_parameter_i32_at(7, "id", "/v0/editgroup/2147483648").unwrap_err();
    assert_eq!(e.status, 400);
    assert_eq!(e.message, "Couldn't parse path parameter id: number too large to fit in target type");
    let e = path_parameter_i32_at(7, "id", "/v0/editgroup/").unwrap_err();
    assert_eq!(e.message, "Couldn't parse path parameter id: cannot parse integer from empty string");
    let e = path_parameter_i32_at(7, "id", "/v0/editgroup/%FF").unwrap_err();
    assert_eq!(e.status, 400);
    assert_eq!(e.message, "Couldn't percent-decode path parameter as UTF-8: %FF");
    let e = path_parameter_i32_at(7, "id", "/v0/file").unwrap_err();
    assert_eq!(e.status, 500);
    assert_eq!(e.message, "An internal error occurred");
}

#[test]
fn service_text_path_parameter() {
    assert_eq!(path_parameter_text_at(9, "username", "/v0/editor/a%20b"), Ok("a b".to_string()));
    assert_eq!(path_parameter_text_at(10, "username", "/v0/editor/x/changelog"), Ok("x".to_string()));
    assert_eq!(path_parameter_text_at(2, "id", "/v0/container/q1"), Ok("q1".to_string()));
    let e = path_parameter_text_at(2, "id", "/v0/container/%C3%28").unwrap_err();
    assert_eq!(e.status, 400);
    assert_eq!(e.message, "Couldn't percent-decode path parameter as UTF-8: %C3%28");
    let e = path_parameter_text_at(2, "missing", "/v0/container/q1").unwrap_err();
    assert_eq!(e.status, 500);
}

#[test]
fn query_parameters() {
    assert_eq!(query_parameter_in("issn", Some("issn=1234-5678&x=1")), Ok("1234-5678".to_string()));
    assert_eq!(query_parameter_in("issn", Some("x=1&issn=a+b%21")), Ok("a b!".to_string()));
    assert_eq!(query_parameter_in("issn", Some("issn=1&issn=2")), Ok("1".to_string()));
    assert_eq!(query_parameter_in("issn", Some("issn")), Ok("".to_string()));
    let e = query_parameter_in("issn", Some("doi=1")).unwrap_err();
    assert_eq!(e.status, 400);
    assert_eq!(e.message, "Missing required query parameter issn");
    let e = query_parameter_in("doi", None).unwrap_err();
    assert_eq!(e.message, "Missing required query parameter doi");
}

#[test]
fn optional_body_parameter() {
    let ok: Option<Result<Option<u32>, ()>> = Some(Ok(Some(5)));
    assert_eq!(optional_body(ok), Some(5));
    let empty_json: Option<Result<Option<u32>, ()>> = Some(Ok(None));
    assert_eq!(optional_body(empty_json), None);
    let garbage: Option<Result<Option<u32>, ()>> = Some(Err(()));
    assert_eq!(optional_body(garbage), None);
    let no_body: Option<Result<Option<u32>, ()>> = None;
    assert_eq!(optional_body(no_body), None);
}

#[test]
fn service_answers() {
    let r = not_found();
    assert_eq!(r.status, NOT_FOUND);
    assert_eq!(r.status, 404);
    assert_eq!(r.message, "");
    let r = body_unread("connection reset");
    assert_eq!(r.status, 400);
    assert_eq!(r.message, "Couldn't read body parameter body: connection reset");
}

#[test]
fn parse_i32_limits() {
    assert_eq!(parse_i32("2147483647"), Ok(i32::MAX));
    assert_eq!(parse_i32("-2147483648"), Ok(i32::MIN));
    assert_eq!(parse_i32("2147483648"), Err(IntErrorKind::PosOverflow));
    assert_eq!(parse_i32("-2147483649"), Err(IntErrorKind::NegOverflow));
    assert_eq!(parse_i32("+12"), Ok(12));
    assert_eq!(parse_i32(""), Err(IntErrorKind::Empty));
    assert_eq!(parse_i32("-"), Err(IntErrorKind::InvalidDigit));
    assert_eq!(parse_i32("1_000"), Err(IntErrorKind::InvalidDigit));
    for c in ["0", "-0", "99", "-99", "2147483647", "2147483648", "-2147483648", "-2147483649", "x", ""].iter() {
        assert_eq!(parse_i32(c).ok(), c.parse::<i32>().ok(), "{}", c);
    }
}

#[test]
fn service_span_identifiers() {
    assert_eq!(context_span_id(Some("ctx".to_string()), Some("hdr".to_string())), "ctx");
    assert_eq!(context_span_id(None, Some("hdr".to_string())), "hdr");
    let fresh = context_span_id(None, None);
    assert_eq!(fresh.len(), 36);
    assert_eq!(fresh.chars().nth(14), Some('4'));
}
