use fatcat::server::{
    body_mismatch, body_parameter, body_unreadable, internal_error, path_parameter_integer,
    path_parameter_text, query_parameter_text, span_id, unknown_fields_warning, AuthCredentials, ExtractAuthData,
    HttpMethod, Operation, Parameter, ParameterKind,
};

#[test]
fn route_table() {
    let all = Operation::all();
    assert_eq!(all.len(), 27);
    assert_eq!(all[0], Operation::AcceptEditgroup);
    assert_eq!(Operation::AcceptEditgroup.name(), "AcceptEditgroup");
    assert_eq!(Operation::AcceptEditgroup.method(), HttpMethod::Post);
    assert_eq!(Operation::AcceptEditgroup.path(), "/v0/editgroup/:id/accept");
    assert_eq!(
        Operation::AcceptEditgroup.parameter(),
        Parameter::Path { name: "id", kind: ParameterKind::Integer }
    );
    assert_eq!(Operation::GetEditgroup.parameter(), Parameter::Path { name: "id", kind: ParameterKind::Integer });
    assert_eq!(Operation::GetEditor.parameter(), Parameter::Path { name: "username", kind: ParameterKind::Text });
    assert_eq!(Operation::CreateWorkBatch.path(), "/v0/work/batch");
    assert_eq!(Operation::CreateWorkBatch.parameter(), Parameter::Body { name: "entity_list" });
    assert_eq!(Operation::CreateEditgroup.parameter(), Parameter::Body { name: "entity" });
    assert_eq!(Operation::LookupContainer.method(), HttpMethod::Get);
    assert_eq!(Operation::LookupContainer.path(), "/v0/container/lookup");
    assert_eq!(Operation::LookupContainer.parameter(), Parameter::Query { name: "issnl" });
    assert_eq!(Operation::LookupFile.parameter(), Parameter::Query { name: "sha1" });
}

#[test]
fn route_ids_and_routes_are_distinct() {
    let all = Operation::all();
    for (i, a) in all.iter().enumerate() {
        for (j, b) in all.iter().enumerate() {
            if i != j {
                assert_ne!(a, b);
                assert_ne!(a.name(), b.name());
                assert!(a.method() != b.method() || a.path() != b.path());
            }
        }
    }
}

#[test]
fn text_path_parameter() {
    assert_eq!(path_parameter_text("id", Some("aaaaaaaaaaaaarceaaaaaaaaai")).unwrap(), "aaaaaaaaaaaaarceaaaaaaaaai");
    assert_eq!(path_parameter_text("id", Some("a%20b")).unwrap(), "a b");
    assert_eq!(path_parameter_text("id", Some("caf%C3%A9")).unwrap(), "café");
    assert_eq!(path_parameter_text("id", Some("caf%c3%a9")).unwrap(), "café");
    assert_eq!(path_parameter_text("id", Some("100%")).unwrap(), "100%");
    assert_eq!(path_parameter_text("id", Some("%ZZ%4")).unwrap(), "%ZZ%4");
    assert_eq!(path_parameter_text("id", Some("%%41")).unwrap(), "%A");
    let e = path_parameter_text("id", Some("%FF")).unwrap_err();
    assert_eq!(e.status, 400);
    assert_eq!(e.message, "Couldn't percent-decode path parameter as UTF-8: %FF");
    let e = path_parameter_text("username", None).unwrap_err();
    assert_eq!(e.status, 400);
    assert_eq!(e.message, "Missing path parameter username");
}

#[test]
fn integer_path_parameter() {
    assert_eq!(path_parameter_integer("id", Some("789")).unwrap(), 789);
    assert_eq!(path_parameter_integer("id", Some("-3")).unwrap(), -3);
    assert_eq!(path_parameter_integer("id", Some("%31%32")).unwrap(), 12);
    let e = path_parameter_integer("id", Some("abc")).unwrap_err();
    assert_eq!(e.status, 400);
    assert_eq!(e.message, "Couldn't parse path parameter id: invalid digit found in string");
    let e = path_parameter_integer("id", Some("")).unwrap_err();
    assert_eq!(e.message, "Couldn't parse path parameter id: cannot parse integer from empty string");
    let e = path_parameter_integer("id", Some("99999999999999999999")).unwrap_err();
    assert_eq!(e.message, "Couldn't parse path parameter id: number too large to fit in target type");
    let e = path_parameter_integer("id", Some("%C3")).unwrap_err();
    assert_eq!(e.message, "Couldn't percent-decode path parameter as UTF-8: %C3");
    let e = path_parameter_integer("id", None).unwrap_err();
    assert_eq!(e.message, "Missing path parameter id");
}

#[test]
fn query_parameter() {
    let values = vec!["1234-5678".to_string(), "other".to_string()];
    assert_eq!(query_parameter_text("issnl", Some(&values)).unwrap(), "1234-5678");
    let e = query_parameter_text("issnl", None).unwrap_err();
    assert_eq!(e.status, 400);
    assert_eq!(e.message, "Missing required query parameter issnl");
    let empty: Vec<String> = vec![];
    let e = query_parameter_text("doi", Some(&empty)).unwrap_err();
    assert_eq!(e.status, 400);
    assert_eq!(e.message, "Required query parameter doi was empty");
}

#[test]
fn body_parameter_rules() {
    assert_eq!(body_parameter("entity", Some(5u8)).unwrap(), 5);
    let e = body_parameter::<u8>("entity_list", None).unwrap_err();
    assert_eq!(e.status, 400);
    assert_eq!(e.message, "Missing required body parameter entity_list");
    let e = body_unreadable("entity", "stream did not contain valid UTF-8");
    assert_eq!(e.status, 400);
    assert_eq!(e.message, "Couldn't parse body parameter entity - not valid UTF-8: stream did not contain valid UTF-8");
    let e = body_mismatch("entity", "missing field `name`");
    assert_eq!(e.status, 400);
    assert_eq!(e.message, "Couldn't parse body parameter entity - doesn't match schema: missing field `name`");
}

#[test]
fn internal_errors() {
    let e = internal_error();
    assert_eq!(e.status, 500);
    assert_eq!(e.message, "An internal error occurred");
}

#[test]
fn unknown_fields_warning_header() {
    assert_eq!(unknown_fields_warning(&vec![]), None);
    let unused = vec!["foo".to_string(), "bar.\"baz\"".to_string()];
    assert_eq!(
        unknown_fields_warning(&unused).unwrap(),
        "Ignoring unknown fields in body: [\"foo\", \"bar.\\\"baz\\\"\"]"
    );
}

#[test]
fn span_identifiers() {
    assert_eq!(span_id(Some("abc-123".to_string())), "abc-123");
    let fresh = span_id(None);
    assert_eq!(fresh.len(), 36);
    for (i, c) in fresh.chars().enumerate() {
        if i == 8 || i == 13 || i == 18 || i == 23 {
            assert_eq!(c, '-');
        } else {
            assert!(c.is_ascii_digit() || ('a'..='f').contains(&c), "{}", fresh);
        }
    }
    let chars: Vec<char> = fresh.chars().collect();
    assert_eq!(chars[14], '4');
    assert!(['8', '9', 'a', 'b'].contains(&chars[19]), "{}", fresh);
    assert_ne!(span_id(None), fresh);
}

fn basic(user: &str, password: Option<&str>) -> Option<AuthCredentials> {
    Some(AuthCredentials::Basic { username: user.to_string(), password: password.map(|p| p.to_string()) })
}

fn bearer(token: &str) -> Option<AuthCredentials> {
    Some(AuthCredentials::Bearer { token: token.to_string() })
}

#[test]
fn authorization_credentials() {
    let m = ExtractAuthData;
    assert_eq!(m.before(None), None);
    assert_eq!(m.before(Some("Basic dXNlcjpwYXNz")), basic("user", Some("pass")));
    assert_eq!(m.before(Some("Basic dXNlcg==")), basic("user", None));
    assert_eq!(m.before(Some("Basic OnNlY3JldA==")), basic("", Some("secret")));
    assert_eq!(m.before(Some("Basic !!!")), None);
    assert_eq!(m.before(Some("Bearer abc.def")), bearer("abc.def"));
    assert_eq!(m.before(Some("Bearer é")), bearer("é"));
    assert_eq!(m.before(Some("Bearerxtok")), bearer("tok"));
    assert_eq!(m.before(Some("Bearer")), None);
    assert_eq!(m.before(Some("Bearer ")), None);
    assert_eq!(m.before(Some("Token abc")), None);
    assert_eq!(m.before(Some("")), None);
    // A value that would cut a character after its scheme is not read.
    assert_eq!(m.before(Some("Bearerétoken")), None);
    assert_eq!(m.before(Some("Basicé")), None);
}

#[test]
fn authorization_credentials_as_hyper_reads_them() {
    let values = ["Basic dXNlcjpwYXNz", "Basic YTpiOmM=", "Bearer t0k", "Bearer", "Basic", "Basic ??", "x"];
    for v in values.iter() {
        let raw = [v.as_bytes().to_vec()];
        let b = <hyper::header::Authorization<hyper::header::Basic> as hyper::header::Header>::parse_header(&raw);
        let t = <hyper::header::Authorization<hyper::header::Bearer> as hyper::header::Header>::parse_header(&raw);
        let expected = match (b, t) {
            (Ok(a), _) => Some(AuthCredentials::Basic { username: a.0.username, password: a.0.password }),
            (_, Ok(a)) => Some(AuthCredentials::Bearer { token: a.0.token }),
            _ => None,
        };
        assert_eq!(ExtractAuthData.before(Some(v)), expected, "{}", v);
    }
}

#[test]
fn operation_response_statuses() {
    assert_eq!(Operation::AcceptEditgroup.response_statuses(), vec![200, 400, 404, 0]);
    assert_eq!(Operation::CreateContainer.response_statuses(), vec![201, 400, 404, 0]);
    for op in Operation::all().iter() {
        let statuses = op.response_statuses();
        assert!(statuses.len() >= 2);
        assert_eq!(*statuses.last().unwrap(), 0);
    }
}

#[test]
fn api_failures_are_internal_errors() {
    assert_eq!(fatcat::server::api_outcome::<u8, &str>(Ok(7)), Ok(7));
    let e = fatcat::server::api_outcome::<u8, &str>(Err("database down")).unwrap_err();
    assert_eq!(e.status, 500);
    assert_eq!(e.message, "An internal error occurred");
}
