//! Client side of the API: the base path a client is made with, the request
//! line (method and URL) of each call it makes, and how a response is read:
//! the response variant its status selects, or the report of an unexpected
//! status.

use vstd::prelude::*;
use crate::decimal::{format_i64, nat_digits, spec_decimal, spec_parse_i64, format_u64, IntErrorKind};
use crate::percent::{
    escape_query_value, is_plain_name, value_escaped, value_query, percent_encoded, percent_decoded_text, utf8_percent_encode,
    EscapeSet,
    lemma_path_segment_round_trip,
};
use crate::server::{HttpMethod, Operation, ParameterSpec};
use crate::service::ServiceOperation;
use vstd::utf8::{decode_utf8, valid_utf8};
use vstd::std_specs::convert::FromSpecImpl;

verus! {

#[verifier::external_type_specification]
#[verifier::external_body]
pub struct ExUrlParseError(url::ParseError);

/// Why a client could not be made.
#[derive(Debug)]
pub enum ClientInitError {
    /// The base path's scheme is not the one the transport needs.
    InvalidScheme,
    /// The base path is not a URL, for the reason the URL parser gives.
    InvalidUrl(UrlErrorKind),
    /// The base path names no host.
    MissingHost,
}

impl ClientInitError {
    /// What went wrong, in general terms.
    pub fn description(&self) -> (r: &'static str)
        ensures
            r@ == "Failed to produce a hyper client."@,
    {
        "Failed to produce a hyper client."
    }

    /// The text of the error, as its `Debug` form writes it: the variant's
    /// name, with the name of the URL error in brackets for `InvalidUrl`.
    pub fn text(&self) -> (r: String)
        ensures
            self is InvalidScheme ==> r@ == "InvalidScheme"@,
            self is MissingHost ==> r@ == "MissingHost"@,
            self matches ClientInitError::InvalidUrl(k) ==> r@ == "InvalidUrl("@ + k.spec_name()
                + ")"@,
    {
        match self {
            ClientInitError::InvalidScheme => String::from_str("InvalidScheme"),
            ClientInitError::MissingHost => String::from_str("MissingHost"),
            ClientInitError::InvalidUrl(k) => {
                let mut m = String::from_str("InvalidUrl(");
                m.append(k.name());
                m.append(")");
                assert(m@ == "InvalidUrl("@ + k.spec_name() + ")"@);
                m
            },
        }
    }
}

/// The kinds of `url::ParseError`, one per variant of that enum.
#[derive(Debug, Clone, Copy, PartialEq, Eq)]
pub enum UrlErrorKind {
    EmptyHost,
    IdnaError,
    InvalidPort,
    InvalidIpv4Address,
    InvalidIpv6Address,
    InvalidDomainCharacter,
    RelativeUrlWithoutBase,
    RelativeUrlWithCannotBeABaseBase,
    SetHostOnCannotBeABaseUrl,
    Overflow,
}

impl UrlErrorKind {
    /// The variant's name, as `Debug` writes it.
    pub open spec fn spec_name(self) -> Seq<char> {
        match self {
            UrlErrorKind::EmptyHost => "EmptyHost"@,
            UrlErrorKind::IdnaError => "IdnaError"@,
            UrlErrorKind::InvalidPort => "InvalidPort"@,
            UrlErrorKind::InvalidIpv4Address => "InvalidIpv4Address"@,
            UrlErrorKind::InvalidIpv6Address => "InvalidIpv6Address"@,
            UrlErrorKind::InvalidDomainCharacter => "InvalidDomainCharacter"@,
            UrlErrorKind::RelativeUrlWithoutBase => "RelativeUrlWithoutBase"@,
            UrlErrorKind::RelativeUrlWithCannotBeABaseBase => "RelativeUrlWithCannotBeABaseBase"@,
            UrlErrorKind::SetHostOnCannotBeABaseUrl => "SetHostOnCannotBeABaseUrl"@,
            UrlErrorKind::Overflow => "Overflow"@,
        }
    }

    /// The variant's name, as `Debug` writes it.
    pub fn name(&self) -> (r: &'static str)
        ensures
            r@ == self.spec_name(),
    {
        match self {
            UrlErrorKind::EmptyHost => {
                proof { reveal_strlit("EmptyHost"); }
                "EmptyHost"
            },
            UrlErrorKind::IdnaError => {
                proof { reveal_strlit("IdnaError"); }
                "IdnaError"
            },
            UrlErrorKind::InvalidPort => {
                proof { reveal_strlit("InvalidPort"); }
                "InvalidPort"
            },
            UrlErrorKind::InvalidIpv4Address => {
                proof { reveal_strlit("InvalidIpv4Address"); }
                "InvalidIpv4Address"
            },
            UrlErrorKind::InvalidIpv6Address => {
                proof { reveal_strlit("InvalidIpv6Address"); }
                "InvalidIpv6Address"
            },
            UrlErrorKind::InvalidDomainCharacter => {
                proof { reveal_strlit("InvalidDomainCharacter"); }
                "InvalidDomainCharacter"
            },
            UrlErrorKind::RelativeUrlWithoutBase => {
                proof { reveal_strlit("RelativeUrlWithoutBase"); }
                "RelativeUrlWithoutBase"
            },
            UrlErrorKind::RelativeUrlWithCannotBeABaseBase => {
                proof { reveal_strlit("RelativeUrlWithCannotBeABaseBase"); }
                "RelativeUrlWithCannotBeABaseBase"
            },
            UrlErrorKind::SetHostOnCannotBeABaseUrl => {
                proof { reveal_strlit("SetHostOnCannotBeABaseUrl"); }
                "SetHostOnCannotBeABaseUrl"
            },
            UrlErrorKind::Overflow => {
                proof { reveal_strlit("Overflow"); }
                "Overflow"
            },
        }
    }
}

/// Tells the variants of a `url::ParseError` apart, one arm per variant,
/// for `parse_url`: each variant becomes the kind of the same name.
#[verifier::external_body]
fn url_error_kind(e: &url::ParseError) -> (r: UrlErrorKind) {
    match e {
        url::ParseError::EmptyHost => UrlErrorKind::EmptyHost,
        url::ParseError::IdnaError => UrlErrorKind::IdnaError,
        url::ParseError::InvalidPort => UrlErrorKind::InvalidPort,
        url::ParseError::InvalidIpv4Address => UrlErrorKind::InvalidIpv4Address,
        url::ParseError::InvalidIpv6Address => UrlErrorKind::InvalidIpv6Address,
        url::ParseError::InvalidDomainCharacter => UrlErrorKind::InvalidDomainCharacter,
        url::ParseError::RelativeUrlWithoutBase => UrlErrorKind::RelativeUrlWithoutBase,
        url::ParseError::RelativeUrlWithCannotBeABaseBase => UrlErrorKind::RelativeUrlWithCannotBeABaseBase,
        url::ParseError::SetHostOnCannotBeABaseUrl => UrlErrorKind::SetHostOnCannotBeABaseUrl,
        url::ParseError::Overflow => UrlErrorKind::Overflow,
    }
}


impl From<UrlErrorKind> for ClientInitError {
    fn from(err: UrlErrorKind) -> (r: ClientInitError) {
        ClientInitError::InvalidUrl(err)
    }
}

impl FromSpecImpl<UrlErrorKind> for ClientInitError {
    open spec fn obeys_from_spec() -> bool {
        true
    }

    open spec fn from_spec(v: UrlErrorKind) -> ClientInitError {
        ClientInitError::InvalidUrl(v)
    }
}

/// What a client's base path is made from: the scheme, host and explicit port of a URL.
#[derive(Debug, Clone, PartialEq)]
pub struct UrlParts {
    pub scheme: String,
    pub host: Option<String>,
    pub port: Option<u16>,
}

/// The parts of a URL, as text.
pub struct SpecUrlParts {
    pub scheme: Seq<char>,
    pub host: Option<Seq<char>>,
    pub port: Option<u16>,
}

impl UrlParts {
    pub open spec fn spec(&self) -> SpecUrlParts {
        SpecUrlParts {
            scheme: self.scheme@,
            host: match self.host {
                Some(h) => Some(h@),
                None => None,
            },
            port: self.port,
        }
    }
}

/// What `url::Url::parse` makes of a text: the scheme, the host and the
/// explicit non-default port of the URL, or the kind of error that says why
/// it is not one.
pub uninterp spec fn parsed_url(input: Seq<char>) -> Result<SpecUrlParts, UrlErrorKind>;

/// `url::Url::parse`, keeping the URL's `scheme()`, `host()` (as text) and
/// `port()`, or the kind of its `ParseError`. Claimed: the result depends on
/// the input alone, and is named `parsed_url`; the URL grammar itself is not
/// stated.
#[verifier::external_body]
fn parse_url(input: &str) -> (r: Result<UrlParts, UrlErrorKind>)
    ensures
        match r {
            Ok(p) => parsed_url(input@) == Ok::<SpecUrlParts, UrlErrorKind>(p.spec()),
            Err(k) => parsed_url(input@) == Err::<SpecUrlParts, UrlErrorKind>(k),
        },
{
    match url::Url::parse(input) {
        Ok(u) => Ok(UrlParts {
            scheme: u.scheme().to_string(),
            host: u.host().map(|h| h.to_string()),
            port: u.port(),
        }),
        Err(e) => Err(url_error_kind(&e)),
    }
}

/// `:` and the decimal port, when there is one.
pub open spec fn port_suffix(port: Option<u16>) -> Seq<char> {
    match port {
        Some(p) => ":"@ + nat_digits(p as nat),
        None => Seq::empty(),
    }
}

/// Why a base path cannot be made of URL parts, if it cannot.
pub enum BasePathFailure {
    InvalidScheme,
    MissingHost,
}

/// The base path `scheme://host[:port]` made of URL parts, checking the
/// scheme when one is required.
pub open spec fn spec_base_path(parts: SpecUrlParts, correct_scheme: Option<Seq<char>>) -> Result<
    Seq<char>,
    BasePathFailure,
> {
    if correct_scheme matches Some(c) && parts.scheme != c {
        Err(BasePathFailure::InvalidScheme)
    } else {
        match parts.host {
            None => Err(BasePathFailure::MissingHost),
            Some(h) => Ok(parts.scheme + "://"@ + h + port_suffix(parts.port)),
        }
    }
}

/// A base path keeps the URL's scheme, host and explicit port, whatever the
/// scheme: a URL with a host, of the required scheme when one is required,
/// gives `scheme://host`, followed by `:` and the decimal port exactly when
/// the URL names a port.
pub proof fn lemma_base_path_keeps_parts(parts: SpecUrlParts, c: Option<Seq<char>>, h: Seq<char>)
    requires
        parts.host == Some(h),
        c is None || c == Some(parts.scheme),
    ensures
        parts.port matches Some(p) ==> spec_base_path(parts, c) == Ok::<Seq<char>, BasePathFailure>(
            parts.scheme + "://"@ + h + ":"@ + nat_digits(p as nat),
        ),
        parts.port is None ==> spec_base_path(parts, c) == Ok::<Seq<char>, BasePathFailure>(
            parts.scheme + "://"@ + h,
        ),
{
    assert(parts.scheme + "://"@ + h + Seq::<char>::empty() =~= parts.scheme + "://"@ + h);
    if let Some(p) = parts.port {
        assert(parts.scheme + "://"@ + h + (":"@ + nat_digits(p as nat)) =~= parts.scheme + "://"@
            + h + ":"@ + nat_digits(p as nat));
    }
}

/// A base path is refused for the scheme first and the host second: a URL
/// whose scheme is not the required one gives `InvalidScheme`, whatever its
/// host; one of the right scheme with no host gives `MissingHost`.
pub proof fn lemma_base_path_refusals(parts: SpecUrlParts, c: Option<Seq<char>>)
    ensures
        c matches Some(s) && parts.scheme != s ==> spec_base_path(parts, c) matches Err(
            BasePathFailure::InvalidScheme,
        ),
        (c is None || c == Some(parts.scheme)) && parts.host is None ==> spec_base_path(
            parts,
            c,
        ) matches Err(BasePathFailure::MissingHost),
{
}

/// Makes the base path `scheme://host[:port]` of URL parts; when
/// `correct_scheme` is given, the scheme must be that one.
pub fn base_path_from_parts(parts: &UrlParts, correct_scheme: Option<&str>) -> (r: Result<
    String,
    ClientInitError,
>)
    ensures
        match spec_base_path(
            parts.spec(),
            match correct_scheme {
                Some(c) => Some(c@),
                None => None,
            },
        ) {
            Ok(s) => r matches Ok(v) && v@ == s,
            Err(BasePathFailure::InvalidScheme) => r matches Err(ClientInitError::InvalidScheme),
            Err(BasePathFailure::MissingHost) => r matches Err(ClientInitError::MissingHost),
        },
{
    if let Some(c) = correct_scheme {
        let wanted = String::from_str(c);
        if parts.scheme != wanted {
            return Err(ClientInitError::InvalidScheme);
        }
    }
    match &parts.host {
        None => Err(ClientInitError::MissingHost),
        Some(h) => {
            let mut s = parts.scheme.clone();
            s.append("://");
            s.append(h.as_str());
            if let Some(p) = parts.port {
                s.append(":");
                s.append(format_u64(p as u64).as_str());
            }
            Ok(s)
        },
    }
}

/// Makes a client's base path (e.g. `http://example:123`) of a URL, checking
/// its scheme when one is required.
pub fn into_base_path(input: &str, correct_scheme: Option<&str>) -> (r: Result<
    String,
    ClientInitError,
>)
    ensures
        match parsed_url(input@) {
            Err(k) => r matches Err(ClientInitError::InvalidUrl(f)) && f == k,
            Ok(parts) => match spec_base_path(
                parts,
                match correct_scheme {
                    Some(c) => Some(c@),
                    None => None,
                },
            ) {
                Ok(s) => r matches Ok(v) && v@ == s,
                Err(BasePathFailure::InvalidScheme) => r matches Err(
                    ClientInitError::InvalidScheme,
                ),
                Err(BasePathFailure::MissingHost) => r matches Err(ClientInitError::MissingHost),
            },
        },
{
    match parse_url(input) {
        Err(e) => Err(ClientInitError::from(e)),
        Ok(parts) => base_path_from_parts(&parts, correct_scheme),
    }
}

/// Which response variant of `op` a response with status `code` is read as:
/// the position of `code` among the operation's statuses; `None` when the
/// operation has no variant for it, which the client reports as an
/// unexpected response.
pub fn response_variant(op: ServiceOperation, code: u16) -> (r: Option<usize>)
    ensures
        match r {
            Some(i) => i < op.response_status_seq().len() && op.response_status_seq()[i as int]
                == code && forall|j: int|
                0 <= j < i ==> #[trigger] op.response_status_seq()[j] != code,
            None => !op.response_status_seq().contains(code),
        },
{
    let statuses = op.response_statuses();
    let mut i: usize = 0;
    while i < statuses.len()
        invariant
            statuses@ == op.response_status_seq(),
            i <= statuses@.len(),
            forall|j: int| 0 <= j < i ==> #[trigger] statuses@[j] != code,
        decreases statuses@.len() - i,
    {
        if statuses[i] == code {
            return Some(i);
        }
        i = i + 1;
    }
    None
}

/// The text of the error that a response with an unexpected status is
/// reported as, from the status, the debug text of its headers and a
/// preview of its body.
pub fn unexpected_response_message(code: u16, headers: &str, body: &str) -> (r: String)
    ensures
        r@ == "Unexpected response code "@ + nat_digits(code as nat) + ":\n"@ + headers@ + "\n\n"@
            + body@,
{
    let mut m = String::from_str("Unexpected response code ");
    m.append(format_u64(code as u64).as_str());
    m.append(":\n");
    m.append(headers);
    m.append("\n\n");
    m.append(body);
    m
}

/// `std::str::from_utf8` of the bytes, the text owned. Claimed, as std
/// documents it: the text is present exactly when the bytes are valid UTF-8,
/// and it is the text they encode.
#[verifier::external_body]
fn utf8_text(bytes: &[u8]) -> (r: Option<String>)
    ensures
        match r {
            Some(t) => valid_utf8(bytes@) && t@ == decode_utf8(bytes@),
            None => !valid_utf8(bytes@),
        },
{
    match std::str::from_utf8(bytes) {
        Ok(t) => Some(t.to_string()),
        Err(_) => None,
    }
}

/// The decimal texts of the bytes, separated by `, `.
pub open spec fn joined_decimals(bytes: Seq<u8>) -> Seq<char>
    decreases bytes.len(),
{
    if bytes.len() == 0 {
        Seq::empty()
    } else if bytes.len() == 1 {
        nat_digits(bytes[0] as nat)
    } else {
        joined_decimals(bytes.drop_last()) + ", "@ + nat_digits(bytes.last() as nat)
    }
}

/// The debug text of a list of bytes: `[`, their decimal texts separated by `, `, and `]`.
pub open spec fn debug_byte_list(bytes: Seq<u8>) -> Seq<char> {
    "["@ + joined_decimals(bytes) + "]"@
}

/// The preview of a response body that an unexpected response is reported
/// with: the text of the bytes when they are valid UTF-8, else a note that
/// lists them.
pub fn body_preview(bytes: &[u8]) -> (r: String)
    ensures
        valid_utf8(bytes@) ==> r@ == decode_utf8(bytes@),
        !valid_utf8(bytes@) ==> r@ == "<Body was not UTF8: "@ + debug_byte_list(bytes@) + ">"@,
{
    match utf8_text(bytes) {
        Some(t) => t,
        None => {
            let mut m = String::from_str("<Body was not UTF8: [");
            let mut i: usize = 0;
            proof {
                reveal_strlit("<Body was not UTF8: [");
                reveal_strlit("<Body was not UTF8: ");
                reveal_strlit("[");
                assert(bytes@.subrange(0, 0) =~= Seq::<u8>::empty());
                assert("<Body was not UTF8: ["@ =~= "<Body was not UTF8: "@ + "["@);
            }
            while i < bytes.len()
                invariant
                    i <= bytes@.len(),
                    m@ == "<Body was not UTF8: "@ + "["@ + joined_decimals(bytes@.subrange(0, i as int)),
                decreases bytes@.len() - i,
            {
                let ghost before = m@;
                if i > 0 {
                    m.append(", ");
                }
                m.append(format_u64(bytes[i] as u64).as_str());
                proof {
                    let p = bytes@.subrange(0, i + 1);
                    assert(p.drop_last() =~= bytes@.subrange(0, i as int));
                    assert(p.last() == bytes@[i as int]);
                    if i == 0 {
                        assert(p.len() == 1);
                        assert(bytes@.subrange(0, 0) =~= Seq::<u8>::empty());
                        assert(m@ =~= before + nat_digits(bytes@[0] as nat));
                    } else {
                        assert(m@ =~= before + ", "@ + nat_digits(bytes@[i as int] as nat));
                    }
                }
                i = i + 1;
            }
            m.append("]>");
            proof {
                reveal_strlit("]>");
                reveal_strlit("]");
                reveal_strlit(">");
                assert(bytes@.subrange(0, bytes@.len() as int) =~= bytes@);
            }
            assert(m@ =~= "<Body was not UTF8: "@ + debug_byte_list(bytes@) + ">"@);
            m
        },
    }
}

/// The method and URL of one request.
#[derive(Debug, Clone, PartialEq)]
pub struct RequestLine {
    pub method: HttpMethod,
    pub url: String,
}

/// An integer path parameter that the client sends as the percent-encoded
/// decimal text of its value is read back by the server as that value.
pub proof fn lemma_integer_path_parameter_round_trip(n: i64)
    ensures
        percent_decoded_text(percent_encoded(spec_decimal(n as int), EscapeSet::PathSegment))
            == Some(spec_decimal(n as int)),
        spec_parse_i64(spec_decimal(n as int)) == Ok::<int, IntErrorKind>(n as int),
{
    lemma_path_segment_round_trip(spec_decimal(n as int));
    crate::decimal::lemma_parse_decimal(n);
}

/// The request line of `container_id_get`: the id as one percent-encoded path segment.
pub fn container_id_get_request(base_path: &str, id: &str) -> (r: RequestLine)
    ensures
        r.method == HttpMethod::Get,
        r.url@ == base_path@ + "/v0/container/"@ + percent_encoded(id@, EscapeSet::PathSegment),
{
    let mut url = String::from_str(base_path);
    url.append("/v0/container/");
    url.append(utf8_percent_encode(id, EscapeSet::PathSegment).as_str());
    RequestLine { method: HttpMethod::Get, url }
}

/// The query of each lookup request is the one-parameter query of the
/// lookup's name and the value, and each name is plain, so the server's
/// query rule reads the value back unchanged (see `query_parameter_in`),
/// whatever the value holds.
pub proof fn lemma_lookup_queries_are_value_queries(v: Seq<char>)
    ensures
        percent_encoded("issn="@ + value_escaped(v) + "&"@, EscapeSet::Query) == value_query(
            "issn"@,
            v,
        ),
        percent_encoded("orcid="@ + value_escaped(v) + "&"@, EscapeSet::Query) == value_query(
            "orcid"@,
            v,
        ),
        percent_encoded("sha1="@ + value_escaped(v) + "&"@, EscapeSet::Query) == value_query(
            "sha1"@,
            v,
        ),
        percent_encoded("doi="@ + value_escaped(v) + "&"@, EscapeSet::Query) == value_query(
            "doi"@,
            v,
        ),
        is_plain_name("issn"@),
        is_plain_name("orcid"@),
        is_plain_name("sha1"@),
        is_plain_name("doi"@),
{
    reveal_strlit("issn=");
    reveal_strlit("issn");
    reveal_strlit("orcid=");
    reveal_strlit("orcid");
    reveal_strlit("sha1=");
    reveal_strlit("sha1");
    reveal_strlit("doi=");
    reveal_strlit("doi");
    reveal_strlit("=");
    assert("issn="@ =~= "issn"@ + "="@);
    assert("orcid="@ =~= "orcid"@ + "="@);
    assert("sha1="@ =~= "sha1"@ + "="@);
    assert("doi="@ =~= "doi"@ + "="@);
}

/// A lookup that a client writes reaches the lookup route of the same
/// entity under the name that route reads, whatever the value: the client's
/// query is the one-parameter query of that name, and the name is plain, so
/// the server's query rule reads the value back. This holds for all four
/// lookups of the hyper service, and for the creator, file and release
/// lookups of the route table (whose container lookup reads `issnl`).
pub proof fn lemma_lookup_names_agree(v: Seq<char>)
    ensures
        ServiceOperation::ContainerLookupGet.route_parameter() matches Some(
            ParameterSpec::Query(n),
        ) && is_plain_name(n) && percent_encoded("issn="@ + value_escaped(v) + "&"@, EscapeSet::Query)
            == value_query(n, v),
        ServiceOperation::CreatorLookupGet.route_parameter() matches Some(ParameterSpec::Query(n))
            && is_plain_name(n) && percent_encoded("orcid="@ + value_escaped(v) + "&"@, EscapeSet::Query)
            == value_query(n, v),
        ServiceOperation::FileLookupGet.route_parameter() matches Some(ParameterSpec::Query(n))
            && is_plain_name(n) && percent_encoded("sha1="@ + value_escaped(v) + "&"@, EscapeSet::Query)
            == value_query(n, v),
        ServiceOperation::ReleaseLookupGet.route_parameter() matches Some(ParameterSpec::Query(n))
            && is_plain_name(n) && percent_encoded("doi="@ + value_escaped(v) + "&"@, EscapeSet::Query)
            == value_query(n, v),
        Operation::LookupCreator.route_parameter() matches ParameterSpec::Query(n) && is_plain_name(n)
            && percent_encoded("orcid="@ + value_escaped(v) + "&"@, EscapeSet::Query) == value_query(n, v),
        Operation::LookupFile.route_parameter() matches ParameterSpec::Query(n) && is_plain_name(n)
            && percent_encoded("sha1="@ + value_escaped(v) + "&"@, EscapeSet::Query) == value_query(n, v),
        Operation::LookupRelease.route_parameter() matches ParameterSpec::Query(n) && is_plain_name(n)
            && percent_encoded("doi="@ + value_escaped(v) + "&"@, EscapeSet::Query) == value_query(n, v),
{
    lemma_lookup_queries_are_value_queries(v);
}

/// The request line of `container_lookup_get`: the query `issn=<value>&`,
/// percent-encoded as a query string, with the value's `+`, `&`, `=` and `%`
/// escaped first so that the server reads the value back unchanged.
pub fn container_lookup_get_request(base_path: &str, issn: &str) -> (r: RequestLine)
    ensures
        r.method == HttpMethod::Get,
        r.url@ == base_path@ + "/v0/container/lookup?"@ + percent_encoded(
            "issn="@ + value_escaped(issn@) + "&"@,
            EscapeSet::Query,
        ),
{
    let mut url = String::from_str(base_path);
    url.append("/v0/container/lookup?");
    let mut query = String::from_str("issn=");
    query.append(escape_query_value(issn).as_str());
    query.append("&");
    url.append(utf8_percent_encode(query.as_str(), EscapeSet::Query).as_str());
    RequestLine { method: HttpMethod::Get, url }
}

/// The request line of `container_post`.
pub fn container_post_request(base_path: &str) -> (r: RequestLine)
    ensures
        r.method == HttpMethod::Post,
        r.url@ == base_path@ + "/v0/container"@,
{
    let mut url = String::from_str(base_path);
    url.append("/v0/container");
    RequestLine { method: HttpMethod::Post, url }
}

/// The request line of `creator_id_get`: the id as one percent-encoded path segment.
pub fn creator_id_get_request(base_path: &str, id: &str) -> (r: RequestLine)
    ensures
        r.method == HttpMethod::Get,
        r.url@ == base_path@ + "/v0/creator/"@ + percent_encoded(id@, EscapeSet::PathSegment),
{
    let mut url = String::from_str(base_path);
    url.append("/v0/creator/");
    url.append(utf8_percent_encode(id, EscapeSet::PathSegment).as_str());
    RequestLine { method: HttpMethod::Get, url }
}

/// The request line of `creator_lookup_get`: the query `orcid=<value>&`,
/// percent-encoded as a query string, with the value's `+`, `&`, `=` and `%`
/// escaped first so that the server reads the value back unchanged.
pub fn creator_lookup_get_request(base_path: &str, orcid: &str) -> (r: RequestLine)
    ensures
        r.method == HttpMethod::Get,
        r.url@ == base_path@ + "/v0/creator/lookup?"@ + percent_encoded(
            "orcid="@ + value_escaped(orcid@) + "&"@,
            EscapeSet::Query,
        ),
{
    let mut url = String::from_str(base_path);
    url.append("/v0/creator/lookup?");
    let mut query = String::from_str("orcid=");
    query.append(escape_query_value(orcid).as_str());
    query.append("&");
    url.append(utf8_percent_encode(query.as_str(), EscapeSet::Query).as_str());
    RequestLine { method: HttpMethod::Get, url }
}

/// The request line of `creator_post`.
pub fn creator_post_request(base_path: &str) -> (r: RequestLine)
    ensures
        r.method == HttpMethod::Post,
        r.url@ == base_path@ + "/v0/creator"@,
{
    let mut url = String::from_str(base_path);
    url.append("/v0/creator");
    RequestLine { method: HttpMethod::Post, url }
}

/// The request line of `editgroup_id_accept_post`: the decimal text of the id as one
/// percent-encoded path segment.
pub fn editgroup_id_accept_post_request(base_path: &str, id: i32) -> (r: RequestLine)
    ensures
        r.method == HttpMethod::Post,
        r.url@ == base_path@ + "/v0/editgroup/"@ + percent_encoded(spec_decimal(id as int), EscapeSet::PathSegment) + "/accept"@,
{
    let mut url = String::from_str(base_path);
    url.append("/v0/editgroup/");
    let text = format_i64(id as i64);
    url.append(utf8_percent_encode(text.as_str(), EscapeSet::PathSegment).as_str());
    url.append("/accept");
    RequestLine { method: HttpMethod::Post, url }
}

/// The request line of `editgroup_id_get`: the decimal text of the id as one
/// percent-encoded path segment.
pub fn editgroup_id_get_request(base_path: &str, id: i32) -> (r: RequestLine)
    ensures
        r.method == HttpMethod::Get,
        r.url@ == base_path@ + "/v0/editgroup/"@ + percent_encoded(spec_decimal(id as int), EscapeSet::PathSegment),
{
    let mut url = String::from_str(base_path);
    url.append("/v0/editgroup/");
    let text = format_i64(id as i64);
    url.append(utf8_percent_encode(text.as_str(), EscapeSet::PathSegment).as_str());
    RequestLine { method: HttpMethod::Get, url }
}

/// The request line of `editgroup_post`.
pub fn editgroup_post_request(base_path: &str) -> (r: RequestLine)
    ensures
        r.method == HttpMethod::Post,
        r.url@ == base_path@ + "/v0/editgroup"@,
{
    let mut url = String::from_str(base_path);
    url.append("/v0/editgroup");
    RequestLine { method: HttpMethod::Post, url }
}

/// The request line of `editor_username_changelog_get`: the username as one percent-encoded path segment.
pub fn editor_username_changelog_get_request(base_path: &str, username: &str) -> (r: RequestLine)
    ensures
        r.method == HttpMethod::Get,
        r.url@ == base_path@ + "/v0/editor/"@ + percent_encoded(username@, EscapeSet::PathSegment) + "/changelog"@,
{
    let mut url = String::from_str(base_path);
    url.append("/v0/editor/");
    url.append(utf8_percent_encode(username, EscapeSet::PathSegment).as_str());
    url.append("/changelog");
    RequestLine { method: HttpMethod::Get, url }
}

/// The request line of `editor_username_get`: the username as one percent-encoded path segment.
pub fn editor_username_get_request(base_path: &str, username: &str) -> (r: RequestLine)
    ensures
        r.method == HttpMethod::Get,
        r.url@ == base_path@ + "/v0/editor/"@ + percent_encoded(username@, EscapeSet::PathSegment),
{
    let mut url = String::from_str(base_path);
    url.append("/v0/editor/");
    url.append(utf8_percent_encode(username, EscapeSet::PathSegment).as_str());
    RequestLine { method: HttpMethod::Get, url }
}

/// The request line of `file_id_get`: the id as one percent-encoded path segment.
pub fn file_id_get_request(base_path: &str, id: &str) -> (r: RequestLine)
    ensures
        r.method == HttpMethod::Get,
        r.url@ == base_path@ + "/v0/file/"@ + percent_encoded(id@, EscapeSet::PathSegment),
{
    let mut url = String::from_str(base_path);
    url.append("/v0/file/");
    url.append(utf8_percent_encode(id, EscapeSet::PathSegment).as_str());
    RequestLine { method: HttpMethod::Get, url }
}

/// The request line of `file_lookup_get`: the query `sha1=<value>&`,
/// percent-encoded as a query string, with the value's `+`, `&`, `=` and `%`
/// escaped first so that the server reads the value back unchanged.
pub fn file_lookup_get_request(base_path: &str, sha1: &str) -> (r: RequestLine)
    ensures
        r.method == HttpMethod::Get,
        r.url@ == base_path@ + "/v0/file/lookup?"@ + percent_encoded(
            "sha1="@ + value_escaped(sha1@) + "&"@,
            EscapeSet::Query,
        ),
{
    let mut url = String::from_str(base_path);
    url.append("/v0/file/lookup?");
    let mut query = String::from_str("sha1=");
    query.append(escape_query_value(sha1).as_str());
    query.append("&");
    url.append(utf8_percent_encode(query.as_str(), EscapeSet::Query).as_str());
    RequestLine { method: HttpMethod::Get, url }
}

/// The request line of `file_post`.
pub fn file_post_request(base_path: &str) -> (r: RequestLine)
    ensures
        r.method == HttpMethod::Post,
        r.url@ == base_path@ + "/v0/file"@,
{
    let mut url = String::from_str(base_path);
    url.append("/v0/file");
    RequestLine { method: HttpMethod::Post, url }
}

/// The request line of `release_id_get`: the id as one percent-encoded path segment.
pub fn release_id_get_request(base_path: &str, id: &str) -> (r: RequestLine)
    ensures
        r.method == HttpMethod::Get,
        r.url@ == base_path@ + "/v0/release/"@ + percent_encoded(id@, EscapeSet::PathSegment),
{
    let mut url = String::from_str(base_path);
    url.append("/v0/release/");
    url.append(utf8_percent_encode(id, EscapeSet::PathSegment).as_str());
    RequestLine { method: HttpMethod::Get, url }
}

/// The request line of `release_lookup_get`: the query `doi=<value>&`,
/// percent-encoded as a query string, with the value's `+`, `&`, `=` and `%`
/// escaped first so that the server reads the value back unchanged.
pub fn release_lookup_get_request(base_path: &str, doi: &str) -> (r: RequestLine)
    ensures
        r.method == HttpMethod::Get,
        r.url@ == base_path@ + "/v0/release/lookup?"@ + percent_encoded(
            "doi="@ + value_escaped(doi@) + "&"@,
            EscapeSet::Query,
        ),
{
    let mut url = String::from_str(base_path);
    url.append("/v0/release/lookup?");
    let mut query = String::from_str("doi=");
    query.append(escape_query_value(doi).as_str());
    query.append("&");
    url.append(utf8_percent_encode(query.as_str(), EscapeSet::Query).as_str());
    RequestLine { method: HttpMethod::Get, url }
}

/// The request line of `release_post`.
pub fn release_post_request(base_path: &str) -> (r: RequestLine)
    ensures
        r.method == HttpMethod::Post,
        r.url@ == base_path@ + "/v0/release"@,
{
    let mut url = String::from_str(base_path);
    url.append("/v0/release");
    RequestLine { method: HttpMethod::Post, url }
}

/// The request line of `work_id_get`: the id as one percent-encoded path segment.
pub fn work_id_get_request(base_path: &str, id: &str) -> (r: RequestLine)
    ensures
        r.method == HttpMethod::Get,
        r.url@ == base_path@ + "/v0/work/"@ + percent_encoded(id@, EscapeSet::PathSegment),
{
    let mut url = String::from_str(base_path);
    url.append("/v0/work/");
    url.append(utf8_percent_encode(id, EscapeSet::PathSegment).as_str());
    RequestLine { method: HttpMethod::Get, url }
}

/// The request line of `work_post`.
pub fn work_post_request(base_path: &str) -> (r: RequestLine)
    ensures
        r.method == HttpMethod::Post,
        r.url@ == base_path@ + "/v0/work"@,
{
    let mut url = String::from_str(base_path);
    url.append("/v0/work");
    RequestLine { method: HttpMethod::Post, url }
}
} // verus!
