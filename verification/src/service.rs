//! Request dispatch of the API's hyper service: the route patterns, the
//! order in which a request is tried against the operations, and the rules
//! by which it takes its path, query and body parameters, and the statuses
//! of each operation's responses.
//!
//! Integer path parameters are read as `i32` here.

use vstd::prelude::*;
use crate::decimal::{parse_i32, spec_parse_i32, spec_int_error_message};
use crate::percent::{
    form_decoded_bytes, is_plain_name, lemma_plain_name_bytes, lemma_query_value_bytes,
    lemma_value_query_bytes, percent_decoded_text, plus_as_space, query_value_bytes, value_query,
};
use vstd::utf8::{decode_utf8, encode_utf8, encode_utf8_decode_utf8, encode_utf8_valid_utf8, valid_utf8};
use crate::server::{
    internal_error, is_random_uuid, path_parameter_text, span_id, HttpMethod, Parameter, ParameterKind, ParameterSpec,
    Rejection, BAD_REQUEST, INTERNAL_SERVER_ERROR,
};

verus! {

/// HTTP 404 Not Found.
pub const NOT_FOUND: u16 = 404;

/// The operations of the hyper service, in the order a request is tried against them.
#[derive(Debug, Clone, Copy, PartialEq, Eq)]
pub enum ServiceOperation {
    /// GET /container/lookup
    ContainerLookupGet,
    /// GET /container/{id}
    ContainerIdGet,
    /// POST /container
    ContainerPost,
    /// GET /creator/lookup
    CreatorLookupGet,
    /// GET /creator/{id}
    CreatorIdGet,
    /// POST /creator
    CreatorPost,
    /// POST /editgroup/{id}/accept
    EditgroupIdAcceptPost,
    /// GET /editgroup/{id}
    EditgroupIdGet,
    /// POST /editgroup
    EditgroupPost,
    /// GET /editor/{username}/changelog
    EditorUsernameChangelogGet,
    /// GET /editor/{username}
    EditorUsernameGet,
    /// GET /file/lookup
    FileLookupGet,
    /// GET /file/{id}
    FileIdGet,
    /// POST /file
    FilePost,
    /// GET /release/lookup
    ReleaseLookupGet,
    /// GET /release/{id}
    ReleaseIdGet,
    /// POST /release
    ReleasePost,
    /// GET /work/{id}
    WorkIdGet,
    /// POST /work
    WorkPost,
}

/// The route patterns, in the order of the service's pattern set.
pub open spec fn route_pattern_texts() -> Seq<Seq<char>> {
    seq![
        r"^/v0/container$"@,
        r"^/v0/container/lookup$"@,
        r"^/v0/container/(?P<id>[^/?#]*)$"@,
        r"^/v0/creator$"@,
        r"^/v0/creator/lookup$"@,
        r"^/v0/creator/(?P<id>[^/?#]*)$"@,
        r"^/v0/editgroup$"@,
        r"^/v0/editgroup/(?P<id>[^/?#]*)$"@,
        r"^/v0/editgroup/(?P<id>[^/?#]*)/accept$"@,
        r"^/v0/editor/(?P<username>[^/?#]*)$"@,
        r"^/v0/editor/(?P<username>[^/?#]*)/changelog$"@,
        r"^/v0/file$"@,
        r"^/v0/file/lookup$"@,
        r"^/v0/file/(?P<id>[^/?#]*)$"@,
        r"^/v0/release$"@,
        r"^/v0/release/lookup$"@,
        r"^/v0/release/(?P<id>[^/?#]*)$"@,
        r"^/v0/work$"@,
        r"^/v0/work/(?P<id>[^/?#]*)$"@
    ]
}

/// The route patterns, in the order of the service's pattern set.
pub fn route_patterns() -> (r: Vec<&'static str>)
    ensures
        r@.len() == route_pattern_texts().len(),
        forall|i: int| 0 <= i < r@.len() ==> #[trigger] r@[i]@ == route_pattern_texts()[i],
{
    let r = vec![
        r"^/v0/container$",
        r"^/v0/container/lookup$",
        r"^/v0/container/(?P<id>[^/?#]*)$",
        r"^/v0/creator$",
        r"^/v0/creator/lookup$",
        r"^/v0/creator/(?P<id>[^/?#]*)$",
        r"^/v0/editgroup$",
        r"^/v0/editgroup/(?P<id>[^/?#]*)$",
        r"^/v0/editgroup/(?P<id>[^/?#]*)/accept$",
        r"^/v0/editor/(?P<username>[^/?#]*)$",
        r"^/v0/editor/(?P<username>[^/?#]*)/changelog$",
        r"^/v0/file$",
        r"^/v0/file/lookup$",
        r"^/v0/file/(?P<id>[^/?#]*)$",
        r"^/v0/release$",
        r"^/v0/release/lookup$",
        r"^/v0/release/(?P<id>[^/?#]*)$",
        r"^/v0/work$",
        r"^/v0/work/(?P<id>[^/?#]*)$"
    ];
    assert(r@.len() == route_pattern_texts().len());
    r
}

/// The order in which a request is tried against the operations.
pub open spec fn arm_order() -> Seq<ServiceOperation> {
    seq![
        ServiceOperation::ContainerLookupGet,
        ServiceOperation::ContainerIdGet,
        ServiceOperation::ContainerPost,
        ServiceOperation::CreatorLookupGet,
        ServiceOperation::CreatorIdGet,
        ServiceOperation::CreatorPost,
        ServiceOperation::EditgroupIdAcceptPost,
        ServiceOperation::EditgroupIdGet,
        ServiceOperation::EditgroupPost,
        ServiceOperation::EditorUsernameChangelogGet,
        ServiceOperation::EditorUsernameGet,
        ServiceOperation::FileLookupGet,
        ServiceOperation::FileIdGet,
        ServiceOperation::FilePost,
        ServiceOperation::ReleaseLookupGet,
        ServiceOperation::ReleaseIdGet,
        ServiceOperation::ReleasePost,
        ServiceOperation::WorkIdGet,
        ServiceOperation::WorkPost
    ]
}

impl ServiceOperation {
    pub open spec fn route_method(self) -> HttpMethod {
        match self {
            ServiceOperation::ContainerIdGet => HttpMethod::Get,
            ServiceOperation::ContainerLookupGet => HttpMethod::Get,
            ServiceOperation::ContainerPost => HttpMethod::Post,
            ServiceOperation::CreatorIdGet => HttpMethod::Get,
            ServiceOperation::CreatorLookupGet => HttpMethod::Get,
            ServiceOperation::CreatorPost => HttpMethod::Post,
            ServiceOperation::EditgroupIdAcceptPost => HttpMethod::Post,
            ServiceOperation::EditgroupIdGet => HttpMethod::Get,
            ServiceOperation::EditgroupPost => HttpMethod::Post,
            ServiceOperation::EditorUsernameChangelogGet => HttpMethod::Get,
            ServiceOperation::EditorUsernameGet => HttpMethod::Get,
            ServiceOperation::FileIdGet => HttpMethod::Get,
            ServiceOperation::FileLookupGet => HttpMethod::Get,
            ServiceOperation::FilePost => HttpMethod::Post,
            ServiceOperation::ReleaseIdGet => HttpMethod::Get,
            ServiceOperation::ReleaseLookupGet => HttpMethod::Get,
            ServiceOperation::ReleasePost => HttpMethod::Post,
            ServiceOperation::WorkIdGet => HttpMethod::Get,
            ServiceOperation::WorkPost => HttpMethod::Post,
        }
    }

    pub open spec fn route_pattern_index(self) -> int {
        match self {
            ServiceOperation::ContainerIdGet => 2,
            ServiceOperation::ContainerLookupGet => 1,
            ServiceOperation::ContainerPost => 0,
            ServiceOperation::CreatorIdGet => 5,
            ServiceOperation::CreatorLookupGet => 4,
            ServiceOperation::CreatorPost => 3,
            ServiceOperation::EditgroupIdAcceptPost => 8,
            ServiceOperation::EditgroupIdGet => 7,
            ServiceOperation::EditgroupPost => 6,
            ServiceOperation::EditorUsernameChangelogGet => 10,
            ServiceOperation::EditorUsernameGet => 9,
            ServiceOperation::FileIdGet => 13,
            ServiceOperation::FileLookupGet => 12,
            ServiceOperation::FilePost => 11,
            ServiceOperation::ReleaseIdGet => 16,
            ServiceOperation::ReleaseLookupGet => 15,
            ServiceOperation::ReleasePost => 14,
            ServiceOperation::WorkIdGet => 18,
            ServiceOperation::WorkPost => 17,
        }
    }

    /// The parameter the operation takes, if any.
    pub open spec fn route_parameter(self) -> Option<ParameterSpec> {
        match self {
            ServiceOperation::ContainerIdGet => Some(ParameterSpec::Path("id"@, ParameterKind::Text)),
            ServiceOperation::ContainerLookupGet => Some(ParameterSpec::Query("issn"@)),
            ServiceOperation::ContainerPost => Some(ParameterSpec::Body("body"@)),
            ServiceOperation::CreatorIdGet => Some(ParameterSpec::Path("id"@, ParameterKind::Text)),
            ServiceOperation::CreatorLookupGet => Some(ParameterSpec::Query("orcid"@)),
            ServiceOperation::CreatorPost => Some(ParameterSpec::Body("body"@)),
            ServiceOperation::EditgroupIdAcceptPost => Some(ParameterSpec::Path("id"@, ParameterKind::Integer)),
            ServiceOperation::EditgroupIdGet => Some(ParameterSpec::Path("id"@, ParameterKind::Integer)),
            ServiceOperation::EditgroupPost => None,
            ServiceOperation::EditorUsernameChangelogGet => Some(ParameterSpec::Path("username"@, ParameterKind::Text)),
            ServiceOperation::EditorUsernameGet => Some(ParameterSpec::Path("username"@, ParameterKind::Text)),
            ServiceOperation::FileIdGet => Some(ParameterSpec::Path("id"@, ParameterKind::Text)),
            ServiceOperation::FileLookupGet => Some(ParameterSpec::Query("sha1"@)),
            ServiceOperation::FilePost => Some(ParameterSpec::Body("body"@)),
            ServiceOperation::ReleaseIdGet => Some(ParameterSpec::Path("id"@, ParameterKind::Text)),
            ServiceOperation::ReleaseLookupGet => Some(ParameterSpec::Query("doi"@)),
            ServiceOperation::ReleasePost => Some(ParameterSpec::Body("body"@)),
            ServiceOperation::WorkIdGet => Some(ParameterSpec::Path("id"@, ParameterKind::Text)),
            ServiceOperation::WorkPost => Some(ParameterSpec::Body("body"@)),
        }
    }

    /// The HTTP statuses of the operation's responses, one per response
    /// variant, in the order of its variants: the success first, the
    /// generic error (status 0) last.
    pub open spec fn response_status_seq(self) -> Seq<u16> {
        match self {
            ServiceOperation::ContainerIdGet => seq![200, 400, 0],
            ServiceOperation::ContainerLookupGet => seq![200, 400, 404, 0],
            ServiceOperation::ContainerPost => seq![201, 400, 0],
            ServiceOperation::CreatorIdGet => seq![200, 400, 0],
            ServiceOperation::CreatorLookupGet => seq![200, 400, 404, 0],
            ServiceOperation::CreatorPost => seq![201, 400, 0],
            ServiceOperation::EditgroupIdAcceptPost => seq![200, 400, 404, 0],
            ServiceOperation::EditgroupIdGet => seq![200, 404, 0],
            ServiceOperation::EditgroupPost => seq![201, 400, 0],
            ServiceOperation::EditorUsernameChangelogGet => seq![200, 404, 0],
            ServiceOperation::EditorUsernameGet => seq![200, 404, 0],
            ServiceOperation::FileIdGet => seq![200, 400, 0],
            ServiceOperation::FileLookupGet => seq![200, 400, 404, 0],
            ServiceOperation::FilePost => seq![201, 400, 0],
            ServiceOperation::ReleaseIdGet => seq![200, 400, 0],
            ServiceOperation::ReleaseLookupGet => seq![200, 400, 404, 0],
            ServiceOperation::ReleasePost => seq![201, 400, 0],
            ServiceOperation::WorkIdGet => seq![200, 400, 0],
            ServiceOperation::WorkPost => seq![201, 400, 0],
        }
    }

    /// The HTTP method of the operation.
    pub fn method(&self) -> (r: HttpMethod)
        ensures
            r == self.route_method(),
    {
        match self {
            ServiceOperation::ContainerIdGet => HttpMethod::Get,
            ServiceOperation::ContainerLookupGet => HttpMethod::Get,
            ServiceOperation::ContainerPost => HttpMethod::Post,
            ServiceOperation::CreatorIdGet => HttpMethod::Get,
            ServiceOperation::CreatorLookupGet => HttpMethod::Get,
            ServiceOperation::CreatorPost => HttpMethod::Post,
            ServiceOperation::EditgroupIdAcceptPost => HttpMethod::Post,
            ServiceOperation::EditgroupIdGet => HttpMethod::Get,
            ServiceOperation::EditgroupPost => HttpMethod::Post,
            ServiceOperation::EditorUsernameChangelogGet => HttpMethod::Get,
            ServiceOperation::EditorUsernameGet => HttpMethod::Get,
            ServiceOperation::FileIdGet => HttpMethod::Get,
            ServiceOperation::FileLookupGet => HttpMethod::Get,
            ServiceOperation::FilePost => HttpMethod::Post,
            ServiceOperation::ReleaseIdGet => HttpMethod::Get,
            ServiceOperation::ReleaseLookupGet => HttpMethod::Get,
            ServiceOperation::ReleasePost => HttpMethod::Post,
            ServiceOperation::WorkIdGet => HttpMethod::Get,
            ServiceOperation::WorkPost => HttpMethod::Post,
        }
    }

    /// The position of the operation's pattern in the pattern set.
    pub fn pattern_index(&self) -> (r: usize)
        ensures
            r as int == self.route_pattern_index(),
    {
        match self {
            ServiceOperation::ContainerIdGet => 2,
            ServiceOperation::ContainerLookupGet => 1,
            ServiceOperation::ContainerPost => 0,
            ServiceOperation::CreatorIdGet => 5,
            ServiceOperation::CreatorLookupGet => 4,
            ServiceOperation::CreatorPost => 3,
            ServiceOperation::EditgroupIdAcceptPost => 8,
            ServiceOperation::EditgroupIdGet => 7,
            ServiceOperation::EditgroupPost => 6,
            ServiceOperation::EditorUsernameChangelogGet => 10,
            ServiceOperation::EditorUsernameGet => 9,
            ServiceOperation::FileIdGet => 13,
            ServiceOperation::FileLookupGet => 12,
            ServiceOperation::FilePost => 11,
            ServiceOperation::ReleaseIdGet => 16,
            ServiceOperation::ReleaseLookupGet => 15,
            ServiceOperation::ReleasePost => 14,
            ServiceOperation::WorkIdGet => 18,
            ServiceOperation::WorkPost => 17,
        }
    }

    /// The parameter the operation takes, if any (an integer is an `i32`), and where it comes from.
    pub fn parameter(&self) -> (r: Option<Parameter>)
        ensures
            match r {
                Some(p) => self.route_parameter() == Some(p.spec()),
                None => self.route_parameter() is None,
            },
    {
        match self {
            ServiceOperation::ContainerIdGet => Some(Parameter::Path { name: "id", kind: ParameterKind::Text }),
            ServiceOperation::ContainerLookupGet => Some(Parameter::Query { name: "issn" }),
            ServiceOperation::ContainerPost => Some(Parameter::Body { name: "body" }),
            ServiceOperation::CreatorIdGet => Some(Parameter::Path { name: "id", kind: ParameterKind::Text }),
            ServiceOperation::CreatorLookupGet => Some(Parameter::Query { name: "orcid" }),
            ServiceOperation::CreatorPost => Some(Parameter::Body { name: "body" }),
            ServiceOperation::EditgroupIdAcceptPost => Some(Parameter::Path { name: "id", kind: ParameterKind::Integer }),
            ServiceOperation::EditgroupIdGet => Some(Parameter::Path { name: "id", kind: ParameterKind::Integer }),
            ServiceOperation::EditgroupPost => None,
            ServiceOperation::EditorUsernameChangelogGet => Some(Parameter::Path { name: "username", kind: ParameterKind::Text }),
            ServiceOperation::EditorUsernameGet => Some(Parameter::Path { name: "username", kind: ParameterKind::Text }),
            ServiceOperation::FileIdGet => Some(Parameter::Path { name: "id", kind: ParameterKind::Text }),
            ServiceOperation::FileLookupGet => Some(Parameter::Query { name: "sha1" }),
            ServiceOperation::FilePost => Some(Parameter::Body { name: "body" }),
            ServiceOperation::ReleaseIdGet => Some(Parameter::Path { name: "id", kind: ParameterKind::Text }),
            ServiceOperation::ReleaseLookupGet => Some(Parameter::Query { name: "doi" }),
            ServiceOperation::ReleasePost => Some(Parameter::Body { name: "body" }),
            ServiceOperation::WorkIdGet => Some(Parameter::Path { name: "id", kind: ParameterKind::Text }),
            ServiceOperation::WorkPost => Some(Parameter::Body { name: "body" }),
        }
    }

    /// The HTTP statuses of the operation's responses, one per response
    /// variant, in the order of its variants.
    pub fn response_statuses(&self) -> (r: Vec<u16>)
        ensures
            r@ == self.response_status_seq(),
    {
        match self {
            ServiceOperation::ContainerIdGet => vec![200, 400, 0],
            ServiceOperation::ContainerLookupGet => vec![200, 400, 404, 0],
            ServiceOperation::ContainerPost => vec![201, 400, 0],
            ServiceOperation::CreatorIdGet => vec![200, 400, 0],
            ServiceOperation::CreatorLookupGet => vec![200, 400, 404, 0],
            ServiceOperation::CreatorPost => vec![201, 400, 0],
            ServiceOperation::EditgroupIdAcceptPost => vec![200, 400, 404, 0],
            ServiceOperation::EditgroupIdGet => vec![200, 404, 0],
            ServiceOperation::EditgroupPost => vec![201, 400, 0],
            ServiceOperation::EditorUsernameChangelogGet => vec![200, 404, 0],
            ServiceOperation::EditorUsernameGet => vec![200, 404, 0],
            ServiceOperation::FileIdGet => vec![200, 400, 0],
            ServiceOperation::FileLookupGet => vec![200, 400, 404, 0],
            ServiceOperation::FilePost => vec![201, 400, 0],
            ServiceOperation::ReleaseIdGet => vec![200, 400, 0],
            ServiceOperation::ReleaseLookupGet => vec![200, 400, 404, 0],
            ServiceOperation::ReleasePost => vec![201, 400, 0],
            ServiceOperation::WorkIdGet => vec![200, 400, 0],
            ServiceOperation::WorkPost => vec![201, 400, 0],
        }
    }

    /// Every operation, in the order a request is tried against them.
    pub fn all() -> (r: Vec<ServiceOperation>)
        ensures
            r@ == arm_order(),
    {
        vec![
            ServiceOperation::ContainerLookupGet,
            ServiceOperation::ContainerIdGet,
            ServiceOperation::ContainerPost,
            ServiceOperation::CreatorLookupGet,
            ServiceOperation::CreatorIdGet,
            ServiceOperation::CreatorPost,
            ServiceOperation::EditgroupIdAcceptPost,
            ServiceOperation::EditgroupIdGet,
            ServiceOperation::EditgroupPost,
            ServiceOperation::EditorUsernameChangelogGet,
            ServiceOperation::EditorUsernameGet,
            ServiceOperation::FileLookupGet,
            ServiceOperation::FileIdGet,
            ServiceOperation::FilePost,
            ServiceOperation::ReleaseLookupGet,
            ServiceOperation::ReleaseIdGet,
            ServiceOperation::ReleasePost,
            ServiceOperation::WorkIdGet,
            ServiceOperation::WorkPost
        ]
    }
}

/// Where an operation's path goes below its entity: the entity's collection,
/// its lookup, one item of it, or an action on one item.
pub enum PathShape {
    Collection,
    Lookup,
    Item,
    ItemAction(Seq<char>),
}

impl ServiceOperation {
    /// The entity an operation's path names, as the path writes it.
    pub open spec fn entity(self) -> Seq<char> {
        match self {
            ServiceOperation::ContainerLookupGet => "container"@,
            ServiceOperation::ContainerIdGet => "container"@,
            ServiceOperation::ContainerPost => "container"@,
            ServiceOperation::CreatorLookupGet => "creator"@,
            ServiceOperation::CreatorIdGet => "creator"@,
            ServiceOperation::CreatorPost => "creator"@,
            ServiceOperation::EditgroupIdAcceptPost => "editgroup"@,
            ServiceOperation::EditgroupIdGet => "editgroup"@,
            ServiceOperation::EditgroupPost => "editgroup"@,
            ServiceOperation::EditorUsernameChangelogGet => "editor"@,
            ServiceOperation::EditorUsernameGet => "editor"@,
            ServiceOperation::FileLookupGet => "file"@,
            ServiceOperation::FileIdGet => "file"@,
            ServiceOperation::FilePost => "file"@,
            ServiceOperation::ReleaseLookupGet => "release"@,
            ServiceOperation::ReleaseIdGet => "release"@,
            ServiceOperation::ReleasePost => "release"@,
            ServiceOperation::WorkIdGet => "work"@,
            ServiceOperation::WorkPost => "work"@,
        }
    }

    /// Where the operation's path goes below its entity.
    pub open spec fn path_shape(self) -> PathShape {
        match self {
            ServiceOperation::ContainerLookupGet => PathShape::Lookup,
            ServiceOperation::ContainerIdGet => PathShape::Item,
            ServiceOperation::ContainerPost => PathShape::Collection,
            ServiceOperation::CreatorLookupGet => PathShape::Lookup,
            ServiceOperation::CreatorIdGet => PathShape::Item,
            ServiceOperation::CreatorPost => PathShape::Collection,
            ServiceOperation::EditgroupIdAcceptPost => PathShape::ItemAction("accept"@),
            ServiceOperation::EditgroupIdGet => PathShape::Item,
            ServiceOperation::EditgroupPost => PathShape::Collection,
            ServiceOperation::EditorUsernameChangelogGet => PathShape::ItemAction("changelog"@),
            ServiceOperation::EditorUsernameGet => PathShape::Item,
            ServiceOperation::FileLookupGet => PathShape::Lookup,
            ServiceOperation::FileIdGet => PathShape::Item,
            ServiceOperation::FilePost => PathShape::Collection,
            ServiceOperation::ReleaseLookupGet => PathShape::Lookup,
            ServiceOperation::ReleaseIdGet => PathShape::Item,
            ServiceOperation::ReleasePost => PathShape::Collection,
            ServiceOperation::WorkIdGet => PathShape::Item,
            ServiceOperation::WorkPost => PathShape::Collection,
        }
    }
}

/// The pattern of one path segment that is taken as the parameter `name`.
pub open spec fn item_group(name: Seq<char>) -> Seq<char> {
    "/(?P<"@ + name + ">[^/?#]*)"@
}

/// The anchored pattern of an operation's documented path: `/v0/`, the
/// entity, and below it nothing, `/lookup`, the segment of the operation's
/// path parameter, or that segment and an action.
pub open spec fn documented_pattern(op: ServiceOperation) -> Seq<char> {
    let item = match op.route_parameter() {
        Some(ParameterSpec::Path(n, _)) => item_group(n),
        _ => Seq::empty(),
    };
    "^/v0/"@ + op.entity() + match op.path_shape() {
        PathShape::Collection => Seq::empty(),
        PathShape::Lookup => "/lookup"@,
        PathShape::Item => item,
        PathShape::ItemAction(a) => item + "/"@ + a,
    } + "$"@
}

/// Each operation is tried against the pattern of its own documented path,
/// and no two operations share a pattern: the pattern at an operation's
/// position in the set is the anchored pattern of its path, with its path
/// parameter as a named group.
pub proof fn lemma_service_patterns_match_paths()
    ensures
        forall|op: ServiceOperation|
            0 <= #[trigger] op.route_pattern_index() < route_pattern_texts().len()
                && route_pattern_texts()[op.route_pattern_index()] == documented_pattern(op),
        forall|a: ServiceOperation, b: ServiceOperation|
            a != b ==> #[trigger] a.route_pattern_index() != #[trigger] b.route_pattern_index(),
{
    reveal_strlit("^/v0/");
    reveal_strlit("$");
    reveal_strlit("/lookup");
    reveal_strlit("/(?P<");
    reveal_strlit(">[^/?#]*)");
    reveal_strlit("/");
    reveal_strlit("id");
    reveal_strlit("username");
    reveal_strlit("accept");
    reveal_strlit("changelog");
    reveal_strlit("container");
    reveal_strlit("creator");
    reveal_strlit("editgroup");
    reveal_strlit("editor");
    reveal_strlit("file");
    reveal_strlit("release");
    reveal_strlit("work");
    reveal_strlit(r"^/v0/container$");
    reveal_strlit(r"^/v0/container/lookup$");
    reveal_strlit(r"^/v0/container/(?P<id>[^/?#]*)$");
    reveal_strlit(r"^/v0/creator$");
    reveal_strlit(r"^/v0/creator/lookup$");
    reveal_strlit(r"^/v0/creator/(?P<id>[^/?#]*)$");
    reveal_strlit(r"^/v0/editgroup$");
    reveal_strlit(r"^/v0/editgroup/(?P<id>[^/?#]*)$");
    reveal_strlit(r"^/v0/editgroup/(?P<id>[^/?#]*)/accept$");
    reveal_strlit(r"^/v0/editor/(?P<username>[^/?#]*)$");
    reveal_strlit(r"^/v0/editor/(?P<username>[^/?#]*)/changelog$");
    reveal_strlit(r"^/v0/file$");
    reveal_strlit(r"^/v0/file/lookup$");
    reveal_strlit(r"^/v0/file/(?P<id>[^/?#]*)$");
    reveal_strlit(r"^/v0/release$");
    reveal_strlit(r"^/v0/release/lookup$");
    reveal_strlit(r"^/v0/release/(?P<id>[^/?#]*)$");
    reveal_strlit(r"^/v0/work$");
    reveal_strlit(r"^/v0/work/(?P<id>[^/?#]*)$");
    assert forall|op: ServiceOperation|
        0 <= #[trigger] op.route_pattern_index() < route_pattern_texts().len()
            && route_pattern_texts()[op.route_pattern_index()] == documented_pattern(op) by {
        match op {
            ServiceOperation::ContainerLookupGet => {
                assert(route_pattern_texts()[op.route_pattern_index()] =~= documented_pattern(op));
            },
            ServiceOperation::ContainerIdGet => {
                assert(route_pattern_texts()[op.route_pattern_index()] =~= documented_pattern(op));
            },
            ServiceOperation::ContainerPost => {
                assert(route_pattern_texts()[op.route_pattern_index()] =~= documented_pattern(op));
            },
            ServiceOperation::CreatorLookupGet => {
                assert(route_pattern_texts()[op.route_pattern_index()] =~= documented_pattern(op));
            },
            ServiceOperation::CreatorIdGet => {
                assert(route_pattern_texts()[op.route_pattern_index()] =~= documented_pattern(op));
            },
            ServiceOperation::CreatorPost => {
                assert(route_pattern_texts()[op.route_pattern_index()] =~= documented_pattern(op));
            },
            ServiceOperation::EditgroupIdAcceptPost => {
                assert(route_pattern_texts()[op.route_pattern_index()] =~= documented_pattern(op));
            },
            ServiceOperation::EditgroupIdGet => {
                assert(route_pattern_texts()[op.route_pattern_index()] =~= documented_pattern(op));
            },
            ServiceOperation::EditgroupPost => {
                assert(route_pattern_texts()[op.route_pattern_index()] =~= documented_pattern(op));
            },
            ServiceOperation::EditorUsernameChangelogGet => {
                assert(route_pattern_texts()[op.route_pattern_index()] =~= documented_pattern(op));
            },
            ServiceOperation::EditorUsernameGet => {
                assert(route_pattern_texts()[op.route_pattern_index()] =~= documented_pattern(op));
            },
            ServiceOperation::FileLookupGet => {
                assert(route_pattern_texts()[op.route_pattern_index()] =~= documented_pattern(op));
            },
            ServiceOperation::FileIdGet => {
                assert(route_pattern_texts()[op.route_pattern_index()] =~= documented_pattern(op));
            },
            ServiceOperation::FilePost => {
                assert(route_pattern_texts()[op.route_pattern_index()] =~= documented_pattern(op));
            },
            ServiceOperation::ReleaseLookupGet => {
                assert(route_pattern_texts()[op.route_pattern_index()] =~= documented_pattern(op));
            },
            ServiceOperation::ReleaseIdGet => {
                assert(route_pattern_texts()[op.route_pattern_index()] =~= documented_pattern(op));
            },
            ServiceOperation::ReleasePost => {
                assert(route_pattern_texts()[op.route_pattern_index()] =~= documented_pattern(op));
            },
            ServiceOperation::WorkIdGet => {
                assert(route_pattern_texts()[op.route_pattern_index()] =~= documented_pattern(op));
            },
            ServiceOperation::WorkPost => {
                assert(route_pattern_texts()[op.route_pattern_index()] =~= documented_pattern(op));
            },
        }
    }
}

/// Each operation of the service has the method and parameter its path
/// stands for: it is a POST exactly when it creates in a collection or
/// accepts an item; a lookup takes a query parameter of a plain name; a POST
/// to a collection takes the optional body `body`, if any; an operation on
/// one item takes that item's segment, `username` for an editor and `id` for
/// any other entity, read as an integer exactly for an editgroup.
pub proof fn lemma_service_operations_follow_shapes(op: ServiceOperation)
    ensures
        op.route_method() == HttpMethod::Post <==> (op.path_shape() is Collection
            || op.path_shape() == PathShape::ItemAction("accept"@)),
        op.path_shape() is Lookup ==> (op.route_parameter() matches Some(ParameterSpec::Query(n))
            && is_plain_name(n)),
        op.path_shape() is Collection ==> (op.route_parameter() is None || op.route_parameter()
            == Some(ParameterSpec::Body("body"@))),
        (op.path_shape() is Item || op.path_shape() is ItemAction) ==> (op.route_parameter()
            matches Some(ParameterSpec::Path(n, k)) && (n == (if op.entity() == "editor"@ {
            "username"@
        } else {
            "id"@
        })) && (k == ParameterKind::Integer <==> op.entity() == "editgroup"@)),
{
    reveal_strlit("accept");
    reveal_strlit("changelog");
    reveal_strlit("issn");
    reveal_strlit("orcid");
    reveal_strlit("sha1");
    reveal_strlit("doi");
    reveal_strlit("id");
    reveal_strlit("username");
    reveal_strlit("body");
    reveal_strlit("editor");
    reveal_strlit("editgroup");
    reveal_strlit("container");
    reveal_strlit("creator");
    reveal_strlit("file");
    reveal_strlit("release");
    reveal_strlit("work");
    assert("container"@.len() != "editor"@.len() || "container"@[0] != "editor"@[0]);
    assert("creator"@.len() != "editor"@.len() || "creator"@[0] != "editor"@[0]);
    assert("editgroup"@.len() != "editor"@.len() || "editgroup"@[0] != "editor"@[0]);
    assert("file"@.len() != "editor"@.len() || "file"@[0] != "editor"@[0]);
    assert("release"@.len() != "editor"@.len() || "release"@[0] != "editor"@[0]);
    assert("work"@.len() != "editor"@.len() || "work"@[0] != "editor"@[0]);
    assert("container"@.len() != "editgroup"@.len() || "container"@[0] != "editgroup"@[0]);
    assert("creator"@.len() != "editgroup"@.len() || "creator"@[0] != "editgroup"@[0]);
    assert("editor"@.len() != "editgroup"@.len() || "editor"@[0] != "editgroup"@[0]);
    assert("file"@.len() != "editgroup"@.len() || "file"@[0] != "editgroup"@[0]);
    assert("release"@.len() != "editgroup"@.len() || "release"@[0] != "editgroup"@[0]);
    assert("work"@.len() != "editgroup"@.len() || "work"@[0] != "editgroup"@[0]);
    assert("changelog"@.len() != "accept"@.len());
}

/// The first operation of `arms` whose method is `method` and whose pattern
/// matched, if any.
pub open spec fn first_match(arms: Seq<ServiceOperation>, method: HttpMethod, matched: Seq<bool>) -> Option<
    ServiceOperation,
>
    decreases arms.len(),
{
    if arms.len() == 0 {
        None
    } else if arms[0].route_method() == method && matched[arms[0].route_pattern_index()] {
        Some(arms[0])
    } else {
        first_match(arms.skip(1), method, matched)
    }
}

/// Picks the operation of a request from its method and from which patterns
/// of the set its path matched: the first operation, in the service's order,
/// whose method is the request's and whose pattern matched.
pub fn dispatch(method: HttpMethod, matched: &Vec<bool>) -> (r: Option<ServiceOperation>)
    requires
        matched@.len() == route_pattern_texts().len(),
    ensures
        r == first_match(arm_order(), method, matched@),
{
    let arms = ServiceOperation::all();
    let mut i: usize = 0;
    assert(arm_order().skip(0) =~= arm_order());
    while i < arms.len()
        invariant
            arms@ == arm_order(),
            i <= arms@.len(),
            matched@.len() == route_pattern_texts().len(),
            first_match(arm_order(), method, matched@) == first_match(
                arm_order().skip(i as int),
                method,
                matched@,
            ),
        decreases arms@.len() - i,
    {
        let op = arms[i];
        let idx = op.pattern_index();
        assert(arm_order().skip(i as int)[0] == op);
        assert(arm_order().skip(i as int).skip(1) =~= arm_order().skip(i + 1));
        if op.method() == method && matched[idx] {
            return Some(op);
        }
        i = i + 1;
    }
    assert(arm_order().skip(i as int).len() == 0);
    None
}

/// Which patterns of a set match a text, by `regex::RegexSet`, one flag per
/// pattern in the set's order; `None` when a pattern is not a valid regex.
pub uninterp spec fn regex_set_match(patterns: Seq<Seq<char>>, text: Seq<char>) -> Option<Seq<bool>>;

/// `regex::RegexSet::new` of the patterns, then `matches` of the text, read
/// as one flag per pattern (`SetMatches::matched`). Claimed: the result
/// depends on the patterns and the text alone, and is named
/// `regex_set_match`; there is one flag per pattern (the crate's
/// documentation of `SetMatches::len`). The regex semantics are not stated.
#[verifier::external_body]
fn regex_set_matches(patterns: &Vec<&'static str>, text: &str) -> (r: Option<Vec<bool>>)
    ensures
        match r {
            Some(v) => regex_set_match(patterns.deep_view(), text@) == Some(v@) && v@.len()
                == patterns@.len(),
            None => regex_set_match(patterns.deep_view(), text@) is None,
        },
{
    match regex::RegexSet::new(patterns) {
        Ok(set) => {
            let m = set.matches(text);
            Some((0..patterns.len()).map(|i| m.matched(i)).collect())
        },
        Err(_) => None,
    }
}

/// The operation that serves a request: its path is matched against the
/// pattern set and the first fitting operation is picked; `None` (answered
/// with 404) when no operation fits.
pub fn route(method: HttpMethod, path: &str) -> (r: Option<ServiceOperation>)
    ensures
        match regex_set_match(route_pattern_texts(), path@) {
            Some(m) => r == first_match(arm_order(), method, m),
            None => r is None,
        },
{
    let patterns = route_patterns();
    assert(patterns.deep_view() =~= route_pattern_texts());
    match regex_set_matches(&patterns, path) {
        Some(m) => dispatch(method, &m),
        None => None,
    }
}

/// The text of the named group of a pattern in a text, by `regex::Regex`
/// captures; `None` when the pattern is invalid, does not match, or the group
/// does not take part.
pub uninterp spec fn regex_named_capture(pattern: Seq<char>, text: Seq<char>, group: Seq<char>) -> Option<
    Seq<char>,
>;

/// `regex::Regex::new` of the pattern, `captures` of the text, and the text of
/// the group `name` (`Captures::name`, `Match::as_str`). Claimed: the result
/// depends on the three texts alone, and is named `regex_named_capture`.
#[verifier::external_body]
fn regex_capture(pattern: &str, text: &str, group: &str) -> (r: Option<String>)
    ensures
        match r {
            Some(s) => regex_named_capture(pattern@, text@, group@) == Some(s@),
            None => regex_named_capture(pattern@, text@, group@) is None,
        },
{
    match regex::Regex::new(pattern) {
        Ok(re) => match re.captures(text) {
            Some(caps) => caps.name(group).map(|m| m.as_str().to_string()),
            None => None,
        },
        Err(_) => None,
    }
}

/// The raw segment that the path parameter `name` of pattern `index` takes in `path`.
fn raw_segment(index: usize, name: &str, path: &str) -> (r: Option<String>)
    requires
        index < route_pattern_texts().len(),
    ensures
        match r {
            Some(s) => regex_named_capture(route_pattern_texts()[index as int], path@, name@)
                == Some(s@),
            None => regex_named_capture(route_pattern_texts()[index as int], path@, name@) is None,
        },
{
    let patterns = route_patterns();
    regex_capture(patterns[index], path, name)
}

/// Takes the text path parameter `name` of the pattern at `index` from
/// `path`: the captured segment, percent-decoded. A path that the pattern
/// does not capture is the server's own error.
pub fn path_parameter_text_at(index: usize, name: &str, path: &str) -> (r: Result<String, Rejection>)
    requires
        index < route_pattern_texts().len(),
    ensures
        match regex_named_capture(route_pattern_texts()[index as int], path@, name@) {
            None => r matches Err(e) && e.status == INTERNAL_SERVER_ERROR && e.message@
                == "An internal error occurred"@,
            Some(raw) => match percent_decoded_text(raw) {
                Some(t) => r matches Ok(v) && v@ == t,
                None => r matches Err(e) && e.status == BAD_REQUEST && e.message@
                    == "Couldn't percent-decode path parameter as UTF-8: "@ + raw,
            },
        },
{
    match raw_segment(index, name, path) {
        None => Err(internal_error()),
        Some(raw) => path_parameter_text(name, Some(raw.as_str())),
    }
}

/// Takes the integer path parameter `name` of the pattern at `index` from
/// `path`: the captured segment, percent-decoded, read as a decimal `i32`.
pub fn path_parameter_i32_at(index: usize, name: &str, path: &str) -> (r: Result<i32, Rejection>)
    requires
        index < route_pattern_texts().len(),
    ensures
        match regex_named_capture(route_pattern_texts()[index as int], path@, name@) {
            None => r matches Err(e) && e.status == INTERNAL_SERVER_ERROR && e.message@
                == "An internal error occurred"@,
            Some(raw) => match percent_decoded_text(raw) {
                None => r matches Err(e) && e.status == BAD_REQUEST && e.message@
                    == "Couldn't percent-decode path parameter as UTF-8: "@ + raw,
                Some(t) => match spec_parse_i32(t) {
                    Ok(n) => r matches Ok(v) && v as int == n,
                    Err(k) => r matches Err(e) && e.status == BAD_REQUEST && e.message@
                        == "Couldn't parse path parameter "@ + name@ + ": "@
                        + spec_int_error_message(k),
                },
            },
        },
{
    let text = path_parameter_text_at(index, name, path)?;
    match parse_i32(text.as_str()) {
        Ok(v) => Ok(v),
        Err(k) => {
            let mut m = String::from_str("Couldn't parse path parameter ");
            m.append(name);
            m.append(": ");
            m.append(k.message());
            Err(Rejection { status: BAD_REQUEST, message: m })
        },
    }
}

/// The name-value pairs of an `application/x-www-form-urlencoded` text, by
/// `url::form_urlencoded::parse`.
pub uninterp spec fn form_urlencoded_pairs(query: Seq<char>) -> Seq<(Seq<char>, Seq<char>)>;

/// The position of the first `b` in `bytes`, or the length of `bytes` when
/// there is none.
pub open spec fn position_of(bytes: Seq<u8>, b: u8) -> nat
    decreases bytes.len(),
{
    if bytes.len() == 0 {
        0
    } else if bytes[0] == b {
        0
    } else {
        1 + position_of(bytes.skip(1), b)
    }
}

/// The raw name and value of one `&`-separated sequence of a form text: the
/// bytes before its first `=`, and those after it (none when it has no `=`).
pub open spec fn form_pair_of(sequence: Seq<u8>) -> (Seq<u8>, Seq<u8>) {
    let e = position_of(sequence, 0x3d) as int;
    (sequence.take(e), if e < sequence.len() { sequence.skip(e + 1) } else { Seq::empty() })
}

/// The raw name-value pairs of a form text: its `&`-separated sequences,
/// empty ones left out, each split at its first `=`.
pub open spec fn form_byte_pairs(bytes: Seq<u8>) -> Seq<(Seq<u8>, Seq<u8>)>
    decreases bytes.len(),
{
    if bytes.len() == 0 {
        Seq::empty()
    } else {
        let k = position_of(bytes, 0x26) as int;
        let sequence = bytes.take(k);
        let rest = if k < bytes.len() { bytes.skip(k + 1) } else { Seq::empty() };
        (if sequence.len() == 0 { Seq::empty() } else { seq![form_pair_of(sequence)] })
            + form_byte_pairs(rest)
    }
}

/// `url::form_urlencoded::parse` of the bytes of `query`, each pair owned.
/// Claimed: the result depends on the text alone, and is named
/// `form_urlencoded_pairs`; as the crate's source shows, there is one pair
/// per non-empty `&`-separated sequence, split at its first `=`, and each
/// name and value is the text of its bytes with `+` read as a space and then
/// percent-decoded. That text is stated where those bytes are valid UTF-8;
/// where they are not, the crate puts replacement characters in, which is
/// not stated.
#[verifier::external_body]
fn form_pairs(query: &str) -> (r: Vec<(String, String)>)
    ensures
        r.deep_view() == form_urlencoded_pairs(query@),
        r@.len() == form_byte_pairs(encode_utf8(query@)).len(),
        forall|i: int|
            0 <= i < r@.len() ==> {
                let raw = #[trigger] form_byte_pairs(encode_utf8(query@))[i];
                &&& valid_utf8(form_decoded_bytes(raw.0)) ==> r@[i].0@ == decode_utf8(
                    form_decoded_bytes(raw.0),
                )
                &&& valid_utf8(form_decoded_bytes(raw.1)) ==> r@[i].1@ == decode_utf8(
                    form_decoded_bytes(raw.1),
                )
            },
{
    url::form_urlencoded::parse(query.as_bytes()).into_owned().collect()
}

proof fn lemma_position_of_split(x: Seq<u8>, b: u8, y: Seq<u8>)
    requires
        forall|i: int| 0 <= i < x.len() ==> #[trigger] x[i] != b,
    ensures
        position_of(x + seq![b] + y, b) == x.len(),
    decreases x.len(),
{
    let whole = x + seq![b] + y;
    if x.len() == 0 {
        assert(whole[0] == b);
    } else {
        assert(whole[0] == x[0]);
        lemma_position_of_split(x.skip(1), b, y);
        assert(whole.skip(1) =~= x.skip(1) + seq![b] + y);
    }
}

/// The raw pairs of the query that a client writes for one parameter with a
/// plain name: that name and the bytes the value stands as, and nothing else.
proof fn lemma_value_query_pairs(name: Seq<char>, value: Seq<char>)
    requires
        is_plain_name(name),
    ensures
        form_byte_pairs(encode_utf8(value_query(name, value))) == seq![
            (encode_utf8(name), query_value_bytes(value)),
        ],
{
    let bn = encode_utf8(name);
    let bv = query_value_bytes(value);
    lemma_plain_name_bytes(name);
    lemma_query_value_bytes(value);
    lemma_value_query_bytes(name, value);
    let x = bn + seq![0x3du8] + bv;
    let bytes = x + seq![0x26u8] + Seq::<u8>::empty();
    assert(encode_utf8(value_query(name, value)) =~= bytes);
    assert forall|i: int| 0 <= i < x.len() implies #[trigger] x[i] != 0x26u8 by {
        if i < bn.len() {
            assert(x[i] == bn[i]);
        } else if i > bn.len() {
            assert(x[i] == bv[i - bn.len() - 1]);
        }
    }
    lemma_position_of_split(x, 0x26u8, Seq::<u8>::empty());
    assert(bytes.take(x.len() as int) =~= x);
    assert(bytes.skip(x.len() as int + 1) =~= Seq::<u8>::empty());
    assert forall|i: int| 0 <= i < bn.len() implies #[trigger] bn[i] != 0x3du8 by {}
    lemma_position_of_split(bn, 0x3du8, bv);
    assert(x.take(bn.len() as int) =~= bn);
    assert(x.skip(bn.len() as int + 1) =~= bv);
    assert(form_pair_of(x) == (bn, bv));
    assert(form_byte_pairs(Seq::<u8>::empty()) == Seq::<(Seq<u8>, Seq<u8>)>::empty());
    assert(form_byte_pairs(bytes) =~= seq![(bn, bv)]);
}

/// The value of the first pair named `name`, if any.
pub open spec fn first_value(pairs: Seq<(Seq<char>, Seq<char>)>, name: Seq<char>) -> Option<Seq<char>>
    decreases pairs.len(),
{
    if pairs.len() == 0 {
        None
    } else if pairs[0].0 == name {
        Some(pairs[0].1)
    } else {
        first_value(pairs.skip(1), name)
    }
}

/// The value of the first pair named `name` among the decoded pairs of a
/// query, if any.
pub fn first_value_of(pairs: &Vec<(String, String)>, name: &str) -> (r: Option<String>)
    ensures
        match first_value(pairs.deep_view(), name@) {
            Some(v) => r matches Some(s) && s@ == v,
            None => r is None,
        },
{
    let ghost ps = pairs.deep_view();
    let wanted = String::from_str(name);
    let mut i: usize = 0;
    assert(ps.skip(0) =~= ps);
    while i < pairs.len()
        invariant
            ps == pairs.deep_view(),
            i <= pairs@.len(),
            wanted@ == name@,
            first_value(ps, name@) == first_value(ps.skip(i as int), name@),
        decreases pairs@.len() - i,
    {
        assert(ps.skip(i as int)[0] == ps[i as int]);
        assert(ps.skip(i as int).skip(1) =~= ps.skip(i + 1));
        assert(ps[i as int] == (pairs@[i as int].0@, pairs@[i as int].1@));
        if pairs[i].0 == wanted {
            return Some(pairs[i].1.clone());
        }
        i = i + 1;
    }
    assert(ps.skip(i as int).len() == 0);
    None
}

/// Takes the required query parameter `name` from the query string of a
/// request (`None` when the request has none): the value of its first pair
/// named `name`.
pub fn query_parameter_in(name: &str, query: Option<&str>) -> (r: Result<String, Rejection>)
    ensures
        match first_value(
            form_urlencoded_pairs(
                match query {
                    Some(q) => q@,
                    None => Seq::empty(),
                },
            ),
            name@,
        ) {
            Some(v) => r matches Ok(s) && s@ == v,
            None => r matches Err(e) && e.status == BAD_REQUEST && e.message@
                == "Missing required query parameter "@ + name@,
        },
        query matches Some(q) ==> forall|v: Seq<char>|
            is_plain_name(name@) && q@ == #[trigger] value_query(name@, v) ==> (r matches Ok(
                s,
            ) && s@ == v),
{
    let q = match query {
        Some(q) => q,
        None => "",
    };
    proof {
        reveal_strlit("");
    }
    assert(query is None ==> q@ =~= Seq::<char>::empty());
    let pairs = form_pairs(q);
    let ghost ps = pairs.deep_view();
    proof {
        assert forall|v: Seq<char>|
            is_plain_name(name@) && q@ == #[trigger] value_query(name@, v) implies first_value(
            ps,
            name@,
        ) == Some(v) by {
            lemma_value_query_pairs(name@, v);
            lemma_plain_name_bytes(name@);
            lemma_query_value_bytes(v);
            let bv = query_value_bytes(v);
            assert(plus_as_space(bv) =~= bv);
            encode_utf8_valid_utf8(v);
            encode_utf8_decode_utf8(v);
            let raw = form_byte_pairs(encode_utf8(q@))[0];
            assert(raw == (encode_utf8(name@), bv));
            assert(form_decoded_bytes(raw.0) == encode_utf8(name@));
            assert(form_decoded_bytes(raw.1) == encode_utf8(v));
            assert(pairs@.len() == 1);
            assert(ps[0] == (pairs@[0].0@, pairs@[0].1@));
            assert(ps[0] == (name@, v));
        }
    }
    match first_value_of(&pairs, name) {
        Some(v) => Ok(v),
        None => {
            let mut m = String::from_str("Missing required query parameter ");
            m.append(name);
            Err(Rejection { status: BAD_REQUEST, message: m })
        },
    }
}

/// The answer when the body of a request could not be read; `detail` describes why.
pub fn body_unread(detail: &str) -> (r: Rejection)
    ensures
        r.status == BAD_REQUEST,
        r.message@ == "Couldn't read body parameter body: "@ + detail@,
{
    let mut m = String::from_str("Couldn't read body parameter body: ");
    m.append(detail);
    Rejection { status: BAD_REQUEST, message: m }
}

/// The optional body parameter, from what an empty body (`None`) or the JSON
/// of a non-empty one parsed to: a body that does not parse counts as none.
pub fn optional_body<T, E>(parsed: Option<Result<Option<T>, E>>) -> (r: Option<T>)
    ensures
        match parsed {
            Some(Ok(v)) => r == v,
            _ => r is None,
        },
{
    match parsed {
        Some(Ok(v)) => v,
        _ => None,
    }
}

/// The span identifier a request is handled under: the one its context
/// already carries, else the one its `X-Span-ID` header gives, else a fresh
/// random UUID.
pub fn context_span_id(current: Option<String>, header: Option<String>) -> (r: String)
    ensures
        current matches Some(c) ==> r == c,
        current is None ==> (header matches Some(h) ==> r == h),
        current is None ==> (header is None ==> is_random_uuid(r@)),
{
    match current {
        Some(c) => c,
        None => span_id(header),
    }
}

/// The answer to a request that no operation serves: 404, with no body.
pub fn not_found() -> (r: Rejection)
    ensures
        r.status == NOT_FOUND,
        r.message@.len() == 0,
{
    Rejection { status: NOT_FOUND, message: String::new() }
}

/// The statuses of an operation's answers come in the order of its response
/// variants: the success first (201 for a POST that creates, 200 for any
/// other), then the bad-request and the not-found answers where it has them
/// (400 before 404), and the generic error (0) last.
pub proof fn lemma_service_statuses_in_order(op: ServiceOperation)
    ensures
        op.response_status_seq().len() >= 2,
        op.response_status_seq().last() == 0,
        op.response_status_seq()[0] == 201 <==> (op.route_method() == HttpMethod::Post && op
            != ServiceOperation::EditgroupIdAcceptPost),
        op.response_status_seq()[0] == 200 <==> !(op.route_method() == HttpMethod::Post && op
            != ServiceOperation::EditgroupIdAcceptPost),
        forall|i: int|
            0 < i < op.response_status_seq().len() - 1 ==> #[trigger] op.response_status_seq()[i]
                == 400 || op.response_status_seq()[i] == 404,
        forall|i: int, j: int|
            0 <= i < j < op.response_status_seq().len() - 1 ==> #[trigger] op.response_status_seq()[i]
                < #[trigger] op.response_status_seq()[j],
{
}

/// Each status belongs to one response variant of an operation only: a
/// client that reads a response by its status reads it as the variant the
/// server answered with.
pub proof fn lemma_response_statuses_distinct(op: ServiceOperation, i: int, j: int)
    requires
        0 <= i < op.response_status_seq().len(),
        0 <= j < op.response_status_seq().len(),
        i != j,
    ensures
        op.response_status_seq()[i] != op.response_status_seq()[j],
{
}

/// Every pattern that matched is one of the patterns at positions `lo` to
/// `hi`: those of one entity's routes.
pub open spec fn matched_within(matched: Seq<bool>, lo: int, hi: int) -> bool {
    forall|j: int| 0 <= j < matched.len() && #[trigger] matched[j] ==> lo <= j <= hi
}

/// Each documented lookup route is reachable: a GET whose path matches an
/// entity's lookup pattern, and no pattern of another entity, is served by
/// that entity's lookup operation, though the entity's identifier pattern
/// also takes `lookup`.
pub proof fn lemma_lookup_routes_reached(matched: Seq<bool>)
    requires
        matched.len() == route_pattern_texts().len(),
    ensures
        matched[1] && matched_within(matched, 0, 2) ==> first_match(
            arm_order(),
            HttpMethod::Get,
            matched,
        ) == Some(ServiceOperation::ContainerLookupGet),
        matched[4] && matched_within(matched, 3, 5) ==> first_match(
            arm_order(),
            HttpMethod::Get,
            matched,
        ) == Some(ServiceOperation::CreatorLookupGet),
        matched[12] && matched_within(matched, 11, 13) ==> first_match(
            arm_order(),
            HttpMethod::Get,
            matched,
        ) == Some(ServiceOperation::FileLookupGet),
        matched[15] && matched_within(matched, 14, 16) ==> first_match(
            arm_order(),
            HttpMethod::Get,
            matched,
        ) == Some(ServiceOperation::ReleaseLookupGet),
{
    reveal_with_fuel(first_match, 20);
    if matched_within(matched, 3, 5) {
        assert(!matched[0] && !matched[1] && !matched[2]);
    }
    if matched_within(matched, 11, 13) {
        assert(!matched[1] && !matched[2] && !matched[4] && !matched[5] && !matched[7]
            && !matched[9] && !matched[10]);
    }
    if matched_within(matched, 14, 16) {
        assert(!matched[1] && !matched[2] && !matched[4] && !matched[5] && !matched[7]
            && !matched[9] && !matched[10] && !matched[12] && !matched[13]);
    }
}

} // verus!
