//! Request handling of the API server: the route of every operation, and the
//! rules by which path, query and body parameters are taken from a request,
//! with the answer given when one is missing or malformed.

use vstd::prelude::*;
use crate::decimal::{parse_i64, spec_parse_i64, spec_int_error_message, IntErrorKind};
use crate::percent::{is_plain_name, percent_decode_utf8, percent_decoded_text};
use crate::responses::{
    AcceptEditgroupResponse, CreateContainerResponse, CreateContainerBatchResponse, CreateCreatorResponse, CreateCreatorBatchResponse, CreateEditgroupResponse, CreateFileResponse, CreateFileBatchResponse, CreateReleaseResponse, CreateReleaseBatchResponse, CreateWorkResponse, CreateWorkBatchResponse, GetContainerResponse, GetCreatorResponse, GetCreatorReleasesResponse, GetEditgroupResponse, GetEditorResponse, GetEditorChangelogResponse, GetFileResponse, GetReleaseResponse, GetReleaseFilesResponse, GetWorkResponse, GetWorkReleasesResponse, LookupContainerResponse, LookupCreatorResponse, LookupFileResponse, LookupReleaseResponse,
};

verus! {

/// The HTTP methods that the API's routes use.
#[derive(Debug, Clone, Copy, PartialEq, Eq, Structural)]
pub enum HttpMethod {
    Get,
    Post,
}

/// The type a path parameter is read as.
#[derive(Debug, Clone, Copy, PartialEq, Eq)]
pub enum ParameterKind {
    /// A decimal `i64`.
    Integer,
    /// Text.
    Text,
}

/// Where an operation takes its one parameter from, and its name there.
#[derive(Debug, Clone, Copy, PartialEq, Eq)]
pub enum Parameter {
    /// A segment of the route's path.
    Path { name: &'static str, kind: ParameterKind },
    /// A required query parameter.
    Query { name: &'static str },
    /// The JSON body of the request.
    Body { name: &'static str },
}

/// The operations of the API, one route each.
#[derive(Debug, Clone, Copy, PartialEq, Eq)]
pub enum Operation {
    AcceptEditgroup,
    CreateContainer,
    CreateContainerBatch,
    CreateCreator,
    CreateCreatorBatch,
    CreateEditgroup,
    CreateFile,
    CreateFileBatch,
    CreateRelease,
    CreateReleaseBatch,
    CreateWork,
    CreateWorkBatch,
    GetContainer,
    GetCreator,
    GetCreatorReleases,
    GetEditgroup,
    GetEditor,
    GetEditorChangelog,
    GetFile,
    GetRelease,
    GetReleaseFiles,
    GetWork,
    GetWorkReleases,
    LookupContainer,
    LookupCreator,
    LookupFile,
    LookupRelease,
}

impl Operation {
    pub open spec fn route_id(self) -> Seq<char> {
        match self {
            Operation::AcceptEditgroup => "AcceptEditgroup"@,
            Operation::CreateContainer => "CreateContainer"@,
            Operation::CreateContainerBatch => "CreateContainerBatch"@,
            Operation::CreateCreator => "CreateCreator"@,
            Operation::CreateCreatorBatch => "CreateCreatorBatch"@,
            Operation::CreateEditgroup => "CreateEditgroup"@,
            Operation::CreateFile => "CreateFile"@,
            Operation::CreateFileBatch => "CreateFileBatch"@,
            Operation::CreateRelease => "CreateRelease"@,
            Operation::CreateReleaseBatch => "CreateReleaseBatch"@,
            Operation::CreateWork => "CreateWork"@,
            Operation::CreateWorkBatch => "CreateWorkBatch"@,
            Operation::GetContainer => "GetContainer"@,
            Operation::GetCreator => "GetCreator"@,
            Operation::GetCreatorReleases => "GetCreatorReleases"@,
            Operation::GetEditgroup => "GetEditgroup"@,
            Operation::GetEditor => "GetEditor"@,
            Operation::GetEditorChangelog => "GetEditorChangelog"@,
            Operation::GetFile => "GetFile"@,
            Operation::GetRelease => "GetRelease"@,
            Operation::GetReleaseFiles => "GetReleaseFiles"@,
            Operation::GetWork => "GetWork"@,
            Operation::GetWorkReleases => "GetWorkReleases"@,
            Operation::LookupContainer => "LookupContainer"@,
            Operation::LookupCreator => "LookupCreator"@,
            Operation::LookupFile => "LookupFile"@,
            Operation::LookupRelease => "LookupRelease"@,
        }
    }

    pub open spec fn route_method(self) -> HttpMethod {
        match self {
            Operation::AcceptEditgroup => HttpMethod::Post,
            Operation::CreateContainer => HttpMethod::Post,
            Operation::CreateContainerBatch => HttpMethod::Post,
            Operation::CreateCreator => HttpMethod::Post,
            Operation::CreateCreatorBatch => HttpMethod::Post,
            Operation::CreateEditgroup => HttpMethod::Post,
            Operation::CreateFile => HttpMethod::Post,
            Operation::CreateFileBatch => HttpMethod::Post,
            Operation::CreateRelease => HttpMethod::Post,
            Operation::CreateReleaseBatch => HttpMethod::Post,
            Operation::CreateWork => HttpMethod::Post,
            Operation::CreateWorkBatch => HttpMethod::Post,
            Operation::GetContainer => HttpMethod::Get,
            Operation::GetCreator => HttpMethod::Get,
            Operation::GetCreatorReleases => HttpMethod::Get,
            Operation::GetEditgroup => HttpMethod::Get,
            Operation::GetEditor => HttpMethod::Get,
            Operation::GetEditorChangelog => HttpMethod::Get,
            Operation::GetFile => HttpMethod::Get,
            Operation::GetRelease => HttpMethod::Get,
            Operation::GetReleaseFiles => HttpMethod::Get,
            Operation::GetWork => HttpMethod::Get,
            Operation::GetWorkReleases => HttpMethod::Get,
            Operation::LookupContainer => HttpMethod::Get,
            Operation::LookupCreator => HttpMethod::Get,
            Operation::LookupFile => HttpMethod::Get,
            Operation::LookupRelease => HttpMethod::Get,
        }
    }

    pub open spec fn route_path(self) -> Seq<char> {
        match self {
            Operation::AcceptEditgroup => "/v0/editgroup/:id/accept"@,
            Operation::CreateContainer => "/v0/container"@,
            Operation::CreateContainerBatch => "/v0/container/batch"@,
            Operation::CreateCreator => "/v0/creator"@,
            Operation::CreateCreatorBatch => "/v0/creator/batch"@,
            Operation::CreateEditgroup => "/v0/editgroup"@,
            Operation::CreateFile => "/v0/file"@,
            Operation::CreateFileBatch => "/v0/file/batch"@,
            Operation::CreateRelease => "/v0/release"@,
            Operation::CreateReleaseBatch => "/v0/release/batch"@,
            Operation::CreateWork => "/v0/work"@,
            Operation::CreateWorkBatch => "/v0/work/batch"@,
            Operation::GetContainer => "/v0/container/:id"@,
            Operation::GetCreator => "/v0/creator/:id"@,
            Operation::GetCreatorReleases => "/v0/creator/:id/releases"@,
            Operation::GetEditgroup => "/v0/editgroup/:id"@,
            Operation::GetEditor => "/v0/editor/:username"@,
            Operation::GetEditorChangelog => "/v0/editor/:username/changelog"@,
            Operation::GetFile => "/v0/file/:id"@,
            Operation::GetRelease => "/v0/release/:id"@,
            Operation::GetReleaseFiles => "/v0/release/:id/files"@,
            Operation::GetWork => "/v0/work/:id"@,
            Operation::GetWorkReleases => "/v0/work/:id/releases"@,
            Operation::LookupContainer => "/v0/container/lookup"@,
            Operation::LookupCreator => "/v0/creator/lookup"@,
            Operation::LookupFile => "/v0/file/lookup"@,
            Operation::LookupRelease => "/v0/release/lookup"@,
        }
    }

    pub open spec fn route_parameter(self) -> ParameterSpec {
        match self {
            Operation::AcceptEditgroup => ParameterSpec::Path("id"@, ParameterKind::Integer),
            Operation::CreateContainer => ParameterSpec::Body("entity"@),
            Operation::CreateContainerBatch => ParameterSpec::Body("entity_list"@),
            Operation::CreateCreator => ParameterSpec::Body("entity"@),
            Operation::CreateCreatorBatch => ParameterSpec::Body("entity_list"@),
            Operation::CreateEditgroup => ParameterSpec::Body("entity"@),
            Operation::CreateFile => ParameterSpec::Body("entity"@),
            Operation::CreateFileBatch => ParameterSpec::Body("entity_list"@),
            Operation::CreateRelease => ParameterSpec::Body("entity"@),
            Operation::CreateReleaseBatch => ParameterSpec::Body("entity_list"@),
            Operation::CreateWork => ParameterSpec::Body("entity"@),
            Operation::CreateWorkBatch => ParameterSpec::Body("entity_list"@),
            Operation::GetContainer => ParameterSpec::Path("id"@, ParameterKind::Text),
            Operation::GetCreator => ParameterSpec::Path("id"@, ParameterKind::Text),
            Operation::GetCreatorReleases => ParameterSpec::Path("id"@, ParameterKind::Text),
            Operation::GetEditgroup => ParameterSpec::Path("id"@, ParameterKind::Integer),
            Operation::GetEditor => ParameterSpec::Path("username"@, ParameterKind::Text),
            Operation::GetEditorChangelog => ParameterSpec::Path("username"@, ParameterKind::Text),
            Operation::GetFile => ParameterSpec::Path("id"@, ParameterKind::Text),
            Operation::GetRelease => ParameterSpec::Path("id"@, ParameterKind::Text),
            Operation::GetReleaseFiles => ParameterSpec::Path("id"@, ParameterKind::Text),
            Operation::GetWork => ParameterSpec::Path("id"@, ParameterKind::Text),
            Operation::GetWorkReleases => ParameterSpec::Path("id"@, ParameterKind::Text),
            Operation::LookupContainer => ParameterSpec::Query("issnl"@),
            Operation::LookupCreator => ParameterSpec::Query("orcid"@),
            Operation::LookupFile => ParameterSpec::Query("sha1"@),
            Operation::LookupRelease => ParameterSpec::Query("doi"@),
        }
    }

    /// The route's identifier, unique among the routes.
    pub fn name(&self) -> (r: &'static str)
        ensures
            r@ == self.route_id(),
    {
        match self {
            Operation::AcceptEditgroup => "AcceptEditgroup",
            Operation::CreateContainer => "CreateContainer",
            Operation::CreateContainerBatch => "CreateContainerBatch",
            Operation::CreateCreator => "CreateCreator",
            Operation::CreateCreatorBatch => "CreateCreatorBatch",
            Operation::CreateEditgroup => "CreateEditgroup",
            Operation::CreateFile => "CreateFile",
            Operation::CreateFileBatch => "CreateFileBatch",
            Operation::CreateRelease => "CreateRelease",
            Operation::CreateReleaseBatch => "CreateReleaseBatch",
            Operation::CreateWork => "CreateWork",
            Operation::CreateWorkBatch => "CreateWorkBatch",
            Operation::GetContainer => "GetContainer",
            Operation::GetCreator => "GetCreator",
            Operation::GetCreatorReleases => "GetCreatorReleases",
            Operation::GetEditgroup => "GetEditgroup",
            Operation::GetEditor => "GetEditor",
            Operation::GetEditorChangelog => "GetEditorChangelog",
            Operation::GetFile => "GetFile",
            Operation::GetRelease => "GetRelease",
            Operation::GetReleaseFiles => "GetReleaseFiles",
            Operation::GetWork => "GetWork",
            Operation::GetWorkReleases => "GetWorkReleases",
            Operation::LookupContainer => "LookupContainer",
            Operation::LookupCreator => "LookupCreator",
            Operation::LookupFile => "LookupFile",
            Operation::LookupRelease => "LookupRelease",
        }
    }

    /// The HTTP method of the route.
    pub fn method(&self) -> (r: HttpMethod)
        ensures
            r == self.route_method(),
    {
        match self {
            Operation::AcceptEditgroup => HttpMethod::Post,
            Operation::CreateContainer => HttpMethod::Post,
            Operation::CreateContainerBatch => HttpMethod::Post,
            Operation::CreateCreator => HttpMethod::Post,
            Operation::CreateCreatorBatch => HttpMethod::Post,
            Operation::CreateEditgroup => HttpMethod::Post,
            Operation::CreateFile => HttpMethod::Post,
            Operation::CreateFileBatch => HttpMethod::Post,
            Operation::CreateRelease => HttpMethod::Post,
            Operation::CreateReleaseBatch => HttpMethod::Post,
            Operation::CreateWork => HttpMethod::Post,
            Operation::CreateWorkBatch => HttpMethod::Post,
            Operation::GetContainer => HttpMethod::Get,
            Operation::GetCreator => HttpMethod::Get,
            Operation::GetCreatorReleases => HttpMethod::Get,
            Operation::GetEditgroup => HttpMethod::Get,
            Operation::GetEditor => HttpMethod::Get,
            Operation::GetEditorChangelog => HttpMethod::Get,
            Operation::GetFile => HttpMethod::Get,
            Operation::GetRelease => HttpMethod::Get,
            Operation::GetReleaseFiles => HttpMethod::Get,
            Operation::GetWork => HttpMethod::Get,
            Operation::GetWorkReleases => HttpMethod::Get,
            Operation::LookupContainer => HttpMethod::Get,
            Operation::LookupCreator => HttpMethod::Get,
            Operation::LookupFile => HttpMethod::Get,
            Operation::LookupRelease => HttpMethod::Get,
        }
    }

    /// The route's path pattern; a segment `:name` stands for a path parameter.
    pub fn path(&self) -> (r: &'static str)
        ensures
            r@ == self.route_path(),
    {
        match self {
            Operation::AcceptEditgroup => "/v0/editgroup/:id/accept",
            Operation::CreateContainer => "/v0/container",
            Operation::CreateContainerBatch => "/v0/container/batch",
            Operation::CreateCreator => "/v0/creator",
            Operation::CreateCreatorBatch => "/v0/creator/batch",
            Operation::CreateEditgroup => "/v0/editgroup",
            Operation::CreateFile => "/v0/file",
            Operation::CreateFileBatch => "/v0/file/batch",
            Operation::CreateRelease => "/v0/release",
            Operation::CreateReleaseBatch => "/v0/release/batch",
            Operation::CreateWork => "/v0/work",
            Operation::CreateWorkBatch => "/v0/work/batch",
            Operation::GetContainer => "/v0/container/:id",
            Operation::GetCreator => "/v0/creator/:id",
            Operation::GetCreatorReleases => "/v0/creator/:id/releases",
            Operation::GetEditgroup => "/v0/editgroup/:id",
            Operation::GetEditor => "/v0/editor/:username",
            Operation::GetEditorChangelog => "/v0/editor/:username/changelog",
            Operation::GetFile => "/v0/file/:id",
            Operation::GetRelease => "/v0/release/:id",
            Operation::GetReleaseFiles => "/v0/release/:id/files",
            Operation::GetWork => "/v0/work/:id",
            Operation::GetWorkReleases => "/v0/work/:id/releases",
            Operation::LookupContainer => "/v0/container/lookup",
            Operation::LookupCreator => "/v0/creator/lookup",
            Operation::LookupFile => "/v0/file/lookup",
            Operation::LookupRelease => "/v0/release/lookup",
        }
    }

    /// The one parameter the operation takes, and where it comes from.
    pub fn parameter(&self) -> (r: Parameter)
        ensures
            r.spec() == self.route_parameter(),
    {
        match self {
            Operation::AcceptEditgroup => Parameter::Path { name: "id", kind: ParameterKind::Integer },
            Operation::CreateContainer => Parameter::Body { name: "entity" },
            Operation::CreateContainerBatch => Parameter::Body { name: "entity_list" },
            Operation::CreateCreator => Parameter::Body { name: "entity" },
            Operation::CreateCreatorBatch => Parameter::Body { name: "entity_list" },
            Operation::CreateEditgroup => Parameter::Body { name: "entity" },
            Operation::CreateFile => Parameter::Body { name: "entity" },
            Operation::CreateFileBatch => Parameter::Body { name: "entity_list" },
            Operation::CreateRelease => Parameter::Body { name: "entity" },
            Operation::CreateReleaseBatch => Parameter::Body { name: "entity_list" },
            Operation::CreateWork => Parameter::Body { name: "entity" },
            Operation::CreateWorkBatch => Parameter::Body { name: "entity_list" },
            Operation::GetContainer => Parameter::Path { name: "id", kind: ParameterKind::Text },
            Operation::GetCreator => Parameter::Path { name: "id", kind: ParameterKind::Text },
            Operation::GetCreatorReleases => Parameter::Path { name: "id", kind: ParameterKind::Text },
            Operation::GetEditgroup => Parameter::Path { name: "id", kind: ParameterKind::Integer },
            Operation::GetEditor => Parameter::Path { name: "username", kind: ParameterKind::Text },
            Operation::GetEditorChangelog => Parameter::Path { name: "username", kind: ParameterKind::Text },
            Operation::GetFile => Parameter::Path { name: "id", kind: ParameterKind::Text },
            Operation::GetRelease => Parameter::Path { name: "id", kind: ParameterKind::Text },
            Operation::GetReleaseFiles => Parameter::Path { name: "id", kind: ParameterKind::Text },
            Operation::GetWork => Parameter::Path { name: "id", kind: ParameterKind::Text },
            Operation::GetWorkReleases => Parameter::Path { name: "id", kind: ParameterKind::Text },
            Operation::LookupContainer => Parameter::Query { name: "issnl" },
            Operation::LookupCreator => Parameter::Query { name: "orcid" },
            Operation::LookupFile => Parameter::Query { name: "sha1" },
            Operation::LookupRelease => Parameter::Query { name: "doi" },
        }
    }

    /// Every operation, in the order its route is added to a router.
    pub fn all() -> (r: Vec<Operation>)
        ensures
            r@ == all_operations(),
    {
        vec![
            Operation::AcceptEditgroup,
            Operation::CreateContainer,
            Operation::CreateContainerBatch,
            Operation::CreateCreator,
            Operation::CreateCreatorBatch,
            Operation::CreateEditgroup,
            Operation::CreateFile,
            Operation::CreateFileBatch,
            Operation::CreateRelease,
            Operation::CreateReleaseBatch,
            Operation::CreateWork,
            Operation::CreateWorkBatch,
            Operation::GetContainer,
            Operation::GetCreator,
            Operation::GetCreatorReleases,
            Operation::GetEditgroup,
            Operation::GetEditor,
            Operation::GetEditorChangelog,
            Operation::GetFile,
            Operation::GetRelease,
            Operation::GetReleaseFiles,
            Operation::GetWork,
            Operation::GetWorkReleases,
            Operation::LookupContainer,
            Operation::LookupCreator,
            Operation::LookupFile,
            Operation::LookupRelease
        ]
    }
}

/// Every operation, in the order its route is added to a router.
pub open spec fn all_operations() -> Seq<Operation> {
    seq![
        Operation::AcceptEditgroup,
        Operation::CreateContainer,
        Operation::CreateContainerBatch,
        Operation::CreateCreator,
        Operation::CreateCreatorBatch,
        Operation::CreateEditgroup,
        Operation::CreateFile,
        Operation::CreateFileBatch,
        Operation::CreateRelease,
        Operation::CreateReleaseBatch,
        Operation::CreateWork,
        Operation::CreateWorkBatch,
        Operation::GetContainer,
        Operation::GetCreator,
        Operation::GetCreatorReleases,
        Operation::GetEditgroup,
        Operation::GetEditor,
        Operation::GetEditorChangelog,
        Operation::GetFile,
        Operation::GetRelease,
        Operation::GetReleaseFiles,
        Operation::GetWork,
        Operation::GetWorkReleases,
        Operation::LookupContainer,
        Operation::LookupCreator,
        Operation::LookupFile,
        Operation::LookupRelease
    ]
}

/// The length and two characters of a route identifier, which tell the
/// identifiers apart.
spec fn route_id_key(op: Operation) -> (nat, char, char) {
    match op {
            Operation::AcceptEditgroup => (15, 'e', 'E'),
            Operation::CreateContainer => (15, 'a', 'C'),
            Operation::CreateContainerBatch => (20, 'a', 'C'),
            Operation::CreateCreator => (13, 'a', 'C'),
            Operation::CreateCreatorBatch => (18, 'a', 'C'),
            Operation::CreateEditgroup => (15, 'a', 'E'),
            Operation::CreateFile => (10, 'a', 'F'),
            Operation::CreateFileBatch => (15, 'a', 'F'),
            Operation::CreateRelease => (13, 'a', 'R'),
            Operation::CreateReleaseBatch => (18, 'a', 'R'),
            Operation::CreateWork => (10, 'a', 'W'),
            Operation::CreateWorkBatch => (15, 'a', 'W'),
            Operation::GetContainer => (12, 'C', 't'),
            Operation::GetCreator => (10, 'C', 'a'),
            Operation::GetCreatorReleases => (18, 'C', 'a'),
            Operation::GetEditgroup => (12, 'E', 't'),
            Operation::GetEditor => (9, 'E', 't'),
            Operation::GetEditorChangelog => (18, 'E', 't'),
            Operation::GetFile => (7, 'F', 'e'),
            Operation::GetRelease => (10, 'R', 'e'),
            Operation::GetReleaseFiles => (15, 'R', 'e'),
            Operation::GetWork => (7, 'W', 'k'),
            Operation::GetWorkReleases => (15, 'W', 'k'),
            Operation::LookupContainer => (15, 'k', 'C'),
            Operation::LookupCreator => (13, 'k', 'C'),
            Operation::LookupFile => (10, 'k', 'F'),
            Operation::LookupRelease => (13, 'k', 'R'),
    }
}

/// The length and fifth character of a path pattern, which, with the method,
/// tell the routes apart.
spec fn route_path_key(op: Operation) -> (nat, char) {
    match op {
            Operation::AcceptEditgroup => (24, 'e'),
            Operation::CreateContainer => (13, 'c'),
            Operation::CreateContainerBatch => (19, 'c'),
            Operation::CreateCreator => (11, 'c'),
            Operation::CreateCreatorBatch => (17, 'c'),
            Operation::CreateEditgroup => (13, 'e'),
            Operation::CreateFile => (8, 'f'),
            Operation::CreateFileBatch => (14, 'f'),
            Operation::CreateRelease => (11, 'r'),
            Operation::CreateReleaseBatch => (17, 'r'),
            Operation::CreateWork => (8, 'w'),
            Operation::CreateWorkBatch => (14, 'w'),
            Operation::GetContainer => (17, 'c'),
            Operation::GetCreator => (15, 'c'),
            Operation::GetCreatorReleases => (24, 'c'),
            Operation::GetEditgroup => (17, 'e'),
            Operation::GetEditor => (20, 'e'),
            Operation::GetEditorChangelog => (30, 'e'),
            Operation::GetFile => (12, 'f'),
            Operation::GetRelease => (15, 'r'),
            Operation::GetReleaseFiles => (21, 'r'),
            Operation::GetWork => (12, 'w'),
            Operation::GetWorkReleases => (21, 'w'),
            Operation::LookupContainer => (20, 'c'),
            Operation::LookupCreator => (18, 'c'),
            Operation::LookupFile => (15, 'f'),
            Operation::LookupRelease => (18, 'r'),
    }
}

proof fn lemma_route_id_key(op: Operation)
    ensures
        op.route_id().len() == route_id_key(op).0,
        op.route_id()[3] == route_id_key(op).1,
        op.route_id()[6] == route_id_key(op).2,
{
    match op {
        Operation::AcceptEditgroup => {
            reveal_strlit("AcceptEditgroup");
        },
        Operation::CreateContainer => {
            reveal_strlit("CreateContainer");
        },
        Operation::CreateContainerBatch => {
            reveal_strlit("CreateContainerBatch");
        },
        Operation::CreateCreator => {
            reveal_strlit("CreateCreator");
        },
        Operation::CreateCreatorBatch => {
            reveal_strlit("CreateCreatorBatch");
        },
        Operation::CreateEditgroup => {
            reveal_strlit("CreateEditgroup");
        },
        Operation::CreateFile => {
            reveal_strlit("CreateFile");
        },
        Operation::CreateFileBatch => {
            reveal_strlit("CreateFileBatch");
        },
        Operation::CreateRelease => {
            reveal_strlit("CreateRelease");
        },
        Operation::CreateReleaseBatch => {
            reveal_strlit("CreateReleaseBatch");
        },
        Operation::CreateWork => {
            reveal_strlit("CreateWork");
        },
        Operation::CreateWorkBatch => {
            reveal_strlit("CreateWorkBatch");
        },
        Operation::GetContainer => {
            reveal_strlit("GetContainer");
        },
        Operation::GetCreator => {
            reveal_strlit("GetCreator");
        },
        Operation::GetCreatorReleases => {
            reveal_strlit("GetCreatorReleases");
        },
        Operation::GetEditgroup => {
            reveal_strlit("GetEditgroup");
        },
        Operation::GetEditor => {
            reveal_strlit("GetEditor");
        },
        Operation::GetEditorChangelog => {
            reveal_strlit("GetEditorChangelog");
        },
        Operation::GetFile => {
            reveal_strlit("GetFile");
        },
        Operation::GetRelease => {
            reveal_strlit("GetRelease");
        },
        Operation::GetReleaseFiles => {
            reveal_strlit("GetReleaseFiles");
        },
        Operation::GetWork => {
            reveal_strlit("GetWork");
        },
        Operation::GetWorkReleases => {
            reveal_strlit("GetWorkReleases");
        },
        Operation::LookupContainer => {
            reveal_strlit("LookupContainer");
        },
        Operation::LookupCreator => {
            reveal_strlit("LookupCreator");
        },
        Operation::LookupFile => {
            reveal_strlit("LookupFile");
        },
        Operation::LookupRelease => {
            reveal_strlit("LookupRelease");
        },
    }
}

proof fn lemma_route_path_key(op: Operation)
    ensures
        op.route_path().len() == route_path_key(op).0,
        op.route_path()[4] == route_path_key(op).1,
{
    match op {
        Operation::AcceptEditgroup => {
            reveal_strlit("/v0/editgroup/:id/accept");
        },
        Operation::CreateContainer => {
            reveal_strlit("/v0/container");
        },
        Operation::CreateContainerBatch => {
            reveal_strlit("/v0/container/batch");
        },
        Operation::CreateCreator => {
            reveal_strlit("/v0/creator");
        },
        Operation::CreateCreatorBatch => {
            reveal_strlit("/v0/creator/batch");
        },
        Operation::CreateEditgroup => {
            reveal_strlit("/v0/editgroup");
        },
        Operation::CreateFile => {
            reveal_strlit("/v0/file");
        },
        Operation::CreateFileBatch => {
            reveal_strlit("/v0/file/batch");
        },
        Operation::CreateRelease => {
            reveal_strlit("/v0/release");
        },
        Operation::CreateReleaseBatch => {
            reveal_strlit("/v0/release/batch");
        },
        Operation::CreateWork => {
            reveal_strlit("/v0/work");
        },
        Operation::CreateWorkBatch => {
            reveal_strlit("/v0/work/batch");
        },
        Operation::GetContainer => {
            reveal_strlit("/v0/container/:id");
        },
        Operation::GetCreator => {
            reveal_strlit("/v0/creator/:id");
        },
        Operation::GetCreatorReleases => {
            reveal_strlit("/v0/creator/:id/releases");
        },
        Operation::GetEditgroup => {
            reveal_strlit("/v0/editgroup/:id");
        },
        Operation::GetEditor => {
            reveal_strlit("/v0/editor/:username");
        },
        Operation::GetEditorChangelog => {
            reveal_strlit("/v0/editor/:username/changelog");
        },
        Operation::GetFile => {
            reveal_strlit("/v0/file/:id");
        },
        Operation::GetRelease => {
            reveal_strlit("/v0/release/:id");
        },
        Operation::GetReleaseFiles => {
            reveal_strlit("/v0/release/:id/files");
        },
        Operation::GetWork => {
            reveal_strlit("/v0/work/:id");
        },
        Operation::GetWorkReleases => {
            reveal_strlit("/v0/work/:id/releases");
        },
        Operation::LookupContainer => {
            reveal_strlit("/v0/container/lookup");
        },
        Operation::LookupCreator => {
            reveal_strlit("/v0/creator/lookup");
        },
        Operation::LookupFile => {
            reveal_strlit("/v0/file/lookup");
        },
        Operation::LookupRelease => {
            reveal_strlit("/v0/release/lookup");
        },
    }
}

/// Distinct operations have distinct route identifiers, and distinct methods
/// or path patterns: adding every route to one router neither repeats an
/// identifier (which the router refuses) nor replaces an earlier route.
pub proof fn lemma_routes_distinct(a: Operation, b: Operation)
    requires
        a != b,
    ensures
        a.route_id() != b.route_id(),
        a.route_method() != b.route_method() || a.route_path() != b.route_path(),
{
    lemma_route_id_key(a);
    lemma_route_id_key(b);
    lemma_route_path_key(a);
    lemma_route_path_key(b);
    assert(route_id_key(a) != route_id_key(b));
    assert(a.route_method() != b.route_method() || route_path_key(a) != route_path_key(b));
}

impl Operation {
    /// The HTTP statuses of the operation's answers, one per variant of its
    /// response enum, in the order of the variants.
    pub open spec fn response_status_seq(self) -> Seq<u16> {
        match self {
            Operation::AcceptEditgroup => seq![200, 400, 404, 0],
            Operation::CreateContainer => seq![201, 400, 404, 0],
            Operation::CreateContainerBatch => seq![201, 400, 404, 0],
            Operation::CreateCreator => seq![201, 400, 404, 0],
            Operation::CreateCreatorBatch => seq![201, 400, 404, 0],
            Operation::CreateEditgroup => seq![201, 400, 0],
            Operation::CreateFile => seq![201, 400, 404, 0],
            Operation::CreateFileBatch => seq![201, 400, 404, 0],
            Operation::CreateRelease => seq![201, 400, 404, 0],
            Operation::CreateReleaseBatch => seq![201, 400, 404, 0],
            Operation::CreateWork => seq![201, 400, 404, 0],
            Operation::CreateWorkBatch => seq![201, 400, 404, 0],
            Operation::GetContainer => seq![200, 400, 404, 0],
            Operation::GetCreator => seq![200, 400, 404, 0],
            Operation::GetCreatorReleases => seq![200, 400, 404, 0],
            Operation::GetEditgroup => seq![200, 400, 404, 0],
            Operation::GetEditor => seq![200, 404, 0],
            Operation::GetEditorChangelog => seq![200, 404, 0],
            Operation::GetFile => seq![200, 400, 404, 0],
            Operation::GetRelease => seq![200, 400, 404, 0],
            Operation::GetReleaseFiles => seq![200, 400, 404, 0],
            Operation::GetWork => seq![200, 400, 404, 0],
            Operation::GetWorkReleases => seq![200, 400, 404, 0],
            Operation::LookupContainer => seq![200, 400, 404, 0],
            Operation::LookupCreator => seq![200, 400, 404, 0],
            Operation::LookupFile => seq![200, 400, 404, 0],
            Operation::LookupRelease => seq![200, 400, 404, 0],
        }
    }

    /// The HTTP statuses of the operation's answers, one per variant of its
    /// response enum, in the order of the variants.
    pub fn response_statuses(&self) -> (r: Vec<u16>)
        ensures
            r@ == self.response_status_seq(),
    {
        match self {
            Operation::AcceptEditgroup => vec![200, 400, 404, 0],
            Operation::CreateContainer => vec![201, 400, 404, 0],
            Operation::CreateContainerBatch => vec![201, 400, 404, 0],
            Operation::CreateCreator => vec![201, 400, 404, 0],
            Operation::CreateCreatorBatch => vec![201, 400, 404, 0],
            Operation::CreateEditgroup => vec![201, 400, 0],
            Operation::CreateFile => vec![201, 400, 404, 0],
            Operation::CreateFileBatch => vec![201, 400, 404, 0],
            Operation::CreateRelease => vec![201, 400, 404, 0],
            Operation::CreateReleaseBatch => vec![201, 400, 404, 0],
            Operation::CreateWork => vec![201, 400, 404, 0],
            Operation::CreateWorkBatch => vec![201, 400, 404, 0],
            Operation::GetContainer => vec![200, 400, 404, 0],
            Operation::GetCreator => vec![200, 400, 404, 0],
            Operation::GetCreatorReleases => vec![200, 400, 404, 0],
            Operation::GetEditgroup => vec![200, 400, 404, 0],
            Operation::GetEditor => vec![200, 404, 0],
            Operation::GetEditorChangelog => vec![200, 404, 0],
            Operation::GetFile => vec![200, 400, 404, 0],
            Operation::GetRelease => vec![200, 400, 404, 0],
            Operation::GetReleaseFiles => vec![200, 400, 404, 0],
            Operation::GetWork => vec![200, 400, 404, 0],
            Operation::GetWorkReleases => vec![200, 400, 404, 0],
            Operation::LookupContainer => vec![200, 400, 404, 0],
            Operation::LookupCreator => vec![200, 400, 404, 0],
            Operation::LookupFile => vec![200, 400, 404, 0],
            Operation::LookupRelease => vec![200, 400, 404, 0],
        }
    }
}

/// Every answer of an operation is sent with the status that the
/// operation's status list gives at the position of the answer's variant.
pub proof fn lemma_response_statuses_match()
    ensures
        Operation::AcceptEditgroup.response_status_seq().len() == 4,
        forall|r: AcceptEditgroupResponse|
            #![trigger r.status()]
            (r is MergedSuccessfully ==> r.status() == Operation::AcceptEditgroup.response_status_seq()[0])
                && (r is Unmergable ==> r.status() == Operation::AcceptEditgroup.response_status_seq()[1])
                && (r is NotFound ==> r.status() == Operation::AcceptEditgroup.response_status_seq()[2])
                && (r is GenericError ==> r.status() == Operation::AcceptEditgroup.response_status_seq()[3]),
        Operation::CreateContainer.response_status_seq().len() == 4,
        forall|r: CreateContainerResponse|
            #![trigger r.status()]
            (r is CreatedEntity ==> r.status() == Operation::CreateContainer.response_status_seq()[0])
                && (r is BadRequest ==> r.status() == Operation::CreateContainer.response_status_seq()[1])
                && (r is NotFound ==> r.status() == Operation::CreateContainer.response_status_seq()[2])
                && (r is GenericError ==> r.status() == Operation::CreateContainer.response_status_seq()[3]),
        Operation::CreateContainerBatch.response_status_seq().len() == 4,
        forall|r: CreateContainerBatchResponse|
            #![trigger r.status()]
            (r is CreatedEntities ==> r.status() == Operation::CreateContainerBatch.response_status_seq()[0])
                && (r is BadRequest ==> r.status() == Operation::CreateContainerBatch.response_status_seq()[1])
                && (r is NotFound ==> r.status() == Operation::CreateContainerBatch.response_status_seq()[2])
                && (r is GenericError ==> r.status() == Operation::CreateContainerBatch.response_status_seq()[3]),
        Operation::CreateCreator.response_status_seq().len() == 4,
        forall|r: CreateCreatorResponse|
            #![trigger r.status()]
            (r is CreatedEntity ==> r.status() == Operation::CreateCreator.response_status_seq()[0])
                && (r is BadRequest ==> r.status() == Operation::CreateCreator.response_status_seq()[1])
                && (r is NotFound ==> r.status() == Operation::CreateCreator.response_status_seq()[2])
                && (r is GenericError ==> r.status() == Operation::CreateCreator.response_status_seq()[3]),
        Operation::CreateCreatorBatch.response_status_seq().len() == 4,
        forall|r: CreateCreatorBatchResponse|
            #![trigger r.status()]
            (r is CreatedEntities ==> r.status() == Operation::CreateCreatorBatch.response_status_seq()[0])
                && (r is BadRequest ==> r.status() == Operation::CreateCreatorBatch.response_status_seq()[1])
                && (r is NotFound ==> r.status() == Operation::CreateCreatorBatch.response_status_seq()[2])
                && (r is GenericError ==> r.status() == Operation::CreateCreatorBatch.response_status_seq()[3]),
        Operation::CreateEditgroup.response_status_seq().len() == 3,
        forall|r: CreateEditgroupResponse|
            #![trigger r.status()]
            (r is SuccessfullyCreated ==> r.status() == Operation::CreateEditgroup.response_status_seq()[0])
                && (r is BadRequest ==> r.status() == Operation::CreateEditgroup.response_status_seq()[1])
                && (r is GenericError ==> r.status() == Operation::CreateEditgroup.response_status_seq()[2]),
        Operation::CreateFile.response_status_seq().len() == 4,
        forall|r: CreateFileResponse|
            #![trigger r.status()]
            (r is CreatedEntity ==> r.status() == Operation::CreateFile.response_status_seq()[0])
                && (r is BadRequest ==> r.status() == Operation::CreateFile.response_status_seq()[1])
                && (r is NotFound ==> r.status() == Operation::CreateFile.response_status_seq()[2])
                && (r is GenericError ==> r.status() == Operation::CreateFile.response_status_seq()[3]),
        Operation::CreateFileBatch.response_status_seq().len() == 4,
        forall|r: CreateFileBatchResponse|
            #![trigger r.status()]
            (r is CreatedEntities ==> r.status() == Operation::CreateFileBatch.response_status_seq()[0])
                && (r is BadRequest ==> r.status() == Operation::CreateFileBatch.response_status_seq()[1])
                && (r is NotFound ==> r.status() == Operation::CreateFileBatch.response_status_seq()[2])
                && (r is GenericError ==> r.status() == Operation::CreateFileBatch.response_status_seq()[3]),
        Operation::CreateRelease.response_status_seq().len() == 4,
        forall|r: CreateReleaseResponse|
            #![trigger r.status()]
            (r is CreatedEntity ==> r.status() == Operation::CreateRelease.response_status_seq()[0])
                && (r is BadRequest ==> r.status() == Operation::CreateRelease.response_status_seq()[1])
                && (r is NotFound ==> r.status() == Operation::CreateRelease.response_status_seq()[2])
                && (r is GenericError ==> r.status() == Operation::CreateRelease.response_status_seq()[3]),
        Operation::CreateReleaseBatch.response_status_seq().len() == 4,
        forall|r: CreateReleaseBatchResponse|
            #![trigger r.status()]
            (r is CreatedEntities ==> r.status() == Operation::CreateReleaseBatch.response_status_seq()[0])
                && (r is BadRequest ==> r.status() == Operation::CreateReleaseBatch.response_status_seq()[1])
                && (r is NotFound ==> r.status() == Operation::CreateReleaseBatch.response_status_seq()[2])
                && (r is GenericError ==> r.status() == Operation::CreateReleaseBatch.response_status_seq()[3]),
        Operation::CreateWork.response_status_seq().len() == 4,
        forall|r: CreateWorkResponse|
            #![trigger r.status()]
            (r is CreatedEntity ==> r.status() == Operation::CreateWork.response_status_seq()[0])
                && (r is BadRequest ==> r.status() == Operation::CreateWork.response_status_seq()[1])
                && (r is NotFound ==> r.status() == Operation::CreateWork.response_status_seq()[2])
                && (r is GenericError ==> r.status() == Operation::CreateWork.response_status_seq()[3]),
        Operation::CreateWorkBatch.response_status_seq().len() == 4,
        forall|r: CreateWorkBatchResponse|
            #![trigger r.status()]
            (r is CreatedEntities ==> r.status() == Operation::CreateWorkBatch.response_status_seq()[0])
                && (r is BadRequest ==> r.status() == Operation::CreateWorkBatch.response_status_seq()[1])
                && (r is NotFound ==> r.status() == Operation::CreateWorkBatch.response_status_seq()[2])
                && (r is GenericError ==> r.status() == Operation::CreateWorkBatch.response_status_seq()[3]),
        Operation::GetContainer.response_status_seq().len() == 4,
        forall|r: GetContainerResponse|
            #![trigger r.status()]
            (r is FoundEntity ==> r.status() == Operation::GetContainer.response_status_seq()[0])
                && (r is BadRequest ==> r.status() == Operation::GetContainer.response_status_seq()[1])
                && (r is NotFound ==> r.status() == Operation::GetContainer.response_status_seq()[2])
                && (r is GenericError ==> r.status() == Operation::GetContainer.response_status_seq()[3]),
        Operation::GetCreator.response_status_seq().len() == 4,
        forall|r: GetCreatorResponse|
            #![trigger r.status()]
            (r is FoundEntity ==> r.status() == Operation::GetCreator.response_status_seq()[0])
                && (r is BadRequest ==> r.status() == Operation::GetCreator.response_status_seq()[1])
                && (r is NotFound ==> r.status() == Operation::GetCreator.response_status_seq()[2])
                && (r is GenericError ==> r.status() == Operation::GetCreator.response_status_seq()[3]),
        Operation::GetCreatorReleases.response_status_seq().len() == 4,
        forall|r: GetCreatorReleasesResponse|
            #![trigger r.status()]
            (r is FoundEntity ==> r.status() == Operation::GetCreatorReleases.response_status_seq()[0])
                && (r is BadRequest ==> r.status() == Operation::GetCreatorReleases.response_status_seq()[1])
                && (r is NotFound ==> r.status() == Operation::GetCreatorReleases.response_status_seq()[2])
                && (r is GenericError ==> r.status() == Operation::GetCreatorReleases.response_status_seq()[3]),
        Operation::GetEditgroup.response_status_seq().len() == 4,
        forall|r: GetEditgroupResponse|
            #![trigger r.status()]
            (r is FoundEntity ==> r.status() == Operation::GetEditgroup.response_status_seq()[0])
                && (r is BadRequest ==> r.status() == Operation::GetEditgroup.response_status_seq()[1])
                && (r is NotFound ==> r.status() == Operation::GetEditgroup.response_status_seq()[2])
                && (r is GenericError ==> r.status() == Operation::GetEditgroup.response_status_seq()[3]),
        Operation::GetEditor.response_status_seq().len() == 3,
        forall|r: GetEditorResponse|
            #![trigger r.status()]
            (r is FoundEditor ==> r.status() == Operation::GetEditor.response_status_seq()[0])
                && (r is NotFound ==> r.status() == Operation::GetEditor.response_status_seq()[1])
                && (r is GenericError ==> r.status() == Operation::GetEditor.response_status_seq()[2]),
        Operation::GetEditorChangelog.response_status_seq().len() == 3,
        forall|r: GetEditorChangelogResponse|
            #![trigger r.status()]
            (r is FoundMergedChanges ==> r.status() == Operation::GetEditorChangelog.response_status_seq()[0])
                && (r is NotFound ==> r.status() == Operation::GetEditorChangelog.response_status_seq()[1])
                && (r is GenericError ==> r.status() == Operation::GetEditorChangelog.response_status_seq()[2]),
        Operation::GetFile.response_status_seq().len() == 4,
        forall|r: GetFileResponse|
            #![trigger r.status()]
            (r is FoundEntity ==> r.status() == Operation::GetFile.response_status_seq()[0])
                && (r is BadRequest ==> r.status() == Operation::GetFile.response_status_seq()[1])
                && (r is NotFound ==> r.status() == Operation::GetFile.response_status_seq()[2])
                && (r is GenericError ==> r.status() == Operation::GetFile.response_status_seq()[3]),
        Operation::GetRelease.response_status_seq().len() == 4,
        forall|r: GetReleaseResponse|
            #![trigger r.status()]
            (r is FoundEntity ==> r.status() == Operation::GetRelease.response_status_seq()[0])
                && (r is BadRequest ==> r.status() == Operation::GetRelease.response_status_seq()[1])
                && (r is NotFound ==> r.status() == Operation::GetRelease.response_status_seq()[2])
                && (r is GenericError ==> r.status() == Operation::GetRelease.response_status_seq()[3]),
        Operation::GetReleaseFiles.response_status_seq().len() == 4,
        forall|r: GetReleaseFilesResponse|
            #![trigger r.status()]
            (r is FoundEntity ==> r.status() == Operation::GetReleaseFiles.response_status_seq()[0])
                && (r is BadRequest ==> r.status() == Operation::GetReleaseFiles.response_status_seq()[1])
                && (r is NotFound ==> r.status() == Operation::GetReleaseFiles.response_status_seq()[2])
                && (r is GenericError ==> r.status() == Operation::GetReleaseFiles.response_status_seq()[3]),
        Operation::GetWork.response_status_seq().len() == 4,
        forall|r: GetWorkResponse|
            #![trigger r.status()]
            (r is FoundEntity ==> r.status() == Operation::GetWork.response_status_seq()[0])
                && (r is BadRequest ==> r.status() == Operation::GetWork.response_status_seq()[1])
                && (r is NotFound ==> r.status() == Operation::GetWork.response_status_seq()[2])
                && (r is GenericError ==> r.status() == Operation::GetWork.response_status_seq()[3]),
        Operation::GetWorkReleases.response_status_seq().len() == 4,
        forall|r: GetWorkReleasesResponse|
            #![trigger r.status()]
            (r is FoundEntity ==> r.status() == Operation::GetWorkReleases.response_status_seq()[0])
                && (r is BadRequest ==> r.status() == Operation::GetWorkReleases.response_status_seq()[1])
                && (r is NotFound ==> r.status() == Operation::GetWorkReleases.response_status_seq()[2])
                && (r is GenericError ==> r.status() == Operation::GetWorkReleases.response_status_seq()[3]),
        Operation::LookupContainer.response_status_seq().len() == 4,
        forall|r: LookupContainerResponse|
            #![trigger r.status()]
            (r is FoundEntity ==> r.status() == Operation::LookupContainer.response_status_seq()[0])
                && (r is BadRequest ==> r.status() == Operation::LookupContainer.response_status_seq()[1])
                && (r is NotFound ==> r.status() == Operation::LookupContainer.response_status_seq()[2])
                && (r is GenericError ==> r.status() == Operation::LookupContainer.response_status_seq()[3]),
        Operation::LookupCreator.response_status_seq().len() == 4,
        forall|r: LookupCreatorResponse|
            #![trigger r.status()]
            (r is FoundEntity ==> r.status() == Operation::LookupCreator.response_status_seq()[0])
                && (r is BadRequest ==> r.status() == Operation::LookupCreator.response_status_seq()[1])
                && (r is NotFound ==> r.status() == Operation::LookupCreator.response_status_seq()[2])
                && (r is GenericError ==> r.status() == Operation::LookupCreator.response_status_seq()[3]),
        Operation::LookupFile.response_status_seq().len() == 4,
        forall|r: LookupFileResponse|
            #![trigger r.status()]
            (r is FoundEntity ==> r.status() == Operation::LookupFile.response_status_seq()[0])
                && (r is BadRequest ==> r.status() == Operation::LookupFile.response_status_seq()[1])
                && (r is NotFound ==> r.status() == Operation::LookupFile.response_status_seq()[2])
                && (r is GenericError ==> r.status() == Operation::LookupFile.response_status_seq()[3]),
        Operation::LookupRelease.response_status_seq().len() == 4,
        forall|r: LookupReleaseResponse|
            #![trigger r.status()]
            (r is FoundEntity ==> r.status() == Operation::LookupRelease.response_status_seq()[0])
                && (r is BadRequest ==> r.status() == Operation::LookupRelease.response_status_seq()[1])
                && (r is NotFound ==> r.status() == Operation::LookupRelease.response_status_seq()[2])
                && (r is GenericError ==> r.status() == Operation::LookupRelease.response_status_seq()[3]),
{
}

/// Where a route's path goes below its entity: the entity's collection, to
/// create one, or its batch, to create several; its lookup; one item of it;
/// or something of one item.
pub enum RouteShape {
    Create,
    CreateBatch,
    Lookup,
    Item,
    ItemAction(Seq<char>),
}

impl Operation {
    /// The entity a route's path names, as the path writes it.
    pub open spec fn entity(self) -> Seq<char> {
        match self {
            Operation::AcceptEditgroup => "editgroup"@,
            Operation::CreateContainer => "container"@,
            Operation::CreateContainerBatch => "container"@,
            Operation::CreateCreator => "creator"@,
            Operation::CreateCreatorBatch => "creator"@,
            Operation::CreateEditgroup => "editgroup"@,
            Operation::CreateFile => "file"@,
            Operation::CreateFileBatch => "file"@,
            Operation::CreateRelease => "release"@,
            Operation::CreateReleaseBatch => "release"@,
            Operation::CreateWork => "work"@,
            Operation::CreateWorkBatch => "work"@,
            Operation::GetContainer => "container"@,
            Operation::GetCreator => "creator"@,
            Operation::GetCreatorReleases => "creator"@,
            Operation::GetEditgroup => "editgroup"@,
            Operation::GetEditor => "editor"@,
            Operation::GetEditorChangelog => "editor"@,
            Operation::GetFile => "file"@,
            Operation::GetRelease => "release"@,
            Operation::GetReleaseFiles => "release"@,
            Operation::GetWork => "work"@,
            Operation::GetWorkReleases => "work"@,
            Operation::LookupContainer => "container"@,
            Operation::LookupCreator => "creator"@,
            Operation::LookupFile => "file"@,
            Operation::LookupRelease => "release"@,
        }
    }

    /// Where the route's path goes below its entity.
    pub open spec fn route_shape(self) -> RouteShape {
        match self {
            Operation::AcceptEditgroup => RouteShape::ItemAction("accept"@),
            Operation::CreateContainer => RouteShape::Create,
            Operation::CreateContainerBatch => RouteShape::CreateBatch,
            Operation::CreateCreator => RouteShape::Create,
            Operation::CreateCreatorBatch => RouteShape::CreateBatch,
            Operation::CreateEditgroup => RouteShape::Create,
            Operation::CreateFile => RouteShape::Create,
            Operation::CreateFileBatch => RouteShape::CreateBatch,
            Operation::CreateRelease => RouteShape::Create,
            Operation::CreateReleaseBatch => RouteShape::CreateBatch,
            Operation::CreateWork => RouteShape::Create,
            Operation::CreateWorkBatch => RouteShape::CreateBatch,
            Operation::GetContainer => RouteShape::Item,
            Operation::GetCreator => RouteShape::Item,
            Operation::GetCreatorReleases => RouteShape::ItemAction("releases"@),
            Operation::GetEditgroup => RouteShape::Item,
            Operation::GetEditor => RouteShape::Item,
            Operation::GetEditorChangelog => RouteShape::ItemAction("changelog"@),
            Operation::GetFile => RouteShape::Item,
            Operation::GetRelease => RouteShape::Item,
            Operation::GetReleaseFiles => RouteShape::ItemAction("files"@),
            Operation::GetWork => RouteShape::Item,
            Operation::GetWorkReleases => RouteShape::ItemAction("releases"@),
            Operation::LookupContainer => RouteShape::Lookup,
            Operation::LookupCreator => RouteShape::Lookup,
            Operation::LookupFile => RouteShape::Lookup,
            Operation::LookupRelease => RouteShape::Lookup,
        }
    }
}

/// The documented path of a route: `/v0/`, the entity, and below it nothing,
/// `/batch`, `/lookup`, the segment of the route's path parameter (`:` and
/// its name), or that segment and what of the item the route gives.
pub open spec fn documented_route_path(op: Operation) -> Seq<char> {
    let item = match op.route_parameter() {
        ParameterSpec::Path(n, _) => "/:"@ + n,
        _ => Seq::empty(),
    };
    "/v0/"@ + op.entity() + match op.route_shape() {
        RouteShape::Create => Seq::empty(),
        RouteShape::CreateBatch => "/batch"@,
        RouteShape::Lookup => "/lookup"@,
        RouteShape::Item => item,
        RouteShape::ItemAction(a) => item + "/"@ + a,
    }
}

/// Each route serves the path, method and parameter its shape stands for:
/// its path is the documented one; it is a POST exactly when it creates or
/// accepts; a route that creates one entity takes the body `entity`, one
/// that creates several takes `entity_list`; a lookup takes a query
/// parameter of a plain name; a route below one item takes that item's
/// segment, `username` for an editor and `id` for any other entity, read as
/// an integer exactly for an editgroup.
pub proof fn lemma_routes_follow_shapes(op: Operation)
    ensures
        op.route_path() == documented_route_path(op),
        op.route_method() == HttpMethod::Post <==> (op.route_shape() is Create
            || op.route_shape() is CreateBatch || op.route_shape() == RouteShape::ItemAction(
            "accept"@,
        )),
        op.route_shape() is Create ==> op.route_parameter() == ParameterSpec::Body("entity"@),
        op.route_shape() is CreateBatch ==> op.route_parameter() == ParameterSpec::Body(
            "entity_list"@,
        ),
        op.route_shape() is Lookup ==> (op.route_parameter() matches ParameterSpec::Query(n)
            && is_plain_name(n)),
        (op.route_shape() is Item || op.route_shape() is ItemAction) ==> (op.route_parameter()
            matches ParameterSpec::Path(n, k) && (n == (if op.entity() == "editor"@ {
            "username"@
        } else {
            "id"@
        })) && (k == ParameterKind::Integer <==> op.entity() == "editgroup"@)),
{
    reveal_strlit("/v0/");
    reveal_strlit("/:");
    reveal_strlit("/batch");
    reveal_strlit("/lookup");
    reveal_strlit("/");
    reveal_strlit("id");
    reveal_strlit("username");
    reveal_strlit("entity");
    reveal_strlit("entity_list");
    reveal_strlit("editor");
    reveal_strlit("editgroup");
    reveal_strlit("accept");
    reveal_strlit("releases");
    reveal_strlit("files");
    reveal_strlit("changelog");
    reveal_strlit("container");
    reveal_strlit("creator");
    reveal_strlit("file");
    reveal_strlit("release");
    reveal_strlit("work");
    reveal_strlit("issnl");
    reveal_strlit("orcid");
    reveal_strlit("sha1");
    reveal_strlit("doi");
    assert("container"@.len() != "editor"@.len() || "container"@[0] != "editor"@[0]);
    assert("creator"@.len() != "editor"@.len() || "creator"@[0] != "editor"@[0]);
    assert("editgroup"@.len() != "editor"@.len() || "editgroup"@[0] != "editor"@[0]);
    assert("file"@.len() != "editor"@.len() || "file"@[0] != "editor"@[0]);
    assert("release"@.len() != "editor"@.len() || "release"@[0] != "editor"@[0]);
    assert("work"@.len() != "editor"@.len() || "work"@[0] != "editor"@[0]);
    assert("container"@.len() != "editgroup"@.len() || "container"@[0] != "editgroup"@[0]);
    assert("creator"@.len() != "editgroup"@.len() || "creator"@[0] != "editgroup"@[0]);
    assert("editor"@.len() != "editgroup"@.len() || "editor"@[0] != "editgroup"@[0]);
    assert("file"@.len() != "editgroup"@.len() || "file"@[0] != "editgroup"@[0]);
    assert("release"@.len() != "editgroup"@.len() || "release"@[0] != "editgroup"@[0]);
    assert("work"@.len() != "editgroup"@.len() || "work"@[0] != "editgroup"@[0]);
    match op {
        Operation::AcceptEditgroup => {
            reveal_strlit("/v0/editgroup/:id/accept");
            assert(op.route_path() =~= documented_route_path(op));
        },
        Operation::CreateContainer => {
            reveal_strlit("/v0/container");
            assert(op.route_path() =~= documented_route_path(op));
        },
        Operation::CreateContainerBatch => {
            reveal_strlit("/v0/container/batch");
            assert(op.route_path() =~= documented_route_path(op));
        },
        Operation::CreateCreator => {
            reveal_strlit("/v0/creator");
            assert(op.route_path() =~= documented_route_path(op));
        },
        Operation::CreateCreatorBatch => {
            reveal_strlit("/v0/creator/batch");
            assert(op.route_path() =~= documented_route_path(op));
        },
        Operation::CreateEditgroup => {
            reveal_strlit("/v0/editgroup");
            assert(op.route_path() =~= documented_route_path(op));
        },
        Operation::CreateFile => {
            reveal_strlit("/v0/file");
            assert(op.route_path() =~= documented_route_path(op));
        },
        Operation::CreateFileBatch => {
            reveal_strlit("/v0/file/batch");
            assert(op.route_path() =~= documented_route_path(op));
        },
        Operation::CreateRelease => {
            reveal_strlit("/v0/release");
            assert(op.route_path() =~= documented_route_path(op));
        },
        Operation::CreateReleaseBatch => {
            reveal_strlit("/v0/release/batch");
            assert(op.route_path() =~= documented_route_path(op));
        },
        Operation::CreateWork => {
            reveal_strlit("/v0/work");
            assert(op.route_path() =~= documented_route_path(op));
        },
        Operation::CreateWorkBatch => {
            reveal_strlit("/v0/work/batch");
            assert(op.route_path() =~= documented_route_path(op));
        },
        Operation::GetContainer => {
            reveal_strlit("/v0/container/:id");
            assert(op.route_path() =~= documented_route_path(op));
        },
        Operation::GetCreator => {
            reveal_strlit("/v0/creator/:id");
            assert(op.route_path() =~= documented_route_path(op));
        },
        Operation::GetCreatorReleases => {
            reveal_strlit("/v0/creator/:id/releases");
            assert(op.route_path() =~= documented_route_path(op));
        },
        Operation::GetEditgroup => {
            reveal_strlit("/v0/editgroup/:id");
            assert(op.route_path() =~= documented_route_path(op));
        },
        Operation::GetEditor => {
            reveal_strlit("/v0/editor/:username");
            assert(op.route_path() =~= documented_route_path(op));
        },
        Operation::GetEditorChangelog => {
            reveal_strlit("/v0/editor/:username/changelog");
            assert(op.route_path() =~= documented_route_path(op));
        },
        Operation::GetFile => {
            reveal_strlit("/v0/file/:id");
            assert(op.route_path() =~= documented_route_path(op));
        },
        Operation::GetRelease => {
            reveal_strlit("/v0/release/:id");
            assert(op.route_path() =~= documented_route_path(op));
        },
        Operation::GetReleaseFiles => {
            reveal_strlit("/v0/release/:id/files");
            assert(op.route_path() =~= documented_route_path(op));
        },
        Operation::GetWork => {
            reveal_strlit("/v0/work/:id");
            assert(op.route_path() =~= documented_route_path(op));
        },
        Operation::GetWorkReleases => {
            reveal_strlit("/v0/work/:id/releases");
            assert(op.route_path() =~= documented_route_path(op));
        },
        Operation::LookupContainer => {
            reveal_strlit("/v0/container/lookup");
            assert(op.route_path() =~= documented_route_path(op));
        },
        Operation::LookupCreator => {
            reveal_strlit("/v0/creator/lookup");
            assert(op.route_path() =~= documented_route_path(op));
        },
        Operation::LookupFile => {
            reveal_strlit("/v0/file/lookup");
            assert(op.route_path() =~= documented_route_path(op));
        },
        Operation::LookupRelease => {
            reveal_strlit("/v0/release/lookup");
            assert(op.route_path() =~= documented_route_path(op));
        },
    }
}

/// The parameter of an operation, with its name as text.
pub enum ParameterSpec {
    Path(Seq<char>, ParameterKind),
    Query(Seq<char>),
    Body(Seq<char>),
}

impl Parameter {
    pub open spec fn spec(self) -> ParameterSpec {
        match self {
            Parameter::Path { name, kind } => ParameterSpec::Path(name@, kind),
            Parameter::Query { name } => ParameterSpec::Query(name@),
            Parameter::Body { name } => ParameterSpec::Body(name@),
        }
    }
}

/// The answer to a request that cannot be handled: an HTTP status and a message.
#[derive(Debug, Clone, PartialEq)]
pub struct Rejection {
    pub status: u16,
    pub message: String,
}

/// HTTP 400 Bad Request.
pub const BAD_REQUEST: u16 = 400;

/// HTTP 500 Internal Server Error.
pub const INTERNAL_SERVER_ERROR: u16 = 500;

fn bad_request(message: String) -> (r: Rejection)
    ensures
        r.status == BAD_REQUEST,
        r.message@ == message@,
{
    Rejection { status: BAD_REQUEST, message }
}

/// The answer when the request cannot be handled for a reason of the server's
/// own: no route data, or an error from the API's implementation.
pub fn internal_error() -> (r: Rejection)
    ensures
        r.status == INTERNAL_SERVER_ERROR,
        r.message@ == "An internal error occurred"@,
{
    Rejection { status: INTERNAL_SERVER_ERROR, message: String::from_str("An internal error occurred") }
}

/// The answer to an operation from what the API's implementation gave: its
/// value, or, when it failed, the internal error, which does not reveal why.
pub fn api_outcome<T, E>(result: Result<T, E>) -> (r: Result<T, Rejection>)
    ensures
        match result {
            Ok(v) => r matches Ok(w) && w == v,
            Err(_) => r matches Err(e) && e.status == INTERNAL_SERVER_ERROR && e.message@
                == "An internal error occurred"@,
        },
{
    match result {
        Ok(v) => Ok(v),
        Err(_) => Err(internal_error()),
    }
}

/// The text of a path parameter as the server reads it, or `None` when its
/// percent-decoded bytes are not UTF-8.
pub open spec fn path_parameter_text_spec(raw: Seq<char>) -> Option<Seq<char>> {
    percent_decoded_text(raw)
}

/// Takes the text path parameter `name` from its raw, percent-encoded segment
/// (`None` when the route matched without it).
pub fn path_parameter_text(name: &str, raw: Option<&str>) -> (r: Result<String, Rejection>)
    ensures
        match raw {
            None => r matches Err(e) && e.status == BAD_REQUEST && e.message@
                == "Missing path parameter "@ + name@,
            Some(p) => match percent_decoded_text(p@) {
                Some(t) => r matches Ok(v) && v@ == t,
                None => r matches Err(e) && e.status == BAD_REQUEST && e.message@
                    == "Couldn't percent-decode path parameter as UTF-8: "@ + p@,
            },
        },
{
    match raw {
        None => {
            let mut m = String::from_str("Missing path parameter ");
            m.append(name);
            Err(bad_request(m))
        },
        Some(p) => match percent_decode_utf8(p) {
            Some(t) => Ok(t),
            None => {
                let mut m = String::from_str("Couldn't percent-decode path parameter as UTF-8: ");
                m.append(p);
                Err(bad_request(m))
            },
        },
    }
}

/// Takes the integer path parameter `name` from its raw, percent-encoded
/// segment: the segment is decoded as for text, then read as a decimal `i64`.
pub fn path_parameter_integer(name: &str, raw: Option<&str>) -> (r: Result<i64, Rejection>)
    ensures
        match raw {
            None => r matches Err(e) && e.status == BAD_REQUEST && e.message@
                == "Missing path parameter "@ + name@,
            Some(p) => match percent_decoded_text(p@) {
                None => r matches Err(e) && e.status == BAD_REQUEST && e.message@
                    == "Couldn't percent-decode path parameter as UTF-8: "@ + p@,
                Some(t) => match spec_parse_i64(t) {
                    Ok(n) => r matches Ok(v) && v as int == n,
                    Err(k) => r matches Err(e) && e.status == BAD_REQUEST && e.message@
                        == "Couldn't parse path parameter "@ + name@ + ": "@
                        + spec_int_error_message(k),
                },
            },
        },
{
    let text = path_parameter_text(name, raw)?;
    match parse_i64(text.as_str()) {
        Ok(v) => Ok(v),
        Err(k) => {
            let mut m = String::from_str("Couldn't parse path parameter ");
            m.append(name);
            m.append(": ");
            m.append(k.message());
            Err(bad_request(m))
        },
    }
}

/// Takes the required query parameter `name` from the values the query string
/// gives it (`None` when the query string does not name it): its first value.
pub fn query_parameter_text(name: &str, values: Option<&Vec<String>>) -> (r: Result<
    String,
    Rejection,
>)
    ensures
        match values {
            None => r matches Err(e) && e.status == BAD_REQUEST && e.message@
                == "Missing required query parameter "@ + name@,
            Some(vs) => if vs@.len() == 0 {
                r matches Err(e) && e.status == BAD_REQUEST && e.message@
                    == "Required query parameter "@ + name@ + " was empty"@
            } else {
                r matches Ok(v) && v@ == vs@[0]@
            },
        },
{
    match values {
        None => {
            let mut m = String::from_str("Missing required query parameter ");
            m.append(name);
            Err(bad_request(m))
        },
        Some(vs) => {
            if vs.len() == 0 {
                let mut m = String::from_str("Required query parameter ");
                m.append(name);
                m.append(" was empty");
                Err(bad_request(m))
            } else {
                Ok(vs[0].clone())
            }
        },
    }
}

/// Takes the required body parameter `name` from what the JSON body parsed to
/// (`None` when there was no body, or it was `null`).
pub fn body_parameter<T>(name: &str, parsed: Option<T>) -> (r: Result<T, Rejection>)
    ensures
        match parsed {
            None => r matches Err(e) && e.status == BAD_REQUEST && e.message@
                == "Missing required body parameter "@ + name@,
            Some(v) => r == Ok::<T, Rejection>(v),
        },
{
    match parsed {
        None => {
            let mut m = String::from_str("Missing required body parameter ");
            m.append(name);
            Err(bad_request(m))
        },
        Some(v) => Ok(v),
    }
}

/// The answer when the body of the request could not be read as UTF-8;
/// `detail` describes why.
pub fn body_unreadable(name: &str, detail: &str) -> (r: Rejection)
    ensures
        r.status == BAD_REQUEST,
        r.message@ == "Couldn't parse body parameter "@ + name@ + " - not valid UTF-8: "@ + detail@,
{
    let mut m = String::from_str("Couldn't parse body parameter ");
    m.append(name);
    m.append(" - not valid UTF-8: ");
    m.append(detail);
    bad_request(m)
}

/// The answer when the JSON body does not match the parameter's schema;
/// `detail` describes why.
pub fn body_mismatch(name: &str, detail: &str) -> (r: Rejection)
    ensures
        r.status == BAD_REQUEST,
        r.message@ == "Couldn't parse body parameter "@ + name@ + " - doesn't match schema: "@
            + detail@,
{
    let mut m = String::from_str("Couldn't parse body parameter ");
    m.append(name);
    m.append(" - doesn't match schema: ");
    m.append(detail);
    bad_request(m)
}

/// What the `Debug` formatting of a list of texts gives: `[`, the texts
/// quoted and escaped, separated by `, `, and `]`.
pub uninterp spec fn debug_list_text(texts: Seq<Seq<char>>) -> Seq<char>;

/// `format!("{:?}", ..)` of a `Vec<String>` (std's `Debug`). Claimed: the
/// result depends on the texts alone, and is named `debug_list_text`; how each
/// text is escaped is not stated.
#[verifier::external_body]
fn debug_strings(texts: &Vec<String>) -> (r: String)
    ensures
        r@ == debug_list_text(texts.deep_view()),
{
    format!("{:?}", texts)
}

/// The value of the `Warning` header that answers a body with fields the
/// schema does not know: none when there are none.
pub fn unknown_fields_warning(unused: &Vec<String>) -> (r: Option<String>)
    ensures
        unused@.len() == 0 ==> r is None,
        unused@.len() > 0 ==> (r matches Some(w) && w@ == "Ignoring unknown fields in body: "@
            + debug_list_text(unused.deep_view())),
{
    if unused.len() == 0 {
        None
    } else {
        let mut w = String::from_str("Ignoring unknown fields in body: ");
        w.append(debug_strings(unused).as_str());
        Some(w)
    }
}

/// A hyphenated UUID: 36 characters, `-` at positions 8, 13, 18 and 23, and a
/// lower-case hexadecimal digit everywhere else.
pub open spec fn is_hyphenated_uuid(s: Seq<char>) -> bool {
    &&& s.len() == 36
    &&& forall|i: int|
        0 <= i < 36 ==> if i == 8 || i == 13 || i == 18 || i == 23 {
            s[i] == '-'
        } else {
            ('0' <= #[trigger] s[i] && s[i] <= '9') || ('a' <= s[i] && s[i] <= 'f')
        }
}

/// A hyphenated UUID of version 4 (random) and of the RFC 4122 variant: `4`
/// opens its third group, and one of `8`, `9`, `a`, `b` its fourth.
pub open spec fn is_random_uuid(s: Seq<char>) -> bool {
    &&& is_hyphenated_uuid(s)
    &&& s[14] == '4'
    &&& (s[19] == '8' || s[19] == '9' || s[19] == 'a' || s[19] == 'b')
}

/// `uuid::Uuid::new_v4()` written with its `Display` (the hyphenated form).
/// Claimed: the text is a hyphenated UUID with the version and variant bits
/// that `new_v4` sets; its other digits are random.
#[verifier::external_body]
fn new_uuid_v4() -> (r: String)
    ensures
        is_random_uuid(r@),
{
    uuid::Uuid::new_v4().to_string()
}

/// The span identifier of a request: the one its `X-Span-ID` header gives,
/// else a fresh random UUID.
pub fn span_id(header: Option<String>) -> (r: String)
    ensures
        header matches Some(h) ==> r == h,
        header is None ==> is_random_uuid(r@),
{
    match header {
        Some(h) => h,
        None => new_uuid_v4(),
    }
}

/// The credentials that an `Authorization` header carries.
#[derive(Debug, Clone, PartialEq)]
pub enum AuthCredentials {
    /// HTTP Basic: the user name, and the password when the decoded text has a `:`.
    Basic { username: String, password: Option<String> },
    /// HTTP Bearer, used for OAuth2: the token.
    Bearer { token: String },
}

/// Whether an `Authorization` value can be read under `scheme` without
/// cutting a character: where the value starts with the scheme and goes on,
/// the character after the scheme is ASCII.
pub open spec fn scheme_split_ok(value: Seq<char>, scheme: Seq<char>) -> bool {
    value.len() > scheme.len() && value.take(scheme.len() as int) == scheme ==> (value[scheme.len()
        as int] as u32) < 0x80
}

/// The token of a `Bearer` value: what follows `Bearer` and one more
/// character, when there is something there.
pub open spec fn bearer_token(value: Seq<char>) -> Option<Seq<char>> {
    if value.len() > 7 && value.take(6) == "Bearer"@ {
        Some(value.skip(7))
    } else {
        None
    }
}

/// The user name and the password (when there is a `:`) that a `Basic`
/// value decodes to, by hyper's `Authorization<Basic>` header parser.
pub uninterp spec fn basic_credentials(value: Seq<char>) -> Option<(Seq<char>, Option<Seq<char>>)>;

/// The text of an optional string.
pub open spec fn opt_text(s: Option<String>) -> Option<Seq<char>> {
    match s {
        Some(t) => Some(t@),
        None => None,
    }
}

/// hyper's `Authorization<Basic>` header parser on one header value: the
/// value must start with `Basic`, and what follows the scheme and one more
/// character is base64 of UTF-8 text, split at its `:`s into the user name
/// and the password. Claimed: the result depends on the value alone, and is
/// named `basic_credentials`; base64 decoding is not stated. Where the
/// character after the scheme is not ASCII, hyper would cut it and panic, so
/// `requires` leaves that value out.
#[verifier::external_body]
fn parse_basic(value: &str) -> (r: Option<(String, Option<String>)>)
    requires
        scheme_split_ok(value@, "Basic"@),
    ensures
        match r {
            Some((u, p)) => basic_credentials(value@) == Some((u@, opt_text(p))),
            None => basic_credentials(value@) is None,
        },
{
    let raw = [value.as_bytes().to_vec()];
    match <hyper::header::Authorization<hyper::header::Basic> as hyper::header::Header>::parse_header(
        &raw,
    ) {
        Ok(a) => Some((a.0.username, a.0.password)),
        Err(_) => None,
    }
}

/// hyper's `Authorization<Bearer>` header parser on one header value.
/// Claimed, as its source shows: a value that starts with `Bearer` and goes
/// on for more than one character after it gives the text after that
/// character as the token; any other gives none. Where the character after
/// the scheme is not ASCII, hyper would cut it and panic, so `requires`
/// leaves that value out.
#[verifier::external_body]
fn parse_bearer(value: &str) -> (r: Option<String>)
    requires
        scheme_split_ok(value@, "Bearer"@),
    ensures
        opt_text(r) == bearer_token(value@),
{
    let raw = [value.as_bytes().to_vec()];
    match <hyper::header::Authorization<hyper::header::Bearer> as hyper::header::Header>::parse_header(
        &raw,
    ) {
        Ok(a) => Some(a.0.token),
        Err(_) => None,
    }
}

/// Whether `value` can be read under `scheme` without cutting a character.
fn scheme_split_checked(value: &str, scheme: &str) -> (b: bool)
    ensures
        b == scheme_split_ok(value@, scheme@),
{
    let n = value.unicode_len();
    let k = scheme.unicode_len();
    if n > k {
        let prefix = String::from_str(value.substring_char(0, k));
        let wanted = String::from_str(scheme);
        if prefix == wanted {
            let c = value.get_char(k);
            (c as u32) < 0x80
        } else {
            true
        }
    } else {
        true
    }
}

/// Middleware that takes the authentication data of a request from its
/// `Authorization` header.
#[derive(Debug, Clone, Copy, PartialEq, Eq)]
pub struct ExtractAuthData;

impl ExtractAuthData {
    /// The credentials of a request, from the value of its `Authorization`
    /// header (`None` when it has none): `Basic` credentials when the value
    /// reads as them, else a `Bearer` token when it reads as one, else none.
    /// A value that would cut a character after its scheme is not read
    /// under that scheme. It never rejects a request.
    pub fn before(&self, authorization: Option<&str>) -> (r: Option<AuthCredentials>)
        ensures
            authorization is None ==> r is None,
            authorization matches Some(v) ==> {
                let basic = if scheme_split_ok(v@, "Basic"@) {
                    basic_credentials(v@)
                } else {
                    None
                };
                let bearer = if scheme_split_ok(v@, "Bearer"@) {
                    bearer_token(v@)
                } else {
                    None
                };
                match basic {
                    Some(b) => r matches Some(AuthCredentials::Basic { username, password })
                        && username@ == b.0 && opt_text(password) == b.1,
                    None => match bearer {
                        Some(t) => r matches Some(AuthCredentials::Bearer { token }) && token@
                            == t,
                        None => r is None,
                    },
                }
            },
    {
        match authorization {
            None => None,
            Some(v) => {
                proof {
                    reveal_strlit("Basic");
                    reveal_strlit("Bearer");
                }
                if scheme_split_checked(v, "Basic") {
                    if let Some((username, password)) = parse_basic(v) {
                        return Some(AuthCredentials::Basic { username, password });
                    }
                }
                if scheme_split_checked(v, "Bearer") {
                    if let Some(token) = parse_bearer(v) {
                        return Some(AuthCredentials::Bearer { token });
                    }
                }
                None
            },
        }
    }
}

} // verus!
