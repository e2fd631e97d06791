//! Data model, request handling rules and URL construction of the fatcat
//! catalog API: the typed models, the response enums of every operation with
//! the HTTP status each of them is answered with, the routing of requests
//! and the extraction of path, query and body parameters on the server side,
//! and the base path, the request URLs and the reading of responses by their
//! status on the client side.
#![allow(unused_imports)]

pub mod decimal;
pub mod percent;
pub mod models;
pub mod responses;
pub mod server;
pub mod client;
pub mod service;

pub use responses::{
    AcceptEditgroupResponse, CreateContainerBatchResponse, CreateContainerResponse,
    CreateCreatorBatchResponse, CreateCreatorResponse, CreateEditgroupResponse,
    CreateFileBatchResponse, CreateFileResponse, CreateReleaseBatchResponse, CreateReleaseResponse,
    CreateWorkBatchResponse, CreateWorkResponse, GetContainerHistoryResponse, GetContainerResponse, GetCreatorReleasesResponse,
    GetCreatorResponse, GetEditgroupResponse, GetEditorChangelogResponse, GetEditorResponse,
    GetFileResponse, GetReleaseFilesResponse, GetReleaseResponse, GetStatsResponse, GetWorkReleasesResponse,
    GetWorkResponse, LookupContainerResponse, LookupCreatorResponse, LookupFileResponse,
    LookupReleaseResponse,
};

use vstd::prelude::*;

verus! {

} // verus!
