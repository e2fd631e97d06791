//! The answers of the API's operations, one enum per operation, and the HTTP
//! status that the server answers each of them with.

use vstd::prelude::*;
use crate::models;

verus! {

#[derive(Debug, PartialEq)]
pub enum AcceptEditgroupResponse {
    /// Merged Successfully
    MergedSuccessfully(models::Success),
    /// Unmergable
    Unmergable(models::ErrorResponse),
    /// Not Found
    NotFound(models::ErrorResponse),
    /// Generic Error
    GenericError(models::ErrorResponse),
}

impl AcceptEditgroupResponse {
    /// The HTTP status that the server answers this with.
    pub open spec fn status(&self) -> u16 {
        match self {
            AcceptEditgroupResponse::MergedSuccessfully(_) => 200,
            AcceptEditgroupResponse::Unmergable(_) => 400,
            AcceptEditgroupResponse::NotFound(_) => 404,
            AcceptEditgroupResponse::GenericError(_) => 0,
        }
    }

    /// The HTTP status that the server answers this with.
    pub fn status_code(&self) -> (r: u16)
        ensures
            r == self.status(),
    {
        match self {
            AcceptEditgroupResponse::MergedSuccessfully(_) => 200,
            AcceptEditgroupResponse::Unmergable(_) => 400,
            AcceptEditgroupResponse::NotFound(_) => 404,
            AcceptEditgroupResponse::GenericError(_) => 0,
        }
    }
}

#[derive(Debug, PartialEq)]
pub enum CreateContainerResponse {
    /// Created Entity
    CreatedEntity(models::EntityEdit),
    /// Bad Request
    BadRequest(models::ErrorResponse),
    /// Not Found
    NotFound(models::ErrorResponse),
    /// Generic Error
    GenericError(models::ErrorResponse),
}

impl CreateContainerResponse {
    /// The HTTP status that the server answers this with.
    pub open spec fn status(&self) -> u16 {
        match self {
            CreateContainerResponse::CreatedEntity(_) => 201,
            CreateContainerResponse::BadRequest(_) => 400,
            CreateContainerResponse::NotFound(_) => 404,
            CreateContainerResponse::GenericError(_) => 0,
        }
    }

    /// The HTTP status that the server answers this with.
    pub fn status_code(&self) -> (r: u16)
        ensures
            r == self.status(),
    {
        match self {
            CreateContainerResponse::CreatedEntity(_) => 201,
            CreateContainerResponse::BadRequest(_) => 400,
            CreateContainerResponse::NotFound(_) => 404,
            CreateContainerResponse::GenericError(_) => 0,
        }
    }
}

#[derive(Debug, PartialEq)]
pub enum CreateContainerBatchResponse {
    /// Created Entities
    CreatedEntities(Vec<models::EntityEdit>),
    /// Bad Request
    BadRequest(models::ErrorResponse),
    /// Not Found
    NotFound(models::ErrorResponse),
    /// Generic Error
    GenericError(models::ErrorResponse),
}

impl CreateContainerBatchResponse {
    /// The HTTP status that the server answers this with.
    pub open spec fn status(&self) -> u16 {
        match self {
            CreateContainerBatchResponse::CreatedEntities(_) => 201,
            CreateContainerBatchResponse::BadRequest(_) => 400,
            CreateContainerBatchResponse::NotFound(_) => 404,
            CreateContainerBatchResponse::GenericError(_) => 0,
        }
    }

    /// The HTTP status that the server answers this with.
    pub fn status_code(&self) -> (r: u16)
        ensures
            r == self.status(),
    {
        match self {
            CreateContainerBatchResponse::CreatedEntities(_) => 201,
            CreateContainerBatchResponse::BadRequest(_) => 400,
            CreateContainerBatchResponse::NotFound(_) => 404,
            CreateContainerBatchResponse::GenericError(_) => 0,
        }
    }
}

#[derive(Debug, PartialEq)]
pub enum CreateCreatorResponse {
    /// Created Entity
    CreatedEntity(models::EntityEdit),
    /// Bad Request
    BadRequest(models::ErrorResponse),
    /// Not Found
    NotFound(models::ErrorResponse),
    /// Generic Error
    GenericError(models::ErrorResponse),
}

impl CreateCreatorResponse {
    /// The HTTP status that the server answers this with.
    pub open spec fn status(&self) -> u16 {
        match self {
            CreateCreatorResponse::CreatedEntity(_) => 201,
            CreateCreatorResponse::BadRequest(_) => 400,
            CreateCreatorResponse::NotFound(_) => 404,
            CreateCreatorResponse::GenericError(_) => 0,
        }
    }

    /// The HTTP status that the server answers this with.
    pub fn status_code(&self) -> (r: u16)
        ensures
            r == self.status(),
    {
        match self {
            CreateCreatorResponse::CreatedEntity(_) => 201,
            CreateCreatorResponse::BadRequest(_) => 400,
            CreateCreatorResponse::NotFound(_) => 404,
            CreateCreatorResponse::GenericError(_) => 0,
        }
    }
}

#[derive(Debug, PartialEq)]
pub enum CreateCreatorBatchResponse {
    /// Created Entities
    CreatedEntities(Vec<models::EntityEdit>),
    /// Bad Request
    BadRequest(models::ErrorResponse),
    /// Not Found
    NotFound(models::ErrorResponse),
    /// Generic Error
    GenericError(models::ErrorResponse),
}

impl CreateCreatorBatchResponse {
    /// The HTTP status that the server answers this with.
    pub open spec fn status(&self) -> u16 {
        match self {
            CreateCreatorBatchResponse::CreatedEntities(_) => 201,
            CreateCreatorBatchResponse::BadRequest(_) => 400,
            CreateCreatorBatchResponse::NotFound(_) => 404,
            CreateCreatorBatchResponse::GenericError(_) => 0,
        }
    }

    /// The HTTP status that the server answers this with.
    pub fn status_code(&self) -> (r: u16)
        ensures
            r == self.status(),
    {
        match self {
            CreateCreatorBatchResponse::CreatedEntities(_) => 201,
            CreateCreatorBatchResponse::BadRequest(_) => 400,
            CreateCreatorBatchResponse::NotFound(_) => 404,
            CreateCreatorBatchResponse::GenericError(_) => 0,
        }
    }
}

#[derive(Debug, PartialEq)]
pub enum CreateEditgroupResponse {
    /// Successfully Created
    SuccessfullyCreated(models::Editgroup),
    /// Bad Request
    BadRequest(models::ErrorResponse),
    /// Generic Error
    GenericError(models::ErrorResponse),
}

impl CreateEditgroupResponse {
    /// The HTTP status that the server answers this with.
    pub open spec fn status(&self) -> u16 {
        match self {
            CreateEditgroupResponse::SuccessfullyCreated(_) => 201,
            CreateEditgroupResponse::BadRequest(_) => 400,
            CreateEditgroupResponse::GenericError(_) => 0,
        }
    }

    /// The HTTP status that the server answers this with.
    pub fn status_code(&self) -> (r: u16)
        ensures
            r == self.status(),
    {
        match self {
            CreateEditgroupResponse::SuccessfullyCreated(_) => 201,
            CreateEditgroupResponse::BadRequest(_) => 400,
            CreateEditgroupResponse::GenericError(_) => 0,
        }
    }
}

#[derive(Debug, PartialEq)]
pub enum CreateFileResponse {
    /// Created Entity
    CreatedEntity(models::EntityEdit),
    /// Bad Request
    BadRequest(models::ErrorResponse),
    /// Not Found
    NotFound(models::ErrorResponse),
    /// Generic Error
    GenericError(models::ErrorResponse),
}

impl CreateFileResponse {
    /// The HTTP status that the server answers this with.
    pub open spec fn status(&self) -> u16 {
        match self {
            CreateFileResponse::CreatedEntity(_) => 201,
            CreateFileResponse::BadRequest(_) => 400,
            CreateFileResponse::NotFound(_) => 404,
            CreateFileResponse::GenericError(_) => 0,
        }
    }

    /// The HTTP status that the server answers this with.
    pub fn status_code(&self) -> (r: u16)
        ensures
            r == self.status(),
    {
        match self {
            CreateFileResponse::CreatedEntity(_) => 201,
            CreateFileResponse::BadRequest(_) => 400,
            CreateFileResponse::NotFound(_) => 404,
            CreateFileResponse::GenericError(_) => 0,
        }
    }
}

#[derive(Debug, PartialEq)]
pub enum CreateFileBatchResponse {
    /// Created Entities
    CreatedEntities(Vec<models::EntityEdit>),
    /// Bad Request
    BadRequest(models::ErrorResponse),
    /// Not Found
    NotFound(models::ErrorResponse),
    /// Generic Error
    GenericError(models::ErrorResponse),
}

impl CreateFileBatchResponse {
    /// The HTTP status that the server answers this with.
    pub open spec fn status(&self) -> u16 {
        match self {
            CreateFileBatchResponse::CreatedEntities(_) => 201,
            CreateFileBatchResponse::BadRequest(_) => 400,
            CreateFileBatchResponse::NotFound(_) => 404,
            CreateFileBatchResponse::GenericError(_) => 0,
        }
    }

    /// The HTTP status that the server answers this with.
    pub fn status_code(&self) -> (r: u16)
        ensures
            r == self.status(),
    {
        match self {
            CreateFileBatchResponse::CreatedEntities(_) => 201,
            CreateFileBatchResponse::BadRequest(_) => 400,
            CreateFileBatchResponse::NotFound(_) => 404,
            CreateFileBatchResponse::GenericError(_) => 0,
        }
    }
}

#[derive(Debug, PartialEq)]
pub enum CreateReleaseResponse {
    /// Created Entity
    CreatedEntity(models::EntityEdit),
    /// Bad Request
    BadRequest(models::ErrorResponse),
    /// Not Found
    NotFound(models::ErrorResponse),
    /// Generic Error
    GenericError(models::ErrorResponse),
}

impl CreateReleaseResponse {
    /// The HTTP status that the server answers this with.
    pub open spec fn status(&self) -> u16 {
        match self {
            CreateReleaseResponse::CreatedEntity(_) => 201,
            CreateReleaseResponse::BadRequest(_) => 400,
            CreateReleaseResponse::NotFound(_) => 404,
            CreateReleaseResponse::GenericError(_) => 0,
        }
    }

    /// The HTTP status that the server answers this with.
    pub fn status_code(&self) -> (r: u16)
        ensures
            r == self.status(),
    {
        match self {
            CreateReleaseResponse::CreatedEntity(_) => 201,
            CreateReleaseResponse::BadRequest(_) => 400,
            CreateReleaseResponse::NotFound(_) => 404,
            CreateReleaseResponse::GenericError(_) => 0,
        }
    }
}

#[derive(Debug, PartialEq)]
pub enum CreateReleaseBatchResponse {
    /// Created Entities
    CreatedEntities(Vec<models::EntityEdit>),
    /// Bad Request
    BadRequest(models::ErrorResponse),
    /// Not Found
    NotFound(models::ErrorResponse),
    /// Generic Error
    GenericError(models::ErrorResponse),
}

impl CreateReleaseBatchResponse {
    /// The HTTP status that the server answers this with.
    pub open spec fn status(&self) -> u16 {
        match self {
            CreateReleaseBatchResponse::CreatedEntities(_) => 201,
            CreateReleaseBatchResponse::BadRequest(_) => 400,
            CreateReleaseBatchResponse::NotFound(_) => 404,
            CreateReleaseBatchResponse::GenericError(_) => 0,
        }
    }

    /// The HTTP status that the server answers this with.
    pub fn status_code(&self) -> (r: u16)
        ensures
            r == self.status(),
    {
        match self {
            CreateReleaseBatchResponse::CreatedEntities(_) => 201,
            CreateReleaseBatchResponse::BadRequest(_) => 400,
            CreateReleaseBatchResponse::NotFound(_) => 404,
            CreateReleaseBatchResponse::GenericError(_) => 0,
        }
    }
}

#[derive(Debug, PartialEq)]
pub enum CreateWorkResponse {
    /// Created Entity
    CreatedEntity(models::EntityEdit),
    /// Bad Request
    BadRequest(models::ErrorResponse),
    /// Not Found
    NotFound(models::ErrorResponse),
    /// Generic Error
    GenericError(models::ErrorResponse),
}

impl CreateWorkResponse {
    /// The HTTP status that the server answers this with.
    pub open spec fn status(&self) -> u16 {
        match self {
            CreateWorkResponse::CreatedEntity(_) => 201,
            CreateWorkResponse::BadRequest(_) => 400,
            CreateWorkResponse::NotFound(_) => 404,
            CreateWorkResponse::GenericError(_) => 0,
        }
    }

    /// The HTTP status that the server answers this with.
    pub fn status_code(&self) -> (r: u16)
        ensures
            r == self.status(),
    {
        match self {
            CreateWorkResponse::CreatedEntity(_) => 201,
            CreateWorkResponse::BadRequest(_) => 400,
            CreateWorkResponse::NotFound(_) => 404,
            CreateWorkResponse::GenericError(_) => 0,
        }
    }
}

#[derive(Debug, PartialEq)]
pub enum CreateWorkBatchResponse {
    /// Created Entities
    CreatedEntities(Vec<models::EntityEdit>),
    /// Bad Request
    BadRequest(models::ErrorResponse),
    /// Not Found
    NotFound(models::ErrorResponse),
    /// Generic Error
    GenericError(models::ErrorResponse),
}

impl CreateWorkBatchResponse {
    /// The HTTP status that the server answers this with.
    pub open spec fn status(&self) -> u16 {
        match self {
            CreateWorkBatchResponse::CreatedEntities(_) => 201,
            CreateWorkBatchResponse::BadRequest(_) => 400,
            CreateWorkBatchResponse::NotFound(_) => 404,
            CreateWorkBatchResponse::GenericError(_) => 0,
        }
    }

    /// The HTTP status that the server answers this with.
    pub fn status_code(&self) -> (r: u16)
        ensures
            r == self.status(),
    {
        match self {
            CreateWorkBatchResponse::CreatedEntities(_) => 201,
            CreateWorkBatchResponse::BadRequest(_) => 400,
            CreateWorkBatchResponse::NotFound(_) => 404,
            CreateWorkBatchResponse::GenericError(_) => 0,
        }
    }
}

/// The answers of `get_container_history`. The API names the model of a
/// history entry but does not define it, so an entry is held as its JSON
/// value. No route of the server serves this operation.
#[derive(Debug, PartialEq)]
pub enum GetContainerHistoryResponse {
    /// Found Entity History
    FoundEntityHistory(Vec<serde_json::Value>),
    /// Bad Request
    BadRequest(models::ErrorResponse),
    /// Not Found
    NotFound(models::ErrorResponse),
    /// Generic Error
    GenericError(models::ErrorResponse),
}

/// The answers of `get_stats`. The API names the model of the statistics
/// but does not define it, so they are held as their JSON value. No route of
/// the server serves this operation.
#[derive(Debug, PartialEq)]
pub enum GetStatsResponse {
    /// Success
    Success(serde_json::Value),
    /// Generic Error
    GenericError(models::ErrorResponse),
}

#[derive(Debug, PartialEq)]
pub enum GetContainerResponse {
    /// Found Entity
    FoundEntity(models::ContainerEntity),
    /// Bad Request
    BadRequest(models::ErrorResponse),
    /// Not Found
    NotFound(models::ErrorResponse),
    /// Generic Error
    GenericError(models::ErrorResponse),
}

impl GetContainerResponse {
    /// The HTTP status that the server answers this with.
    pub open spec fn status(&self) -> u16 {
        match self {
            GetContainerResponse::FoundEntity(_) => 200,
            GetContainerResponse::BadRequest(_) => 400,
            GetContainerResponse::NotFound(_) => 404,
            GetContainerResponse::GenericError(_) => 0,
        }
    }

    /// The HTTP status that the server answers this with.
    pub fn status_code(&self) -> (r: u16)
        ensures
            r == self.status(),
    {
        match self {
            GetContainerResponse::FoundEntity(_) => 200,
            GetContainerResponse::BadRequest(_) => 400,
            GetContainerResponse::NotFound(_) => 404,
            GetContainerResponse::GenericError(_) => 0,
        }
    }
}

#[derive(Debug, PartialEq)]
pub enum GetCreatorResponse {
    /// Found Entity
    FoundEntity(models::CreatorEntity),
    /// Bad Request
    BadRequest(models::ErrorResponse),
    /// Not Found
    NotFound(models::ErrorResponse),
    /// Generic Error
    GenericError(models::ErrorResponse),
}

impl GetCreatorResponse {
    /// The HTTP status that the server answers this with.
    pub open spec fn status(&self) -> u16 {
        match self {
            GetCreatorResponse::FoundEntity(_) => 200,
            GetCreatorResponse::BadRequest(_) => 400,
            GetCreatorResponse::NotFound(_) => 404,
            GetCreatorResponse::GenericError(_) => 0,
        }
    }

    /// The HTTP status that the server answers this with.
    pub fn status_code(&self) -> (r: u16)
        ensures
            r == self.status(),
    {
        match self {
            GetCreatorResponse::FoundEntity(_) => 200,
            GetCreatorResponse::BadRequest(_) => 400,
            GetCreatorResponse::NotFound(_) => 404,
            GetCreatorResponse::GenericError(_) => 0,
        }
    }
}

#[derive(Debug, PartialEq)]
pub enum GetCreatorReleasesResponse {
    /// Found Entity
    FoundEntity(Vec<models::ReleaseEntity>),
    /// Bad Request
    BadRequest(models::ErrorResponse),
    /// Not Found
    NotFound(models::ErrorResponse),
    /// Generic Error
    GenericError(models::ErrorResponse),
}

impl GetCreatorReleasesResponse {
    /// The HTTP status that the server answers this with.
    pub open spec fn status(&self) -> u16 {
        match self {
            GetCreatorReleasesResponse::FoundEntity(_) => 200,
            GetCreatorReleasesResponse::BadRequest(_) => 400,
            GetCreatorReleasesResponse::NotFound(_) => 404,
            GetCreatorReleasesResponse::GenericError(_) => 0,
        }
    }

    /// The HTTP status that the server answers this with.
    pub fn status_code(&self) -> (r: u16)
        ensures
            r == self.status(),
    {
        match self {
            GetCreatorReleasesResponse::FoundEntity(_) => 200,
            GetCreatorReleasesResponse::BadRequest(_) => 400,
            GetCreatorReleasesResponse::NotFound(_) => 404,
            GetCreatorReleasesResponse::GenericError(_) => 0,
        }
    }
}

#[derive(Debug, PartialEq)]
pub enum GetEditgroupResponse {
    /// Found Entity
    FoundEntity(models::Editgroup),
    /// Bad Request
    BadRequest(models::ErrorResponse),
    /// Not Found
    NotFound(models::ErrorResponse),
    /// Generic Error
    GenericError(models::ErrorResponse),
}

impl GetEditgroupResponse {
    /// The HTTP status that the server answers this with.
    pub open spec fn status(&self) -> u16 {
        match self {
            GetEditgroupResponse::FoundEntity(_) => 200,
            GetEditgroupResponse::BadRequest(_) => 400,
            GetEditgroupResponse::NotFound(_) => 404,
            GetEditgroupResponse::GenericError(_) => 0,
        }
    }

    /// The HTTP status that the server answers this with.
    pub fn status_code(&self) -> (r: u16)
        ensures
            r == self.status(),
    {
        match self {
            GetEditgroupResponse::FoundEntity(_) => 200,
            GetEditgroupResponse::BadRequest(_) => 400,
            GetEditgroupResponse::NotFound(_) => 404,
            GetEditgroupResponse::GenericError(_) => 0,
        }
    }
}

#[derive(Debug, PartialEq)]
pub enum GetEditorResponse {
    /// Found Editor
    FoundEditor(models::Editor),
    /// Not Found
    NotFound(models::ErrorResponse),
    /// Generic Error
    GenericError(models::ErrorResponse),
}

impl GetEditorResponse {
    /// The HTTP status that the server answers this with.
    pub open spec fn status(&self) -> u16 {
        match self {
            GetEditorResponse::FoundEditor(_) => 200,
            GetEditorResponse::NotFound(_) => 404,
            GetEditorResponse::GenericError(_) => 0,
        }
    }

    /// The HTTP status that the server answers this with.
    pub fn status_code(&self) -> (r: u16)
        ensures
            r == self.status(),
    {
        match self {
            GetEditorResponse::FoundEditor(_) => 200,
            GetEditorResponse::NotFound(_) => 404,
            GetEditorResponse::GenericError(_) => 0,
        }
    }
}

#[derive(Debug, PartialEq)]
pub enum GetEditorChangelogResponse {
    /// Found Merged Changes
    FoundMergedChanges(Vec<models::ChangelogentriesInner>),
    /// Not Found
    NotFound(models::ErrorResponse),
    /// Generic Error
    GenericError(models::ErrorResponse),
}

impl GetEditorChangelogResponse {
    /// The HTTP status that the server answers this with.
    pub open spec fn status(&self) -> u16 {
        match self {
            GetEditorChangelogResponse::FoundMergedChanges(_) => 200,
            GetEditorChangelogResponse::NotFound(_) => 404,
            GetEditorChangelogResponse::GenericError(_) => 0,
        }
    }

    /// The HTTP status that the server answers this with.
    pub fn status_code(&self) -> (r: u16)
        ensures
            r == self.status(),
    {
        match self {
            GetEditorChangelogResponse::FoundMergedChanges(_) => 200,
            GetEditorChangelogResponse::NotFound(_) => 404,
            GetEditorChangelogResponse::GenericError(_) => 0,
        }
    }
}

#[derive(Debug, PartialEq)]
pub enum GetFileResponse {
    /// Found Entity
    FoundEntity(models::FileEntity),
    /// Bad Request
    BadRequest(models::ErrorResponse),
    /// Not Found
    NotFound(models::ErrorResponse),
    /// Generic Error
    GenericError(models::ErrorResponse),
}

impl GetFileResponse {
    /// The HTTP status that the server answers this with.
    pub open spec fn status(&self) -> u16 {
        match self {
            GetFileResponse::FoundEntity(_) => 200,
            GetFileResponse::BadRequest(_) => 400,
            GetFileResponse::NotFound(_) => 404,
            GetFileResponse::GenericError(_) => 0,
        }
    }

    /// The HTTP status that the server answers this with.
    pub fn status_code(&self) -> (r: u16)
        ensures
            r == self.status(),
    {
        match self {
            GetFileResponse::FoundEntity(_) => 200,
            GetFileResponse::BadRequest(_) => 400,
            GetFileResponse::NotFound(_) => 404,
            GetFileResponse::GenericError(_) => 0,
        }
    }
}

#[derive(Debug, PartialEq)]
pub enum GetReleaseResponse {
    /// Found Entity
    FoundEntity(models::ReleaseEntity),
    /// Bad Request
    BadRequest(models::ErrorResponse),
    /// Not Found
    NotFound(models::ErrorResponse),
    /// Generic Error
    GenericError(models::ErrorResponse),
}

impl GetReleaseResponse {
    /// The HTTP status that the server answers this with.
    pub open spec fn status(&self) -> u16 {
        match self {
            GetReleaseResponse::FoundEntity(_) => 200,
            GetReleaseResponse::BadRequest(_) => 400,
            GetReleaseResponse::NotFound(_) => 404,
            GetReleaseResponse::GenericError(_) => 0,
        }
    }

    /// The HTTP status that the server answers this with.
    pub fn status_code(&self) -> (r: u16)
        ensures
            r == self.status(),
    {
        match self {
            GetReleaseResponse::FoundEntity(_) => 200,
            GetReleaseResponse::BadRequest(_) => 400,
            GetReleaseResponse::NotFound(_) => 404,
            GetReleaseResponse::GenericError(_) => 0,
        }
    }
}

#[derive(Debug, PartialEq)]
pub enum GetReleaseFilesResponse {
    /// Found Entity
    FoundEntity(Vec<models::FileEntity>),
    /// Bad Request
    BadRequest(models::ErrorResponse),
    /// Not Found
    NotFound(models::ErrorResponse),
    /// Generic Error
    GenericError(models::ErrorResponse),
}

impl GetReleaseFilesResponse {
    /// The HTTP status that the server answers this with.
    pub open spec fn status(&self) -> u16 {
        match self {
            GetReleaseFilesResponse::FoundEntity(_) => 200,
            GetReleaseFilesResponse::BadRequest(_) => 400,
            GetReleaseFilesResponse::NotFound(_) => 404,
            GetReleaseFilesResponse::GenericError(_) => 0,
        }
    }

    /// The HTTP status that the server answers this with.
    pub fn status_code(&self) -> (r: u16)
        ensures
            r == self.status(),
    {
        match self {
            GetReleaseFilesResponse::FoundEntity(_) => 200,
            GetReleaseFilesResponse::BadRequest(_) => 400,
            GetReleaseFilesResponse::NotFound(_) => 404,
            GetReleaseFilesResponse::GenericError(_) => 0,
        }
    }
}

#[derive(Debug, PartialEq)]
pub enum GetWorkResponse {
    /// Found Entity
    FoundEntity(models::WorkEntity),
    /// Bad Request
    BadRequest(models::ErrorResponse),
    /// Not Found
    NotFound(models::ErrorResponse),
    /// Generic Error
    GenericError(models::ErrorResponse),
}

impl GetWorkResponse {
    /// The HTTP status that the server answers this with.
    pub open spec fn status(&self) -> u16 {
        match self {
            GetWorkResponse::FoundEntity(_) => 200,
            GetWorkResponse::BadRequest(_) => 400,
            GetWorkResponse::NotFound(_) => 404,
            GetWorkResponse::GenericError(_) => 0,
        }
    }

    /// The HTTP status that the server answers this with.
    pub fn status_code(&self) -> (r: u16)
        ensures
            r == self.status(),
    {
        match self {
            GetWorkResponse::FoundEntity(_) => 200,
            GetWorkResponse::BadRequest(_) => 400,
            GetWorkResponse::NotFound(_) => 404,
            GetWorkResponse::GenericError(_) => 0,
        }
    }
}

#[derive(Debug, PartialEq)]
pub enum GetWorkReleasesResponse {
    /// Found Entity
    FoundEntity(Vec<models::ReleaseEntity>),
    /// Bad Request
    BadRequest(models::ErrorResponse),
    /// Not Found
    NotFound(models::ErrorResponse),
    /// Generic Error
    GenericError(models::ErrorResponse),
}

impl GetWorkReleasesResponse {
    /// The HTTP status that the server answers this with.
    pub open spec fn status(&self) -> u16 {
        match self {
            GetWorkReleasesResponse::FoundEntity(_) => 200,
            GetWorkReleasesResponse::BadRequest(_) => 400,
            GetWorkReleasesResponse::NotFound(_) => 404,
            GetWorkReleasesResponse::GenericError(_) => 0,
        }
    }

    /// The HTTP status that the server answers this with.
    pub fn status_code(&self) -> (r: u16)
        ensures
            r == self.status(),
    {
        match self {
            GetWorkReleasesResponse::FoundEntity(_) => 200,
            GetWorkReleasesResponse::BadRequest(_) => 400,
            GetWorkReleasesResponse::NotFound(_) => 404,
            GetWorkReleasesResponse::GenericError(_) => 0,
        }
    }
}

#[derive(Debug, PartialEq)]
pub enum LookupContainerResponse {
    /// Found Entity
    FoundEntity(models::ContainerEntity),
    /// Bad Request
    BadRequest(models::ErrorResponse),
    /// Not Found
    NotFound(models::ErrorResponse),
    /// Generic Error
    GenericError(models::ErrorResponse),
}

impl LookupContainerResponse {
    /// The HTTP status that the server answers this with.
    pub open spec fn status(&self) -> u16 {
        match self {
            LookupContainerResponse::FoundEntity(_) => 200,
            LookupContainerResponse::BadRequest(_) => 400,
            LookupContainerResponse::NotFound(_) => 404,
            LookupContainerResponse::GenericError(_) => 0,
        }
    }

    /// The HTTP status that the server answers this with.
    pub fn status_code(&self) -> (r: u16)
        ensures
            r == self.status(),
    {
        match self {
            LookupContainerResponse::FoundEntity(_) => 200,
            LookupContainerResponse::BadRequest(_) => 400,
            LookupContainerResponse::NotFound(_) => 404,
            LookupContainerResponse::GenericError(_) => 0,
        }
    }
}

#[derive(Debug, PartialEq)]
pub enum LookupCreatorResponse {
    /// Found Entity
    FoundEntity(models::CreatorEntity),
    /// Bad Request
    BadRequest(models::ErrorResponse),
    /// Not Found
    NotFound(models::ErrorResponse),
    /// Generic Error
    GenericError(models::ErrorResponse),
}

impl LookupCreatorResponse {
    /// The HTTP status that the server answers this with.
    pub open spec fn status(&self) -> u16 {
        match self {
            LookupCreatorResponse::FoundEntity(_) => 200,
            LookupCreatorResponse::BadRequest(_) => 400,
            LookupCreatorResponse::NotFound(_) => 404,
            LookupCreatorResponse::GenericError(_) => 0,
        }
    }

    /// The HTTP status that the server answers this with.
    pub fn status_code(&self) -> (r: u16)
        ensures
            r == self.status(),
    {
        match self {
            LookupCreatorResponse::FoundEntity(_) => 200,
            LookupCreatorResponse::BadRequest(_) => 400,
            LookupCreatorResponse::NotFound(_) => 404,
            LookupCreatorResponse::GenericError(_) => 0,
        }
    }
}

#[derive(Debug, PartialEq)]
pub enum LookupFileResponse {
    /// Found Entity
    FoundEntity(models::FileEntity),
    /// Bad Request
    BadRequest(models::ErrorResponse),
    /// Not Found
    NotFound(models::ErrorResponse),
    /// Generic Error
    GenericError(models::ErrorResponse),
}

impl LookupFileResponse {
    /// The HTTP status that the server answers this with.
    pub open spec fn status(&self) -> u16 {
        match self {
            LookupFileResponse::FoundEntity(_) => 200,
            LookupFileResponse::BadRequest(_) => 400,
            LookupFileResponse::NotFound(_) => 404,
            LookupFileResponse::GenericError(_) => 0,
        }
    }

    /// The HTTP status that the server answers this with.
    pub fn status_code(&self) -> (r: u16)
        ensures
            r == self.status(),
    {
        match self {
            LookupFileResponse::FoundEntity(_) => 200,
            LookupFileResponse::BadRequest(_) => 400,
            LookupFileResponse::NotFound(_) => 404,
            LookupFileResponse::GenericError(_) => 0,
        }
    }
}

#[derive(Debug, PartialEq)]
pub enum LookupReleaseResponse {
    /// Found Entity
    FoundEntity(models::ReleaseEntity),
    /// Bad Request
    BadRequest(models::ErrorResponse),
    /// Not Found
    NotFound(models::ErrorResponse),
    /// Generic Error
    GenericError(models::ErrorResponse),
}

impl LookupReleaseResponse {
    /// The HTTP status that the server answers this with.
    pub open spec fn status(&self) -> u16 {
        match self {
            LookupReleaseResponse::FoundEntity(_) => 200,
            LookupReleaseResponse::BadRequest(_) => 400,
            LookupReleaseResponse::NotFound(_) => 404,
            LookupReleaseResponse::GenericError(_) => 0,
        }
    }

    /// The HTTP status that the server answers this with.
    pub fn status_code(&self) -> (r: u16)
        ensures
            r == self.status(),
    {
        match self {
            LookupReleaseResponse::FoundEntity(_) => 200,
            LookupReleaseResponse::BadRequest(_) => 400,
            LookupReleaseResponse::NotFound(_) => 404,
            LookupReleaseResponse::GenericError(_) => 0,
        }
    }
}

/// Every answer is sent with the HTTP status its kind stands for, in every
/// operation: a found, merged or fetched result with 200 OK, a created
/// entity or entities with 201 Created, a bad or unmergeable request with
/// 400 Bad Request, a missing entity with 404 Not Found, and the generic
/// error with 0.
pub proof fn lemma_statuses_by_kind()
    ensures
        forall|r: AcceptEditgroupResponse|
            #![trigger r.status()]
            (r is MergedSuccessfully ==> r.status() == 200)
                && (r is Unmergable ==> r.status() == 400)
                && (r is NotFound ==> r.status() == 404)
                && (r is GenericError ==> r.status() == 0),
        forall|r: CreateContainerResponse|
            #![trigger r.status()]
            (r is CreatedEntity ==> r.status() == 201)
                && (r is BadRequest ==> r.status() == 400)
                && (r is NotFound ==> r.status() == 404)
                && (r is GenericError ==> r.status() == 0),
        forall|r: CreateContainerBatchResponse|
            #![trigger r.status()]
            (r is CreatedEntities ==> r.status() == 201)
                && (r is BadRequest ==> r.status() == 400)
                && (r is NotFound ==> r.status() == 404)
                && (r is GenericError ==> r.status() == 0),
        forall|r: CreateCreatorResponse|
            #![trigger r.status()]
            (r is CreatedEntity ==> r.status() == 201)
                && (r is BadRequest ==> r.status() == 400)
                && (r is NotFound ==> r.status() == 404)
                && (r is GenericError ==> r.status() == 0),
        forall|r: CreateCreatorBatchResponse|
            #![trigger r.status()]
            (r is CreatedEntities ==> r.status() == 201)
                && (r is BadRequest ==> r.status() == 400)
                && (r is NotFound ==> r.status() == 404)
                && (r is GenericError ==> r.status() == 0),
        forall|r: CreateEditgroupResponse|
            #![trigger r.status()]
            (r is SuccessfullyCreated ==> r.status() == 201)
                && (r is BadRequest ==> r.status() == 400)
                && (r is GenericError ==> r.status() == 0),
        forall|r: CreateFileResponse|
            #![trigger r.status()]
            (r is CreatedEntity ==> r.status() == 201)
                && (r is BadRequest ==> r.status() == 400)
                && (r is NotFound ==> r.status() == 404)
                && (r is GenericError ==> r.status() == 0),
        forall|r: CreateFileBatchResponse|
            #![trigger r.status()]
            (r is CreatedEntities ==> r.status() == 201)
                && (r is BadRequest ==> r.status() == 400)
                && (r is NotFound ==> r.status() == 404)
                && (r is GenericError ==> r.status() == 0),
        forall|r: CreateReleaseResponse|
            #![trigger r.status()]
            (r is CreatedEntity ==> r.status() == 201)
                && (r is BadRequest ==> r.status() == 400)
                && (r is NotFound ==> r.status() == 404)
                && (r is GenericError ==> r.status() == 0),
        forall|r: CreateReleaseBatchResponse|
            #![trigger r.status()]
            (r is CreatedEntities ==> r.status() == 201)
                && (r is BadRequest ==> r.status() == 400)
                && (r is NotFound ==> r.status() == 404)
                && (r is GenericError ==> r.status() == 0),
        forall|r: CreateWorkResponse|
            #![trigger r.status()]
            (r is CreatedEntity ==> r.status() == 201)
                && (r is BadRequest ==> r.status() == 400)
                && (r is NotFound ==> r.status() == 404)
                && (r is GenericError ==> r.status() == 0),
        forall|r: CreateWorkBatchResponse|
            #![trigger r.status()]
            (r is CreatedEntities ==> r.status() == 201)
                && (r is BadRequest ==> r.status() == 400)
                && (r is NotFound ==> r.status() == 404)
                && (r is GenericError ==> r.status() == 0),
        forall|r: GetContainerResponse|
            #![trigger r.status()]
            (r is FoundEntity ==> r.status() == 200)
                && (r is BadRequest ==> r.status() == 400)
                && (r is NotFound ==> r.status() == 404)
                && (r is GenericError ==> r.status() == 0),
        forall|r: GetCreatorResponse|
            #![trigger r.status()]
            (r is FoundEntity ==> r.status() == 200)
                && (r is BadRequest ==> r.status() == 400)
                && (r is NotFound ==> r.status() == 404)
                && (r is GenericError ==> r.status() == 0),
        forall|r: GetCreatorReleasesResponse|
            #![trigger r.status()]
            (r is FoundEntity ==> r.status() == 200)
                && (r is BadRequest ==> r.status() == 400)
                && (r is NotFound ==> r.status() == 404)
                && (r is GenericError ==> r.status() == 0),
        forall|r: GetEditgroupResponse|
            #![trigger r.status()]
            (r is FoundEntity ==> r.status() == 200)
                && (r is BadRequest ==> r.status() == 400)
                && (r is NotFound ==> r.status() == 404)
                && (r is GenericError ==> r.status() == 0),
        forall|r: GetEditorResponse|
            #![trigger r.status()]
            (r is FoundEditor ==> r.status() == 200)
                && (r is NotFound ==> r.status() == 404)
                && (r is GenericError ==> r.status() == 0),
        forall|r: GetEditorChangelogResponse|
            #![trigger r.status()]
            (r is FoundMergedChanges ==> r.status() == 200)
                && (r is NotFound ==> r.status() == 404)
                && (r is GenericError ==> r.status() == 0),
        forall|r: GetFileResponse|
            #![trigger r.status()]
            (r is FoundEntity ==> r.status() == 200)
                && (r is BadRequest ==> r.status() == 400)
                && (r is NotFound ==> r.status() == 404)
                && (r is GenericError ==> r.status() == 0),
        forall|r: GetReleaseResponse|
            #![trigger r.status()]
            (r is FoundEntity ==> r.status() == 200)
                && (r is BadRequest ==> r.status() == 400)
                && (r is NotFound ==> r.status() == 404)
                && (r is GenericError ==> r.status() == 0),
        forall|r: GetReleaseFilesResponse|
            #![trigger r.status()]
            (r is FoundEntity ==> r.status() == 200)
                && (r is BadRequest ==> r.status() == 400)
                && (r is NotFound ==> r.status() == 404)
                && (r is GenericError ==> r.status() == 0),
        forall|r: GetWorkResponse|
            #![trigger r.status()]
            (r is FoundEntity ==> r.status() == 200)
                && (r is BadRequest ==> r.status() == 400)
                && (r is NotFound ==> r.status() == 404)
                && (r is GenericError ==> r.status() == 0),
        forall|r: GetWorkReleasesResponse|
            #![trigger r.status()]
            (r is FoundEntity ==> r.status() == 200)
                && (r is BadRequest ==> r.status() == 400)
                && (r is NotFound ==> r.status() == 404)
                && (r is GenericError ==> r.status() == 0),
        forall|r: LookupContainerResponse|
            #![trigger r.status()]
            (r is FoundEntity ==> r.status() == 200)
                && (r is BadRequest ==> r.status() == 400)
                && (r is NotFound ==> r.status() == 404)
                && (r is GenericError ==> r.status() == 0),
        forall|r: LookupCreatorResponse|
            #![trigger r.status()]
            (r is FoundEntity ==> r.status() == 200)
                && (r is BadRequest ==> r.status() == 400)
                && (r is NotFound ==> r.status() == 404)
                && (r is GenericError ==> r.status() == 0),
        forall|r: LookupFileResponse|
            #![trigger r.status()]
            (r is FoundEntity ==> r.status() == 200)
                && (r is BadRequest ==> r.status() == 400)
                && (r is NotFound ==> r.status() == 404)
                && (r is GenericError ==> r.status() == 0),
        forall|r: LookupReleaseResponse|
            #![trigger r.status()]
            (r is FoundEntity ==> r.status() == 200)
                && (r is BadRequest ==> r.status() == 400)
                && (r is NotFound ==> r.status() == 404)
                && (r is GenericError ==> r.status() == 0),
{
}

} // verus!
