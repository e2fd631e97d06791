//! The entities, edits and messages that the API exchanges.
//!
//! Free-form `extra` metadata is carried as a JSON value and points in time
//! as UTC timestamps; the library carries both through without reading them.

use vstd::prelude::*;
use vstd::std_specs::convert::{FromSpec, FromSpecImpl};

verus! {

#[verifier::external_type_specification]
#[verifier::external_body]
pub struct ExJsonValue(serde_json::Value);

/// The earliest second a timestamp can name: the start of January 1 of the
/// year -262143.
pub const MIN_TIMESTAMP_SECONDS: i64 = -8334601228800;

/// The last second a timestamp can name: the end of December 31 of the year
/// 262142.
pub const MAX_TIMESTAMP_SECONDS: i64 = 8210266876799;

/// Whether a second since the Unix epoch and the nanoseconds past it name a
/// point in time: the second lies in the calendar's range, and the
/// nanoseconds stay under one second, or under two within the last second
/// of a minute, where a leap second may stand.
pub open spec fn valid_timestamp(seconds: int, nanoseconds: int) -> bool {
    &&& MIN_TIMESTAMP_SECONDS <= seconds <= MAX_TIMESTAMP_SECONDS
    &&& 0 <= nanoseconds
    &&& (nanoseconds < 1_000_000_000 || (nanoseconds < 2_000_000_000 && seconds % 60 == 59))
}

/// `chrono::DateTime::<Utc>::from_timestamp` of the second and nanoseconds,
/// asked only whether it gives a point in time. Claimed, as chrono's source
/// shows it: it does exactly when they are valid (the day lies between the
/// first day of the year -262143 and the last of the year 262142, the
/// nanoseconds stay under one second, or under two in the last second of a
/// minute).
#[verifier::external_body]
fn chrono_holds(seconds: i64, nanoseconds: u32) -> (r: bool)
    ensures
        r == valid_timestamp(seconds as int, nanoseconds as int),
{
    chrono::DateTime::<chrono::Utc>::from_timestamp(seconds, nanoseconds).is_some()
}

/// A point in time in UTC: whole seconds since the Unix epoch, and the
/// nanoseconds past that second.
#[derive(Debug, Clone, Copy, PartialEq, Eq)]
pub struct Timestamp {
    seconds: i64,
    nanoseconds: u32,
}

impl Timestamp {
    /// Every timestamp names a point in time.
    #[verifier::type_invariant]
    spec fn names_a_point(self) -> bool {
        valid_timestamp(self.seconds as int, self.nanoseconds as int)
    }

    /// The whole seconds since the Unix epoch.
    pub closed spec fn spec_seconds(self) -> i64 {
        self.seconds
    }

    /// The nanoseconds past that second.
    pub closed spec fn spec_nanoseconds(self) -> u32 {
        self.nanoseconds
    }

    /// The timestamp of the given second and nanoseconds, when they name a
    /// point in time.
    pub fn new(seconds: i64, nanoseconds: u32) -> (r: Option<Timestamp>)
        ensures
            r is Some <==> valid_timestamp(seconds as int, nanoseconds as int),
            r matches Some(t) ==> t.spec_seconds() == seconds && t.spec_nanoseconds()
                == nanoseconds,
    {
        if chrono_holds(seconds, nanoseconds) {
            Some(Timestamp { seconds, nanoseconds })
        } else {
            None
        }
    }

    /// The whole seconds since the Unix epoch.
    pub fn seconds(&self) -> (r: i64)
        ensures
            r == self.spec_seconds(),
            valid_timestamp(self.spec_seconds() as int, self.spec_nanoseconds() as int),
    {
        proof {
            use_type_invariant(self);
        }
        self.seconds
    }

    /// The nanoseconds past that second.
    pub fn nanoseconds(&self) -> (r: u32)
        ensures
            r == self.spec_nanoseconds(),
            valid_timestamp(self.spec_seconds() as int, self.spec_nanoseconds() as int),
    {
        proof {
            use_type_invariant(self);
        }
        self.nanoseconds
    }
}

/// One entry of an editor's changelog: the editgroup merged at a position of the log.
#[derive(Debug, Clone, PartialEq)]
pub struct ChangelogentriesInner {
    pub index: i64,
    pub editgroup_id: i64,
    pub timestamp: Timestamp,
}

impl ChangelogentriesInner {
    pub fn new(index: i64, editgroup_id: i64, timestamp: Timestamp) -> (r:
        ChangelogentriesInner)
        ensures
            r.index == index,
            r.editgroup_id == editgroup_id,
            r.timestamp == timestamp,
    {
        ChangelogentriesInner { index: index, editgroup_id: editgroup_id, timestamp: timestamp }
    }
}

/// A list of changelog entries.
#[derive(Debug, Clone, PartialEq)]
pub struct Changelogentries(Vec<ChangelogentriesInner>);

impl View for Changelogentries {
    type V = Seq<ChangelogentriesInner>;

    closed spec fn view(&self) -> Seq<ChangelogentriesInner> {
        self.0@
    }
}

impl core::ops::Deref for Changelogentries {
    type Target = Vec<ChangelogentriesInner>;

    fn deref(&self) -> (r: &Vec<ChangelogentriesInner>)
        ensures
            r@ == self@,
    {
        &self.0
    }
}

impl From<Vec<ChangelogentriesInner>> for Changelogentries {
    fn from(x: Vec<ChangelogentriesInner>) -> (r: Changelogentries) {
        Changelogentries(x)
    }
}

impl FromSpecImpl<Vec<ChangelogentriesInner>> for Changelogentries {
    open spec fn obeys_from_spec() -> bool {
        true
    }

    closed spec fn from_spec(v: Vec<ChangelogentriesInner>) -> Changelogentries {
        Changelogentries(v)
    }
}

impl From<Changelogentries> for Vec<ChangelogentriesInner> {
    fn from(x: Changelogentries) -> (r: Vec<ChangelogentriesInner>) {
        x.0
    }
}

impl FromSpecImpl<Changelogentries> for Vec<ChangelogentriesInner> {
    open spec fn obeys_from_spec() -> bool {
        true
    }

    closed spec fn from_spec(v: Changelogentries) -> Vec<ChangelogentriesInner> {
        v.0
    }
}

/// Wrapping a list of entries and unwrapping it again gives the same list.
pub proof fn lemma_changelog_entries_round_trip(v: Vec<ChangelogentriesInner>)
    ensures
        <Vec<ChangelogentriesInner> as FromSpec<Changelogentries>>::from_spec(
            <Changelogentries as FromSpec<Vec<ChangelogentriesInner>>>::from_spec(v),
        ) == v,
        <Changelogentries as FromSpec<Vec<ChangelogentriesInner>>>::from_spec(v)@ == v@,
{
}

/// Unwrapping a list of entries and wrapping it again gives the same list,
/// and the list unwrapped holds the entries in the list's order.
pub proof fn lemma_changelog_entries_unwrap_round_trip(c: Changelogentries)
    ensures
        <Changelogentries as FromSpec<Vec<ChangelogentriesInner>>>::from_spec(
            <Vec<ChangelogentriesInner> as FromSpec<Changelogentries>>::from_spec(c),
        ) == c,
        <Vec<ChangelogentriesInner> as FromSpec<Changelogentries>>::from_spec(c)@ == c@,
{
}

/// A journal or other serial publication.
#[derive(Debug, Clone, PartialEq)]
pub struct ContainerEntity {
    pub issn: Option<String>,
    pub publisher: Option<String>,
    pub name: String,
    pub state: Option<String>,
    pub ident: Option<String>,
    pub revision: Option<i64>,
    pub redirect: Option<String>,
    pub editgroup_id: Option<i64>,
    pub extra: Option<serde_json::Value>,
}

impl ContainerEntity {
    pub fn new(name: String) -> (r: ContainerEntity)
        ensures
            r.name == name,
            r.issn is None,
            r.publisher is None,
            r.state is None,
            r.ident is None,
            r.revision is None,
            r.redirect is None,
            r.editgroup_id is None,
            r.extra is None,
    {
        ContainerEntity {
            issn: None,
            publisher: None,
            name: name,
            state: None,
            ident: None,
            revision: None,
            redirect: None,
            editgroup_id: None,
            extra: None,
        }
    }
}

/// A person or organization credited with works.
#[derive(Debug, Clone, PartialEq)]
pub struct CreatorEntity {
    pub orcid: Option<String>,
    pub name: String,
    pub extra: Option<serde_json::Value>,
    pub editgroup_id: Option<i64>,
    pub redirect: Option<String>,
    pub revision: Option<i64>,
    pub ident: Option<String>,
    pub state: Option<String>,
}

impl CreatorEntity {
    pub fn new(name: String) -> (r: CreatorEntity)
        ensures
            r.name == name,
            r.orcid is None,
            r.extra is None,
            r.editgroup_id is None,
            r.redirect is None,
            r.revision is None,
            r.ident is None,
            r.state is None,
    {
        CreatorEntity {
            orcid: None,
            name: name,
            extra: None,
            editgroup_id: None,
            redirect: None,
            revision: None,
            ident: None,
            state: None,
        }
    }
}

/// A group of edits made by one editor, merged together.
#[derive(Debug, Clone, PartialEq)]
pub struct Editgroup {
    pub id: Option<i64>,
    pub editor_id: i64,
    pub description: Option<String>,
    pub extra: Option<serde_json::Value>,
    pub edits: Option<EditgroupEdits>,
}

impl Editgroup {
    pub fn new(editor_id: i64) -> (r: Editgroup)
        ensures
            r.editor_id == editor_id,
            r.id is None,
            r.description is None,
            r.extra is None,
            r.edits is None,
    {
        Editgroup { id: None, editor_id: editor_id, description: None, extra: None, edits: None }
    }
}

/// The edits of an editgroup, by kind of entity.
#[derive(Debug, Clone, PartialEq)]
pub struct EditgroupEdits {
    pub containers: Option<Vec<EntityEdit>>,
    pub creators: Option<Vec<EntityEdit>>,
    pub files: Option<Vec<EntityEdit>>,
    pub releases: Option<Vec<EntityEdit>>,
    pub works: Option<Vec<EntityEdit>>,
}

impl EditgroupEdits {
    pub fn new() -> (r: EditgroupEdits)
        ensures
            r.containers is None,
            r.creators is None,
            r.files is None,
            r.releases is None,
            r.works is None,
    {
        EditgroupEdits { containers: None, creators: None, files: None, releases: None, works: None }
    }
}

/// A user who edits the catalog.
#[derive(Debug, Clone, PartialEq)]
pub struct Editor {
    pub username: String,
}

impl Editor {
    pub fn new(username: String) -> (r: Editor)
        ensures
            r.username == username,
    {
        Editor { username: username }
    }
}

/// One edit of one entity, within an editgroup.
#[derive(Debug, Clone, PartialEq)]
pub struct EntityEdit {
    pub extra: Option<serde_json::Value>,
    pub editgroup_id: i64,
    pub redirect_ident: Option<String>,
    pub revision: Option<i64>,
    pub ident: String,
    pub edit_id: i64,
}

impl EntityEdit {
    pub fn new(editgroup_id: i64, ident: String, edit_id: i64) -> (r: EntityEdit)
        ensures
            r.editgroup_id == editgroup_id,
            r.ident == ident,
            r.edit_id == edit_id,
            r.extra is None,
            r.redirect_ident is None,
            r.revision is None,
    {
        EntityEdit {
            extra: None,
            editgroup_id: editgroup_id,
            redirect_ident: None,
            revision: None,
            ident: ident,
            edit_id: edit_id,
        }
    }
}

/// The message that an error answer carries.
#[derive(Debug, Clone, PartialEq)]
pub struct ErrorResponse {
    pub message: String,
}

impl ErrorResponse {
    pub fn new(message: String) -> (r: ErrorResponse)
        ensures
            r.message == message,
    {
        ErrorResponse { message: message }
    }
}

/// A file: one copy of the full text of a release, where it can be fetched.
#[derive(Debug, Clone, PartialEq)]
pub struct FileEntity {
    pub releases: Option<Vec<String>>,
    pub url: Option<String>,
    pub sha1: Option<String>,
    pub size: Option<i64>,
    pub extra: Option<serde_json::Value>,
    pub editgroup_id: Option<i64>,
    pub redirect: Option<String>,
    pub revision: Option<i64>,
    pub ident: Option<String>,
    pub state: Option<String>,
}

impl FileEntity {
    pub fn new() -> (r: FileEntity)
        ensures
            r.releases is None,
            r.url is None,
            r.sha1 is None,
            r.size is None,
            r.extra is None,
            r.editgroup_id is None,
            r.redirect is None,
            r.revision is None,
            r.ident is None,
            r.state is None,
    {
        FileEntity {
            releases: None,
            url: None,
            sha1: None,
            size: None,
            extra: None,
            editgroup_id: None,
            redirect: None,
            revision: None,
            ident: None,
            state: None,
        }
    }
}

/// A contributor of a release, as the release credits it.
#[derive(Debug, Clone, PartialEq)]
pub struct ReleaseContrib {
    pub index: Option<i64>,
    pub creator_id: Option<String>,
    pub creator_stub: Option<String>,
    pub contrib_type: Option<String>,
}

impl ReleaseContrib {
    pub fn new() -> (r: ReleaseContrib)
        ensures
            r.index is None,
            r.creator_id is None,
            r.creator_stub is None,
            r.contrib_type is None,
    {
        ReleaseContrib { index: None, creator_id: None, creator_stub: None, contrib_type: None }
    }
}

/// A published version of a work.
#[derive(Debug, Clone, PartialEq)]
pub struct ReleaseEntity {
    pub refs: Option<Vec<ReleaseRef>>,
    pub contribs: Option<Vec<ReleaseContrib>>,
    pub issue: Option<String>,
    pub pages: Option<String>,
    pub volume: Option<String>,
    pub doi: Option<String>,
    pub date: Option<Timestamp>,
    pub release_type: Option<String>,
    pub container_id: Option<String>,
    pub work_id: String,
    pub title: String,
    pub state: Option<String>,
    pub ident: Option<String>,
    pub revision: Option<i64>,
    pub redirect: Option<String>,
    pub editgroup_id: Option<i64>,
    pub extra: Option<serde_json::Value>,
}

impl ReleaseEntity {
    pub fn new(work_id: String, title: String) -> (r: ReleaseEntity)
        ensures
            r.work_id == work_id,
            r.title == title,
            r.refs is None,
            r.contribs is None,
            r.issue is None,
            r.pages is None,
            r.volume is None,
            r.doi is None,
            r.date is None,
            r.release_type is None,
            r.container_id is None,
            r.state is None,
            r.ident is None,
            r.revision is None,
            r.redirect is None,
            r.editgroup_id is None,
            r.extra is None,
    {
        ReleaseEntity {
            refs: None,
            contribs: None,
            issue: None,
            pages: None,
            volume: None,
            doi: None,
            date: None,
            release_type: None,
            container_id: None,
            work_id: work_id,
            title: title,
            state: None,
            ident: None,
            revision: None,
            redirect: None,
            editgroup_id: None,
            extra: None,
        }
    }
}

/// A reference from a release to another one, or to a stub citation.
#[derive(Debug, Clone, PartialEq)]
pub struct ReleaseRef {
    pub index: Option<i64>,
    pub target_release_id: Option<String>,
    pub stub: Option<String>,
}

impl ReleaseRef {
    pub fn new() -> (r: ReleaseRef)
        ensures
            r.index is None,
            r.target_release_id is None,
            r.stub is None,
    {
        ReleaseRef { index: None, target_release_id: None, stub: None }
    }
}

/// The message that a successful answer carries.
#[derive(Debug, Clone, PartialEq)]
pub struct Success {
    pub message: String,
}

impl Success {
    pub fn new(message: String) -> (r: Success)
        ensures
            r.message == message,
    {
        Success { message: message }
    }
}

/// An abstract creative work, of which releases are versions.
#[derive(Debug, Clone, PartialEq)]
pub struct WorkEntity {
    pub work_type: Option<String>,
    pub extra: Option<serde_json::Value>,
    pub editgroup_id: Option<i64>,
    pub redirect: Option<String>,
    pub revision: Option<i64>,
    pub ident: Option<String>,
    pub state: Option<String>,
}

impl WorkEntity {
    pub fn new() -> (r: WorkEntity)
        ensures
            r.work_type is None,
            r.extra is None,
            r.editgroup_id is None,
            r.redirect is None,
            r.revision is None,
            r.ident is None,
            r.state is None,
    {
        WorkEntity {
            work_type: None,
            extra: None,
            editgroup_id: None,
            redirect: None,
            revision: None,
            ident: None,
            state: None,
        }
    }
}

} // verus!
