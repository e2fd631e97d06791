use chrono::{DateTime, Utc};
use fatcat::models::{
    Changelogentries, ChangelogentriesInner, ContainerEntity, CreatorEntity, Editgroup,
    EditgroupEdits, Editor, EntityEdit, ErrorResponse, FileEntity, ReleaseContrib, ReleaseEntity,
    ReleaseRef, Success, Timestamp, WorkEntity, MIN_TIMESTAMP_SECONDS, MAX_TIMESTAMP_SECONDS,
};
use fatcat::{
    AcceptEditgroupResponse, CreateContainerBatchResponse, CreateContainerResponse,
    CreateEditgroupResponse, GetEditorChangelogResponse, GetEditorResponse, GetReleaseFilesResponse,
    LookupReleaseResponse, GetContainerHistoryResponse, GetStatsResponse,
};

fn err(m: &str) -> ErrorResponse {
    ErrorResponse::new(m.to_string())
}

#[test]
fn constructors_set_required_fields_only() {
    let c = ContainerEntity::new("Journal of Tests".to_string());
    assert_eq!(c.name, "Journal of Tests");
    assert!(c.issn.is_none() && c.publisher.is_none() && c.state.is_none() && c.ident.is_none());
    assert!(c.revision.is_none() && c.redirect.is_none() && c.editgroup_id.is_none() && c.extra.is_none());

    let cr = CreatorEntity::new("Ada".to_string());
    assert_eq!(cr.name, "Ada");
    assert!(cr.orcid.is_none() && cr.extra.is_none() && cr.state.is_none());

    let eg = Editgroup::new(7);
    assert_eq!(eg.editor_id, 7);
    assert!(eg.id.is_none() && eg.description.is_none() && eg.extra.is_none() && eg.edits.is_none());

    let edits = EditgroupEdits::new();
    assert!(edits.containers.is_none() && edits.creators.is_none() && edits.files.is_none());
    assert!(edits.releases.is_none() && edits.works.is_none());

    assert_eq!(Editor::new("bnewbold".to_string()).username, "bnewbold");

    let ee = EntityEdit::new(3, "q3nouwy3nnbsvo3h5klxsx4a7y".to_string(), 11);
    assert_eq!((ee.editgroup_id, ee.edit_id), (3, 11));
    assert_eq!(ee.ident, "q3nouwy3nnbsvo3h5klxsx4a7y");
    assert!(ee.extra.is_none() && ee.redirect_ident.is_none() && ee.revision.is_none());

    assert_eq!(err("nope").message, "nope");
    assert_eq!(Success::new("merged".to_string()).message, "merged");

    let f = FileEntity::new();
    assert!(f.releases.is_none() && f.url.is_none() && f.sha1.is_none() && f.size.is_none());

    let rc = ReleaseContrib::new();
    assert!(rc.index.is_none() && rc.creator_id.is_none() && rc.creator_stub.is_none() && rc.contrib_type.is_none());

    let r = ReleaseEntity::new("work-1".to_string(), "A Title".to_string());
    assert_eq!(r.work_id, "work-1");
    assert_eq!(r.title, "A Title");
    assert!(r.refs.is_none() && r.contribs.is_none() && r.doi.is_none() && r.date.is_none());

    let rr = ReleaseRef::new();
    assert!(rr.index.is_none() && rr.target_release_id.is_none() && rr.stub.is_none());

    let w = WorkEntity::new();
    assert!(w.work_type.is_none() && w.extra.is_none() && w.ident.is_none());
}

#[test]
fn entities_carry_json_extra() {
    let mut c = ContainerEntity::new("J".to_string());
    let v: serde_json::Value = serde_json::from_str("{\"a\": [1, 2]}").unwrap();
    c.extra = Some(v.clone());
    assert_eq!(c.clone(), c);
    assert_eq!(c.extra, Some(v));
}

#[test]
fn changelog_entries_wrap_and_unwrap() {
    let t = Timestamp::new(1_526_000_000, 5).unwrap();
    let e1 = ChangelogentriesInner::new(1, 10, t);
    assert_eq!((e1.index, e1.editgroup_id, e1.timestamp), (1, 10, t));
    let e2 = ChangelogentriesInner::new(2, 11, t);
    let list = vec![e1.clone(), e2.clone()];
    let wrapped = Changelogentries::from(list.clone());
    assert_eq!(wrapped.len(), 2);
    assert_eq!(wrapped[1], e2);
    let back: Vec<ChangelogentriesInner> = wrapped.into();
    assert_eq!(back, list);
}

#[test]
fn status_codes() {
    assert_eq!(AcceptEditgroupResponse::MergedSuccessfully(Success::new("ok".to_string())).status_code(), 200);
    assert_eq!(AcceptEditgroupResponse::Unmergable(err("x")).status_code(), 400);
    assert_eq!(AcceptEditgroupResponse::NotFound(err("x")).status_code(), 404);
    assert_eq!(AcceptEditgroupResponse::GenericError(err("x")).status_code(), 0);

    let edit = EntityEdit::new(1, "i".to_string(), 2);
    assert_eq!(CreateContainerResponse::CreatedEntity(edit.clone()).status_code(), 201);
    assert_eq!(CreateContainerResponse::BadRequest(err("x")).status_code(), 400);
    assert_eq!(CreateContainerResponse::NotFound(err("x")).status_code(), 404);
    assert_eq!(CreateContainerResponse::GenericError(err("x")).status_code(), 0);
    assert_eq!(CreateContainerBatchResponse::CreatedEntities(vec![edit]).status_code(), 201);

    assert_eq!(CreateEditgroupResponse::SuccessfullyCreated(Editgroup::new(1)).status_code(), 201);
    assert_eq!(CreateEditgroupResponse::BadRequest(err("x")).status_code(), 400);
    assert_eq!(CreateEditgroupResponse::GenericError(err("x")).status_code(), 0);

    assert_eq!(GetEditorResponse::FoundEditor(Editor::new("e".to_string())).status_code(), 200);
    assert_eq!(GetEditorResponse::NotFound(err("x")).status_code(), 404);
    assert_eq!(GetEditorChangelogResponse::FoundMergedChanges(vec![]).status_code(), 200);
    assert_eq!(GetEditorChangelogResponse::GenericError(err("x")).status_code(), 0);

    assert_eq!(GetReleaseFilesResponse::FoundEntity(vec![FileEntity::new()]).status_code(), 200);
    assert_eq!(LookupReleaseResponse::FoundEntity(ReleaseEntity::new("w".to_string(), "t".to_string())).status_code(), 200);
    assert_eq!(LookupReleaseResponse::BadRequest(err("x")).status_code(), 400);
    assert_eq!(LookupReleaseResponse::NotFound(err("x")).status_code(), 404);
    assert_eq!(LookupReleaseResponse::GenericError(err("x")).status_code(), 0);
}

#[test]
fn timestamps_name_points_in_time() {
    let t = Timestamp::new(1_526_000_000, 5).unwrap();
    assert_eq!((t.seconds(), t.nanoseconds()), (1_526_000_000, 5));
    assert!(Timestamp::new(0, 999_999_999).is_some());
    assert!(Timestamp::new(0, 1_000_000_000).is_none());
    assert!(Timestamp::new(59, 1_999_999_999).is_some());
    assert!(Timestamp::new(59, 2_000_000_000).is_none());
    assert!(Timestamp::new(-1, 1_500_000_000).is_some());
    assert!(Timestamp::new(-2, 1_500_000_000).is_none());
    assert_eq!(DateTime::<Utc>::MIN_UTC.timestamp(), MIN_TIMESTAMP_SECONDS);
    assert_eq!(DateTime::<Utc>::MAX_UTC.timestamp(), MAX_TIMESTAMP_SECONDS);
    assert!(Timestamp::new(MIN_TIMESTAMP_SECONDS, 0).is_some());
    assert!(Timestamp::new(MIN_TIMESTAMP_SECONDS - 1, 0).is_none());
    assert!(Timestamp::new(MAX_TIMESTAMP_SECONDS, 1_000_000_000).is_some());
    assert!(Timestamp::new(MAX_TIMESTAMP_SECONDS + 1, 0).is_none());
    // Exactly the timestamps that chrono can hold.
    let cases: [(i64, u32); 12] = [
        (0, 0), (59, 1_000_000_000), (58, 1_000_000_000), (-1, 1_000_000_000),
        (-61, 1_999_999_999), (-60, 1_000_000_000), (MIN_TIMESTAMP_SECONDS, 999_999_999),
        (MIN_TIMESTAMP_SECONDS - 1, 0), (MAX_TIMESTAMP_SECONDS, 0), (MAX_TIMESTAMP_SECONDS + 1, 0),
        (i64::MIN, 0), (i64::MAX, 0),
    ];
    for (s, n) in cases.iter() {
        assert_eq!(
            Timestamp::new(*s, *n).is_some(),
            DateTime::<Utc>::from_timestamp(*s, *n).is_some(),
            "{} {}", s, n
        );
    }
}

#[test]
fn history_and_stats_answers() {
    let h = GetContainerHistoryResponse::FoundEntityHistory(vec![serde_json::Value::Null]);
    assert_eq!(h, GetContainerHistoryResponse::FoundEntityHistory(vec![serde_json::Value::Null]));
    assert_ne!(h, GetContainerHistoryResponse::NotFound(ErrorResponse::new("x".to_string())));
    let s = GetStatsResponse::Success(serde_json::Value::Bool(true));
    assert_eq!(s, GetStatsResponse::Success(serde_json::Value::Bool(true)));
}

#[test]
fn changelog_entries_unwrap_and_wrap() {
    let t = Timestamp::new(0, 0).unwrap();
    let c = Changelogentries::from(vec![ChangelogentriesInner::new(3, 4, t)]);
    let v: Vec<ChangelogentriesInner> = c.clone().into();
    assert_eq!(*c, v);
    assert_eq!(Changelogentries::from(v), c);
}
