use songstore::songs::entity::{Song, SongSummary};
use songstore::store::StoreError;
use songstore::tracks::entity::{Track, TrackList};
use songstore::tracks::usecase::{
    ensure_track_ids_and_collect_split_requests, get_tracklist_finish, get_tracklist_plan,
    set_tracklist_checked, set_tracklist_persisted, set_tracklist_published,
    set_tracklist_verified, Error, GetTrackListStep, SplitRequestTrack,
};
use songstore::users::entity::User;
use songstore::values::{kv_find, FieldValue};

const UUID_A: &str = "123e4567-e89b-12d3-a456-426614174000";

fn track(id: &str, track_type: &str) -> Track {
    Track { id: id.to_string(), track_type: track_type.to_string(), contents: vec![] }
}

fn song(id: &str, owner: &str) -> Song {
    Song {
        summary: SongSummary {
            id: id.to_string(),
            owner: owner.to_string(),
            last_saved_at: Some(1),
            metadata: vec![],
        },
        elements: vec![],
        extra: vec![],
    }
}

fn verified(id: &str) -> Result<User, String> {
    Ok(User { id: id.to_string(), name: None })
}

fn text_field(contents: &Vec<(String, FieldValue)>, key: &str) -> String {
    match kv_find(contents, key) {
        Some(FieldValue::Text(s)) => s.clone(),
        _ => panic!("expected a text field under {}", key),
    }
}

#[test]
fn get_tracklist_answers_malformed_id_with_empty_list() {
    match get_tracklist_plan("junk") {
        GetTrackListStep::Done { tracklist } => {
            assert_eq!(tracklist.song_id, "junk");
            assert!(tracklist.tracks.is_empty());
        }
        _ => panic!("a malformed id must be answered without the store"),
    }
}

#[test]
fn get_tracklist_fetches_well_formed_id() {
    assert!(matches!(get_tracklist_plan(UUID_A), GetTrackListStep::Fetch { .. }));
}

#[test]
fn absent_tracklist_is_the_empty_list() {
    match get_tracklist_finish(UUID_A, Err(StoreError::NotFound)) {
        Ok(tl) => {
            assert_eq!(tl.song_id, UUID_A);
            assert!(tl.tracks.is_empty());
        }
        Err(_) => panic!("absence is a valid state, not an error"),
    }
}

#[test]
fn tracklist_store_failure_surfaces() {
    let r = get_tracklist_finish(UUID_A, Err(StoreError::Infra { detail: "down".to_string() }));
    assert!(matches!(r, Err(Error::DatastoreError { .. })));
}

#[test]
fn set_tracklist_rejects_empty_song_id() {
    let tl = TrackList { song_id: "".to_string(), tracks: vec![] };
    let r = set_tracklist_checked(UUID_A, tl);
    assert!(matches!(r, Err(Error::InvalidIDError { .. })));
}

#[test]
fn set_tracklist_rejects_mismatched_song_id() {
    let tl = TrackList { song_id: "other".to_string(), tracks: vec![] };
    match set_tracklist_checked(UUID_A, tl) {
        Err(Error::InvalidIDError { id }) => assert_eq!(id, "other"),
        _ => panic!("a mismatched song id must be rejected"),
    }
}

#[test]
fn set_tracklist_accepts_matching_song_id() {
    let tl = TrackList { song_id: UUID_A.to_string(), tracks: vec![] };
    assert!(set_tracklist_checked(UUID_A, tl).is_ok());
}

#[test]
fn set_tracklist_surfaces_song_fetch_failure() {
    let tl = TrackList { song_id: UUID_A.to_string(), tracks: vec![] };
    let r = set_tracklist_verified(verified("u1"), UUID_A, tl, Err(StoreError::NotFound));
    assert!(matches!(r, Err(Error::GetSongError { source: StoreError::NotFound })));
}

#[test]
fn set_tracklist_rejects_foreign_owner() {
    let tl = TrackList { song_id: UUID_A.to_string(), tracks: vec![] };
    let r = set_tracklist_verified(verified("u1"), UUID_A, tl, Ok(song(UUID_A, "u2")));
    assert!(matches!(r, Err(Error::WrongOwnerError)));
}

#[test]
fn set_tracklist_accepts_the_owner() {
    let tl = TrackList { song_id: UUID_A.to_string(), tracks: vec![] };
    let r = set_tracklist_verified(verified("u1"), UUID_A, tl, Ok(song(UUID_A, "u1")));
    assert!(r.is_ok());
}

#[test]
fn preset_track_ids_are_never_reassigned() {
    let mut tl = TrackList {
        song_id: UUID_A.to_string(),
        tracks: vec![track("pre-set-id", "vocal"), track("", "guitar")],
    };
    let jobs = ensure_track_ids_and_collect_split_requests(&mut tl);
    assert_eq!(tl.tracks[0].id, "pre-set-id");
    assert!(Song::is_valid_id(&tl.tracks[1].id));
    assert!(jobs.is_empty());
}

#[test]
fn each_new_split_track_yields_exactly_one_job() {
    let mut tl = TrackList {
        song_id: UUID_A.to_string(),
        tracks: vec![
            track("", "split_2stems"),
            track("", "drums"),
            track("kept-id", "split_4stems"),
            track("", "split_5stems"),
        ],
    };
    let jobs = ensure_track_ids_and_collect_split_requests(&mut tl);
    // Only the two freshly assigned split tracks yield a job; the split
    // track that already carried an id does not.
    assert_eq!(jobs.len(), 2);
    assert_eq!(jobs[0].tracklist_id, UUID_A);
    assert_eq!(jobs[0].track_id, tl.tracks[0].id);
    assert_eq!(jobs[1].tracklist_id, UUID_A);
    assert_eq!(jobs[1].track_id, tl.tracks[3].id);
    assert_eq!(tl.tracks[2].id, "kept-id");
    assert!(Song::is_valid_id(&tl.tracks[0].id));
    assert!(Song::is_valid_id(&tl.tracks[1].id));
    assert!(Song::is_valid_id(&tl.tracks[3].id));
}

#[test]
fn freshly_assigned_split_tracks_are_stamped() {
    let mut tl = TrackList {
        song_id: UUID_A.to_string(),
        tracks: vec![track("", "split_2stems")],
    };
    ensure_track_ids_and_collect_split_requests(&mut tl);
    let contents = &tl.tracks[0].contents;
    assert_eq!(text_field(contents, "job_status"), "requested");
    assert_eq!(
        text_field(contents, "job_status_message"),
        "The splitting job for the audio has been requested"
    );
    assert_eq!(text_field(contents, "job_status_debug_log"), "");
    assert!(matches!(kv_find(contents, "job_progress"), Some(FieldValue::Number(5))));
}

#[test]
fn stamping_preserves_unrelated_contents() {
    let mut tl = TrackList {
        song_id: UUID_A.to_string(),
        tracks: vec![Track {
            id: "".to_string(),
            track_type: "split_2stems".to_string(),
            contents: vec![
                ("volume".to_string(), FieldValue::Number(11)),
                ("job_status".to_string(), FieldValue::Text("stale".to_string())),
            ],
        }],
    };
    ensure_track_ids_and_collect_split_requests(&mut tl);
    let contents = &tl.tracks[0].contents;
    assert!(matches!(kv_find(contents, "volume"), Some(FieldValue::Number(11))));
    assert_eq!(text_field(contents, "job_status"), "requested");
}

#[test]
fn non_split_tracks_are_never_stamped() {
    let mut tl = TrackList {
        song_id: UUID_A.to_string(),
        tracks: vec![track("", "guitar")],
    };
    ensure_track_ids_and_collect_split_requests(&mut tl);
    assert!(kv_find(&tl.tracks[0].contents, "job_status").is_none());
}

#[test]
fn split_types_are_exactly_the_fixed_set() {
    assert!(track("", "split_2stems").is_split_request());
    assert!(track("", "split_4stems").is_split_request());
    assert!(track("", "split_5stems").is_split_request());
    assert!(!track("", "split_3stems").is_split_request());
    assert!(!track("", "vocal").is_split_request());
}

#[test]
fn payload_names_tracklist_and_track() {
    let job = SplitRequestTrack {
        tracklist_id: "list-1".to_string(),
        track_id: "track-9".to_string(),
    };
    let expected: &[u8] = b"{\"tracklist_id\":\"list-1\",\"track_id\":\"track-9\"}";
    assert_eq!(job.payload(), expected.to_vec());
}

#[test]
fn payload_escapes_quotes_backslashes_and_controls() {
    let job = SplitRequestTrack {
        tracklist_id: "a\"b".to_string(),
        track_id: "c\\d\ne".to_string(),
    };
    let expected: &[u8] = b"{\"tracklist_id\":\"a\\\"b\",\"track_id\":\"c\\\\d\\u000ae\"}";
    assert_eq!(job.payload(), expected.to_vec());
}

#[test]
fn persisted_write_failure_surfaces() {
    let tl = TrackList { song_id: UUID_A.to_string(), tracks: vec![] };
    let r = set_tracklist_persisted(tl, Err(StoreError::Infra { detail: "down".to_string() }));
    assert!(matches!(r, Err(Error::DatastoreError { .. })));
}

#[test]
fn publish_failure_is_fatal_but_typed() {
    let tl = TrackList { song_id: UUID_A.to_string(), tracks: vec![] };
    assert!(matches!(
        set_tracklist_published(tl, false),
        Err(Error::PublishError { .. })
    ));
    let tl = TrackList { song_id: UUID_A.to_string(), tracks: vec![] };
    assert!(set_tracklist_published(tl, true).is_ok());
}
