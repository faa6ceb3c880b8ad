use songstore::gateway::GatewayError;
use songstore::store::StoreError;
use songstore::{songs, tracks, users};

fn assert_wire(e: &GatewayError, status: u16, code: &str) {
    assert_eq!(e.status_code(), status);
    assert_eq!(e.code(), code);
}

#[test]
fn song_not_found_is_404() {
    let e = songs::gateway::map_usecase_errors(songs::usecase::Error::NotFoundError {
        id: "xyz".to_string(),
    });
    assert_wire(&e, 404, "song_not_found");
    assert_eq!(e.message(), "Song ID not found: xyz");
}

#[test]
fn song_conflicts_are_400() {
    let e = songs::gateway::map_usecase_errors(songs::usecase::Error::ExistingSongError);
    assert_wire(&e, 400, "create_song_exists");
    let e = songs::gateway::map_usecase_errors(songs::usecase::Error::OverwriteError);
    assert_wire(&e, 400, "update_song_overwrite");
    let e = songs::gateway::map_usecase_errors(songs::usecase::Error::WrongIDError {
        song_id_1: "a".to_string(),
        song_id_2: "b".to_string(),
    });
    assert_wire(&e, 400, "update_song_wrong_id");
    assert_eq!(
        e.message(),
        "The requested resource ID and the payload ID do not match: a, b"
    );
}

#[test]
fn song_auth_failures_map_to_401_and_403() {
    let e = songs::gateway::map_usecase_errors(songs::usecase::Error::GoogleVerificationError {
        msg: "expired".to_string(),
    });
    assert_wire(&e, 401, "failed_google_verification");
    assert_eq!(e.message(), "expired");
    let e = songs::gateway::map_usecase_errors(songs::usecase::Error::WrongOwnerError);
    assert_wire(&e, 403, "update_song_owner_not_allowed");
}

#[test]
fn song_store_failure_is_500() {
    let e = songs::gateway::map_usecase_errors(songs::usecase::Error::DatastoreError {
        msg: "down".to_string(),
    });
    assert_wire(&e, 500, "datastore_error");
    assert_eq!(e.message(), "down");
}

#[test]
fn track_invalid_id_is_400() {
    let e = tracks::gateway::map_usecase_errors(tracks::usecase::Error::InvalidIDError {
        id: "".to_string(),
    });
    assert_wire(&e, 400, "invalid_id");
}

#[test]
fn track_publish_failure_is_500() {
    let e = tracks::gateway::map_usecase_errors(tracks::usecase::Error::PublishError {
        msg: "queue gone".to_string(),
    });
    assert_wire(&e, 500, "publish_queue_error");
    assert_eq!(e.message(), "queue gone");
}

#[test]
fn track_song_fetch_failure_is_500() {
    let e = tracks::gateway::map_usecase_errors(tracks::usecase::Error::GetSongError {
        source: StoreError::Infra { detail: "down".to_string() },
    });
    assert_wire(&e, 500, "datastore_error");
    assert_eq!(e.message(), "down");
}

#[test]
fn track_auth_failures_map_to_401_and_403() {
    let e = tracks::gateway::map_usecase_errors(tracks::usecase::Error::GoogleVerificationError {
        msg: "expired".to_string(),
    });
    assert_wire(&e, 401, "failed_google_verification");
    let e = tracks::gateway::map_usecase_errors(tracks::usecase::Error::WrongOwnerError);
    assert_wire(&e, 403, "update_song_owner_not_allowed");
}

#[test]
fn user_validation_failure_is_401() {
    let e = users::gateway::map_usecase_errors(users::usecase::Error::GoogleValidationError {
        detail: "Failed Google user verification".to_string(),
        msg: "expired".to_string(),
    });
    assert_wire(&e, 401, "failed_google_verification");
    assert_eq!(e.message(), "Failed Google user verification: expired");
}

#[test]
fn owner_verification_failure_is_403() {
    let e = users::gateway::map_usecase_errors(users::usecase::Error::OwnerVerificationError);
    assert_wire(&e, 403, "get_songs_for_user_not_allowed");
}

#[test]
fn user_store_failure_is_500() {
    let e = users::gateway::map_usecase_errors(users::usecase::Error::DatastoreError {
        msg: "down".to_string(),
    });
    assert_wire(&e, 500, "datastore_error");
}
