//! The records, the store rules, and the filename arithmetic.

use tagify::album_models::{AlbumPreview, PhotoPreview};
use tagify::db;
use tagify::errors::{DBError, HandlerError};
use tagify::gg_storage;
use tagify::handlers;
use tagify::models;
use tagify::user_models::CreateUser;
use tagify::utils;

#[test]
fn create_user_copies_username_into_nickname() {
    let u = models::User::create_user("dora", "secret", true);
    assert_eq!(u.username, "dora");
    assert_eq!(u.nickname, "dora");
    assert_eq!(u.password, "secret");
    assert!(u.is_admin);
}

#[test]
fn password_hash_and_verify() {
    let mut u = models::User::create_user("dora", "secret", false);
    tagify::user_models::Hash::hash_password(&mut u).expect("hashing failed");
    assert_ne!(u.password, "secret");
    assert!(u.password.starts_with("$argon2"));
    assert_eq!(tagify::user_models::Hash::verify_password(&u, b"secret").ok(), Some(true));
    assert_eq!(tagify::user_models::Hash::verify_password(&u, b"other").ok(), Some(false));
}

#[test]
fn verify_against_garbage_hash_errors() {
    let u = models::User::create_user("dora", "not-an-encoded-hash", false);
    assert!(tagify::user_models::Hash::verify_password(&u, b"secret").is_err());
}

#[test]
fn status_messages_and_codes() {
    assert_eq!(handlers::status().status, "server is working!");
    assert_eq!(HandlerError::InternalError.status_code(), 500);
    assert_eq!(HandlerError::AuthFail.status_code(), 401);
    assert_eq!(HandlerError::PermissionDenied.status_code(), 403);
    let e = HandlerError::BadClientData { field: "album".to_string() };
    assert_eq!(e.status_code(), 400);
    assert_eq!(e.message(), "Parsing error on field: album");
    assert_eq!(HandlerError::AuthFail.message(), "You are not logged in");
    assert_eq!(
        HandlerError::InternalError.message(),
        "An internal error occured. Try again later"
    );
}

#[test]
fn new_user_password_rules() {
    let short = CreateUser {
        username: "eve".to_string(),
        password: "abc".to_string(),
        nickname: "e".to_string(),
        role: "user".to_string(),
    };
    match db::hash_new_user_password(&short) {
        Err(DBError::BadArgs { err }) => assert_eq!(err, "Password is too short"),
        other => panic!("expected BadArgs, got {:?}", other),
    }
    let ok = CreateUser { password: "abcd".to_string(), ..short };
    let hash = db::hash_new_user_password(&ok).expect("hashing refused");
    assert_eq!(argon2::verify_encoded(&hash, b"abcd"), Ok(true));
}

#[test]
fn search_filters_by_fuzzy_title_match() {
    let albums = vec![
        AlbumPreview {
            id: 1,
            title: "Summer Holiday".to_string(),
            description: "".to_string(),
            first_photo: "1.png".to_string(),
        },
        AlbumPreview {
            id: 2,
            title: "Winter".to_string(),
            description: "".to_string(),
            first_photo: "2.png".to_string(),
        },
        AlbumPreview {
            id: 3,
            title: "summary".to_string(),
            description: "".to_string(),
            first_photo: "3.png".to_string(),
        },
    ];
    let found = db::get_searched_albums(&albums, &"summ".to_string());
    let ids: Vec<i32> = found.albums.iter().map(|a| a.id).collect();
    assert_eq!(ids, vec![1, 3]);
    let none = db::get_searched_albums(&albums, &"zzz".to_string());
    assert!(none.albums.is_empty());
}

#[test]
fn photo_lock_window() {
    assert!(db::photo_lock_open(100, 30, 129));
    assert!(!db::photo_lock_open(100, 30, 130));
    assert!(!db::photo_lock_open(0, 30, 1_000_000));
}

#[test]
fn photos_pages_are_twenty_wide() {
    let photos: Vec<PhotoPreview> = (0..45)
        .map(|i| PhotoPreview { id: i, file_path: format!("{}.png", i) })
        .collect();
    let page0 = db::photos_page(&photos, 0);
    assert_eq!(page0.len(), 20);
    assert_eq!(page0[0].id, 0);
    assert_eq!(page0[19].id, 19);
    let page2 = db::photos_page(&photos, 2);
    assert_eq!(page2.len(), 5);
    assert_eq!(page2[0].id, 40);
    let page3 = db::photos_page(&photos, 3);
    assert!(page3.is_empty());
}

#[test]
fn filename_slot_reads_dot_prefix() {
    assert_eq!(utils::filename_slot("17.png"), Some(17));
    assert_eq!(utils::filename_slot("17"), Some(17));
    assert_eq!(utils::filename_slot("a17.png"), None);
    assert_eq!(utils::filename_slot(".png"), None);
    assert_eq!(utils::filename_slot("3.tar.gz"), Some(3));
}

#[test]
fn next_filename_takes_lowest_gap() {
    let folder = vec!["1.png", "2.png", "5.png"];
    let dbnames = vec!["7.png"];
    assert_eq!(utils::calculate_next_filename_image(&folder, &dbnames), "3");
}

#[test]
fn next_filename_without_gap_is_one_past_the_largest() {
    let folder = vec!["1.png", "2.png", "3.png"];
    let dbnames: Vec<&str> = vec![];
    assert_eq!(utils::calculate_next_filename_image(&folder, &dbnames), "4");
}

#[test]
fn next_filename_on_empty_folders_is_one() {
    let folder: Vec<&str> = vec![];
    let dbnames: Vec<&str> = vec![];
    assert_eq!(utils::calculate_next_filename_image(&folder, &dbnames), "1");
    let nonnumeric = vec!["readme.txt", "cover.jpg"];
    assert_eq!(utils::calculate_next_filename_image(&nonnumeric, &dbnames), "1");
}

#[test]
fn next_filename_merges_both_lists() {
    let folder = vec!["1.png"];
    let dbnames = vec!["2.png", "3.png"];
    assert_eq!(utils::calculate_next_filename_image(&folder, &dbnames), "4");
}

#[test]
fn bucket_names() {
    assert_eq!(gg_storage::bucket_prefix(), "tagify_album_ss20_");
    assert_eq!(gg_storage::bucket_name(42), "tagify_album_ss20_42");
}

#[test]
fn content_types() {
    assert_eq!(gg_storage::content_type_for_extension("png"), "image/png");
    assert_eq!(gg_storage::content_type_for_extension("jpeg"), "image/jpeg");
    assert_eq!(gg_storage::content_type_for_extension("svg"), "image/svg+xml");
    assert_eq!(gg_storage::content_type_for_extension("ico"), "image/vnd.microsoft.icon");
    assert_eq!(gg_storage::content_type_for_extension("weird"), "image/png");
}

#[test]
fn oauth_new_keeps_paths() {
    let o = tagify::oauth::Oauth::new("cred.json", "key.txt");
    assert_eq!(o.cred_file, "cred.json");
    assert_eq!(o.key_file, "key.txt");
}

#[test]
fn file_extension_takes_last_dot() {
    assert_eq!(utils::file_extension("photo.png"), Some("png".to_string()));
    assert_eq!(utils::file_extension("archive.tar.gz"), Some("gz".to_string()));
    assert_eq!(utils::file_extension("trailing."), Some("".to_string()));
    assert_eq!(utils::file_extension("noextension"), None);
}

#[test]
fn album_modification_rights() {
    let owner = tagify::user_models::User {
        id: 3,
        username: "o".to_string(),
        nickname: "o".to_string(),
        password: "".to_string(),
        role: "user".to_string(),
    };
    let admin = tagify::user_models::User { id: 9, role: "admin".to_string(), ..owner.clone() };
    let stranger = tagify::user_models::User { id: 8, ..owner.clone() };
    let album = tagify::album_models::Album {
        id: 1,
        title: "t".to_string(),
        description: "".to_string(),
        tags: vec![],
        image_number: 0,
        tagged_number: 0,
        users_id: 3,
        first_photo: "".to_string(),
    };
    assert!(handlers::can_modify_album(&owner, &album));
    assert!(handlers::can_modify_album(&admin, &album));
    assert!(!handlers::can_modify_album(&stranger, &album));
}
