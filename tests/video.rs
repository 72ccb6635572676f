use video_host::api::{admin_gate, delete_video, get_all_users, get_all_videos, get_user_by_id, get_video_with_id};
use video_host::cors::CORS;
use video_host::users::{User, UserDirectory};
use video_host::video::{
    add_uploaded_video, clean_video_name, get_filename_ending, get_video_by_id, remove_all,
    valid_video_filename_ending, video_length, VideoCatalog, VideoError, VideoInfo,
};

fn user(id: i32, user_id: &str, permissions: Vec<i32>) -> User {
    User {
        id,
        user_id: user_id.to_string(),
        email: format!("{}@x.com", user_id),
        displayname: user_id.to_string(),
        permissions,
    }
}

fn directory() -> UserDirectory {
    UserDirectory::from_records(vec![
        user(1, "OWNER", vec![]),
        user(2, "OTHER", vec![]),
        user(3, "ADMIN", vec![1]),
    ])
    .unwrap()
}

#[test]
fn filename_endings() {
    assert_eq!(get_filename_ending("movie.final.mp4"), Some("mp4".to_string()));
    assert_eq!(get_filename_ending(".mp4"), Some("mp4".to_string()));
    assert_eq!(get_filename_ending("a."), Some("".to_string()));
    assert_eq!(get_filename_ending("noext"), None);
    assert_eq!(get_filename_ending(""), None);
}

#[test]
fn video_endings() {
    for ok in ["a.mp4", "a.mkv", "a.avi", "a.mov", "a.wmv", "a.flv", "a.mpg", "a.mpeg", "a.m4v", "a.3gp", "a.webm"] {
        assert!(valid_video_filename_ending(ok), "{}", ok);
    }
    assert!(!valid_video_filename_ending("a.MP4"));
    assert!(!valid_video_filename_ending("a.txt"));
    assert!(!valid_video_filename_ending("mp4"));
    assert!(!valid_video_filename_ending("a.mp4.exe"));
}

#[test]
fn removing_patterns_scans_left_to_right() {
    assert_eq!(remove_all("a../b/..c", ".."), "a/b/c");
    assert_eq!(remove_all("....", ".."), "");
    assert_eq!(remove_all("...", ".."), ".");
    assert_eq!(remove_all("a/b", "/"), "ab");
    assert_eq!(remove_all("abc", ""), "abc");
}

#[test]
fn upload_names_lose_path_parts() {
    assert_eq!(clean_video_name("../secret/clip.mp4"), Ok("secretclip.mp4".to_string()));
    assert_eq!(clean_video_name("holiday.webm"), Ok("holiday.webm".to_string()));
}

#[test]
fn upload_names_lose_markup() {
    assert_eq!(clean_video_name("<b>clip</b>.mp4"), Ok("clip.mp4".to_string()));
}

#[test]
fn upload_names_need_a_video_ending() {
    assert_eq!(clean_video_name("notes.txt"), Err(VideoError::InvalidFilename));
    assert_eq!(clean_video_name("clip"), Err(VideoError::InvalidFilename));
    assert_eq!(VideoError::InvalidFilename.status(), 400);
    assert_eq!(VideoError::SanitizeFailed.status(), 500);
}

#[test]
fn long_upload_names_are_cut() {
    let name = format!("{}.mp4", "a".repeat(200));
    let cleaned = clean_video_name(&name).unwrap();
    assert_eq!(cleaned, format!("{}mp4", "a".repeat(128)));
    let exact = format!("{}.mp4", "b".repeat(124));
    assert_eq!(clean_video_name(&exact).unwrap(), exact);
}

#[test]
fn durations_in_whole_seconds() {
    assert_eq!(video_length(Some("42")), 42);
    assert_eq!(video_length(Some("+3")), 3);
    assert_eq!(video_length(Some("-7")), -7);
    assert_eq!(video_length(Some("12.500000")), -1);
    assert_eq!(video_length(Some("99999999999")), -1);
    assert_eq!(video_length(Some("")), -1);
    assert_eq!(video_length(None), -1);
}

#[test]
fn uploads_are_numbered_and_owned() {
    let mut catalog = VideoCatalog::new();
    let owner = user(1, "OWNER", vec![]);
    let v = add_uploaded_video(&mut catalog, &owner, "videos/1/a.mp4".to_string(), "a.mp4".to_string(), Some("61")).unwrap();
    assert_eq!(v.id, 1);
    assert_eq!(v.owner_id, 1);
    assert_eq!(v.video_id.chars().count(), 32);
    assert_eq!(v.video_length, 61);
    assert_eq!(v.video_desc, "");
    assert!(v.thumbnail_path.is_none());
    let w = add_uploaded_video(&mut catalog, &owner, "videos/1/b.mp4".to_string(), "b.mp4".to_string(), None).unwrap();
    assert_eq!(w.id, 2);
    assert_eq!(w.video_length, -1);
    assert_ne!(v.video_id, w.video_id);
    assert_eq!(get_video_by_id(&catalog, &v.video_id).unwrap().video_path, "videos/1/a.mp4");
    assert_eq!(catalog.len(), 2);
}

#[test]
fn only_owner_or_admin_may_view() {
    let dir = directory();
    let mut catalog = VideoCatalog::new();
    let v = add_uploaded_video(&mut catalog, &user(1, "OWNER", vec![]), "p".to_string(), "a.mp4".to_string(), None).unwrap();
    assert_eq!(get_video_with_id(&dir, &catalog, Some("OWNER"), &v.video_id).unwrap().id, v.id);
    assert_eq!(get_video_with_id(&dir, &catalog, Some("ADMIN"), &v.video_id).unwrap().id, v.id);
    assert_eq!(get_video_with_id(&dir, &catalog, Some("OTHER"), &v.video_id).err(), Some(403));
    assert_eq!(get_video_with_id(&dir, &catalog, Some("NOBODY"), &v.video_id).err(), Some(401));
    assert_eq!(get_video_with_id(&dir, &catalog, None, &v.video_id).err(), Some(401));
    assert_eq!(get_video_with_id(&dir, &catalog, Some("OWNER"), "missing").err(), Some(404));
}

#[test]
fn only_owner_or_admin_may_delete() {
    let mut catalog = VideoCatalog::new();
    let owner = user(1, "OWNER", vec![]);
    let v = add_uploaded_video(&mut catalog, &owner, "p1".to_string(), "a.mp4".to_string(), None).unwrap();
    let w = add_uploaded_video(&mut catalog, &owner, "p2".to_string(), "b.mp4".to_string(), None).unwrap();
    assert_eq!(delete_video(&mut catalog, &user(2, "OTHER", vec![]), &v.video_id).err(), Some(401));
    assert_eq!(catalog.len(), 2);
    assert_eq!(delete_video(&mut catalog, &owner, "missing").err(), Some(400));
    let removed = delete_video(&mut catalog, &owner, &v.video_id).unwrap();
    assert_eq!(removed.video_path, "p1");
    assert_eq!(catalog.len(), 1);
    assert!(get_video_by_id(&catalog, &v.video_id).is_none());
    assert_eq!(delete_video(&mut catalog, &user(3, "ADMIN", vec![1]), &w.video_id).unwrap().id, w.id);
    assert_eq!(catalog.len(), 0);
}

#[test]
fn listings_are_for_administrators() {
    let dir = directory();
    let catalog = VideoCatalog::new();
    assert_eq!(admin_gate(&dir, None).err(), Some(401));
    assert_eq!(admin_gate(&dir, Some("OTHER")).err(), Some(403));
    assert_eq!(admin_gate(&dir, Some("NOBODY")).err(), Some(403));
    assert_eq!(admin_gate(&dir, Some("ADMIN")).unwrap().id, 3);
    assert_eq!(get_all_users(&dir, Some("ADMIN")).unwrap().len(), 3);
    assert_eq!(get_all_users(&dir, Some("OWNER")).err(), Some(403));
    assert_eq!(get_user_by_id(&dir, Some("ADMIN"), 2).unwrap().user_id, "OTHER");
    assert_eq!(get_user_by_id(&dir, Some("ADMIN"), 9).err(), Some(404));
    assert_eq!(get_user_by_id(&dir, None, 2).err(), Some(401));
    assert_eq!(get_all_videos(&dir, &catalog, Some("ADMIN")).unwrap().len(), 0);
    assert_eq!(get_all_videos(&dir, &catalog, Some("OWNER")).err(), Some(403));
}

#[test]
fn cors_headers_allow_any_origin() {
    assert_eq!(CORS.name(), "Add CORS headers to responses");
    let h = CORS.headers();
    assert_eq!(h.len(), 4);
    assert_eq!((h[0].name, h[0].value), ("Access-Control-Allow-Origin", "*"));
    assert_eq!((h[1].name, h[1].value), ("Access-Control-Allow-Methods", "POST, GET, PATCH, OPTIONS"));
    assert_eq!((h[3].name, h[3].value), ("Access-Control-Allow-Credentials", "true"));
}

#[test]
fn upload_metadata_is_optional() {
    let info = VideoInfo { name: Some("a.mp4".to_string()), description: None, share: Some(vec!["OTHER".to_string()]) };
    assert_eq!(info.name.as_deref(), Some("a.mp4"));
    assert!(info.description.is_none());
    assert_eq!(info.share.unwrap().len(), 1);
}
