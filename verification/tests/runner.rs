use firefly_test::runner::{
    get_vfs_path, pad_from_coords, prepare_runner, resolve_vfs_path, validate_ids,
    FALLBACK_VFS_DIR, MAX_ID_LEN, PAD_SENTINEL,
};
use firefly_test::HarnessError;

#[test]
fn prepare_runner_accepts_valid_arguments() {
    let config = prepare_runner(String::from("alice"), String::from("demo"), String::new())
        .expect("valid arguments");
    assert_eq!(config.author_id, "alice");
    assert_eq!(config.app_id, "demo");
    assert!(!config.root.is_empty());
}

#[test]
fn prepare_runner_keeps_an_explicit_root() {
    let config = prepare_runner(
        String::from("alice"),
        String::from("demo"),
        String::from("/tmp/games"),
    )
    .expect("valid arguments");
    assert_eq!(config.root, "/tmp/games");
}

#[test]
fn prepare_runner_rejects_a_long_author_id() {
    let result = prepare_runner(
        String::from("abcdefghijklmnopq"),
        String::from("demo"),
        String::new(),
    );
    assert!(matches!(result, Err(HarnessError::InvalidArgument)));
}

#[test]
fn valid_ids_pass() {
    assert_eq!(validate_ids("alice", "demo"), Ok(()));
    assert_eq!(validate_ids("", ""), Ok(()));
    let sixteen = "abcdefghijklmnop";
    assert_eq!(sixteen.len(), MAX_ID_LEN);
    assert_eq!(validate_ids(sixteen, sixteen), Ok(()));
}

#[test]
fn seventeen_character_author_id_is_rejected() {
    let seventeen = "abcdefghijklmnopq";
    assert_eq!(seventeen.len(), 17);
    assert_eq!(validate_ids(seventeen, "demo"), Err(HarnessError::InvalidArgument));
}

#[test]
fn seventeen_character_app_id_is_rejected() {
    let seventeen = "abcdefghijklmnopq";
    assert_eq!(validate_ids("alice", seventeen), Err(HarnessError::InvalidArgument));
}

#[test]
fn explicit_storage_path_is_kept() {
    assert_eq!(resolve_vfs_path(String::from("/tmp/games")), "/tmp/games");
}

#[test]
fn empty_storage_path_means_a_platform_default() {
    let resolved = resolve_vfs_path(String::new());
    assert!(!resolved.is_empty());
}

#[test]
fn platform_without_data_dir_falls_back() {
    assert_eq!(get_vfs_path(None), FALLBACK_VFS_DIR);
    assert_eq!(get_vfs_path(Some(String::from("/data"))), "/data");
}

#[test]
fn pad_present_exactly_at_the_sentinel() {
    assert_eq!(pad_from_coords(PAD_SENTINEL, PAD_SENTINEL), Some((PAD_SENTINEL, PAD_SENTINEL)));
    assert_eq!(pad_from_coords(0, 0), None);
    assert_eq!(pad_from_coords(PAD_SENTINEL, 0), None);
    assert_eq!(pad_from_coords(0, PAD_SENTINEL), None);
    assert_eq!(pad_from_coords(-1, -1), None);
}
