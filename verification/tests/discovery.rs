use celeste_saves::discovery::{
    fallback_directory, primary_directory, save_directory, save_path, SLOTS,
};
use celeste_saves::load_saves;

#[test]
fn fallback_directory_with_two_files() {
    let paths = load_saves(Some("/home/madeline"), false, Some("/data"), [true, false, true]);
    assert_eq!(paths, vec!["/data/Celeste/Saves/0.celeste", "/data/Celeste/Saves/2.celeste"]);
}

#[test]
fn primary_directory_wins_where_it_exists() {
    let paths = load_saves(Some("/Users/theo"), true, Some("/data"), [true, true, true]);
    assert_eq!(
        paths,
        vec![
            "/Users/theo/Library/Application Support/Celeste/Saves/0.celeste",
            "/Users/theo/Library/Application Support/Celeste/Saves/1.celeste",
            "/Users/theo/Library/Application Support/Celeste/Saves/2.celeste",
        ]
    );
    let paths = load_saves(Some("/Users/theo"), true, None, [false, true, false]);
    assert_eq!(paths, vec!["/Users/theo/Library/Application Support/Celeste/Saves/1.celeste"]);
}

#[test]
fn no_files_is_no_error() {
    assert!(load_saves(Some("/home/m"), true, Some("/data"), [false, false, false]).is_empty());
    assert!(load_saves(Some("/home/m"), false, Some("/data"), [false, false, false]).is_empty());
}

#[test]
fn without_a_home_nothing_is_found() {
    assert!(load_saves(None, false, Some("/data"), [true, true, true]).is_empty());
    assert!(load_saves(None, true, Some("/data"), [true, true, true]).is_empty());
    assert!(load_saves(None, false, None, [true, true, true]).is_empty());
}

#[test]
fn without_a_data_directory_there_is_no_fallback() {
    assert!(load_saves(Some("/home/m"), false, None, [true, true, true]).is_empty());
}

#[test]
fn directories_are_named_exactly() {
    assert_eq!(primary_directory("/Users/theo"), "/Users/theo/Library/Application Support/Celeste/Saves");
    assert_eq!(primary_directory(""), "/Library/Application Support/Celeste/Saves");
    assert_eq!(fallback_directory("/home/m/.local/share"), "/home/m/.local/share/Celeste/Saves");
    assert_eq!(fallback_directory(""), "/Celeste/Saves");
}

#[test]
fn save_directory_follows_what_exists() {
    assert_eq!(
        save_directory(Some("/h"), true, Some("/d")),
        Some("/h/Library/Application Support/Celeste/Saves".to_string())
    );
    assert_eq!(save_directory(Some("/h"), false, Some("/d")), Some("/d/Celeste/Saves".to_string()));
    assert_eq!(save_directory(Some("/h"), false, None), None);
    assert_eq!(save_directory(None, true, Some("/d")), None);
}

#[test]
fn save_paths_are_named_by_slot() {
    assert_eq!(SLOTS, 3);
    assert_eq!(save_path("/d/Celeste/Saves", 0), "/d/Celeste/Saves/0.celeste");
    assert_eq!(save_path("/d/Celeste/Saves", 1), "/d/Celeste/Saves/1.celeste");
    assert_eq!(save_path("/d/Celeste/Saves", 2), "/d/Celeste/Saves/2.celeste");
}

#[test]
fn save_paths_agree_with_path_joining() {
    for slot in 0..SLOTS {
        let joined = std::path::Path::new("/d/Celeste/Saves").join(format!("{}.celeste", slot));
        assert_eq!(std::path::Path::new(&save_path("/d/Celeste/Saves", slot)), joined);
    }
}
