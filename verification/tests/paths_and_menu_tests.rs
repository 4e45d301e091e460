use multivus_backup::fs_state::FsState;
use multivus_backup::menu::action_for_menu_id;
use multivus_backup::menu::directive_for;
use multivus_backup::menu::MenuAction;
use multivus_backup::menu::MenuDirective;
use multivus_backup::paths::artifact_path;
use multivus_backup::paths::backups_dir_path;
use multivus_backup::paths::find_last_sep;
use multivus_backup::paths::live_db_path;
use multivus_backup::paths::parent_dir;
use multivus_backup::paths::str_eq;
use multivus_backup::paths::valid_backup_name;

#[test]
fn path_composition_matches_the_persisted_layout() {
    assert_eq!(live_db_path("/tmp/app"), "/tmp/app/multivus.db");
    assert_eq!(backups_dir_path("/tmp/app"), "/tmp/app/backups");
    assert_eq!(artifact_path("/tmp/app", "foo"), "/tmp/app/backups/foo.db");
}

#[test]
fn parent_dir_splits_at_the_last_separator() {
    assert_eq!(parent_dir("/tmp/app/multivus.db").unwrap(), "/tmp/app");
    assert_eq!(parent_dir("/tmp/app/backups/foo.db").unwrap(), "/tmp/app/backups");
    assert_eq!(parent_dir("/top.db").unwrap(), "");
    assert_eq!(parent_dir("bare.db"), None);
}

#[test]
fn find_last_sep_finds_the_last_separator() {
    assert_eq!(find_last_sep("/a/b/c"), Some(4));
    assert_eq!(find_last_sep("abc"), None);
    assert_eq!(find_last_sep("a/"), Some(1));
    assert_eq!(find_last_sep(""), None);
}

#[test]
fn backup_name_validation_rejects_traversal_and_separators() {
    assert!(valid_backup_name("foo"));
    assert!(valid_backup_name("nightly-2024"));
    assert!(valid_backup_name("."));
    assert!(!valid_backup_name(""));
    assert!(!valid_backup_name(".."));
    assert!(!valid_backup_name("a/b"));
    assert!(!valid_backup_name("a\\b"));
    assert!(!valid_backup_name("../x"));
}

#[test]
fn str_eq_compares_by_characters() {
    assert!(str_eq("", ""));
    assert!(str_eq("abc", "abc"));
    assert!(!str_eq("abc", "abd"));
    assert!(!str_eq("abc", "ab"));
}

#[test]
fn menu_ids_map_onto_the_closed_action_set() {
    assert_eq!(action_for_menu_id("quit"), Some(MenuAction::Quit));
    assert_eq!(action_for_menu_id("close"), Some(MenuAction::Close));
    assert_eq!(action_for_menu_id("backup"), Some(MenuAction::Backup));
    assert_eq!(action_for_menu_id("restore"), Some(MenuAction::Restore));
    assert_eq!(action_for_menu_id("export"), Some(MenuAction::Export));
    assert_eq!(action_for_menu_id("sync"), Some(MenuAction::Sync));
    assert_eq!(action_for_menu_id("edit"), None);
    assert_eq!(action_for_menu_id(""), None);
}

#[test]
fn menu_actions_demand_the_documented_directives() {
    assert!(matches!(directive_for(&MenuAction::Quit), MenuDirective::Terminate));
    assert!(matches!(directive_for(&MenuAction::Close), MenuDirective::CloseWindow));
    match directive_for(&MenuAction::Backup) {
        MenuDirective::EmitEvent(e) => assert_eq!(e, "menu-backup"),
        other => panic!("expected an event, got {:?}", other),
    }
    match directive_for(&MenuAction::Restore) {
        MenuDirective::EmitEvent(e) => assert_eq!(e, "menu-restore"),
        other => panic!("expected an event, got {:?}", other),
    }
    match directive_for(&MenuAction::Export) {
        MenuDirective::EmitEvent(e) => assert_eq!(e, "menu-export"),
        other => panic!("expected an event, got {:?}", other),
    }
    match directive_for(&MenuAction::Sync) {
        MenuDirective::EmitEvent(e) => assert_eq!(e, "menu-sync"),
        other => panic!("expected an event, got {:?}", other),
    }
}

#[test]
fn file_system_probes_and_primitives_behave() {
    let mut fs = FsState::new();
    assert!(!fs.dir_exists("/tmp"));
    fs.create_dir_all("/tmp/app");
    // ancestors exist as well
    assert!(fs.dir_exists("/tmp"));
    assert!(fs.dir_exists("/tmp/app"));
    assert!(!fs.file_exists("/tmp/app/a.db"));
    assert!(fs.dest_writable("/tmp/app/a.db"));
    assert!(!fs.dest_writable("/tmp/other/a.db"));

    fs.write_file("/tmp/app/a.db", vec![1, 2]).unwrap();
    assert!(fs.file_exists("/tmp/app/a.db"));
    assert_eq!(fs.read_file("/tmp/app/a.db").unwrap(), vec![1, 2]);
    assert!(fs.write_file("/tmp/other/a.db", vec![3]).is_err());

    fs.copy_file("/tmp/app/a.db", "/tmp/app/b.db").unwrap();
    assert_eq!(fs.read_file("/tmp/app/b.db").unwrap(), vec![1, 2]);
    assert!(fs.copy_file("/tmp/app/ghost.db", "/tmp/app/c.db").is_err());
    assert!(fs.copy_file("/tmp/app/a.db", "/tmp/other/c.db").is_err());

    // overwriting keeps the latest contents
    fs.write_file("/tmp/app/a.db", vec![9]).unwrap();
    assert_eq!(fs.read_file("/tmp/app/a.db").unwrap(), vec![9]);
}
