use fnav::colors::Colors;
use fnav::errors::{DeleteError, ErrorMessage, LedgerError, ScanError};
use fnav::ftype::{FileEntry, FileType};
use fnav::listing::build_listing;
use fnav::nav::{Command, DeleteMode, Effect, F};
use fnav::recycle_bin::{DeletePlan, RecycleBin, RecycleBinEntry};

fn child(dir: &str, name: &str, size: u64, kind: FileType) -> FileEntry {
    FileEntry::new(name.as_bytes().to_vec(), format!("{dir}/{name}"), size, kind)
}

fn tmp_x_children() -> Vec<FileEntry> {
    vec![
        child("/tmp/x", "a.txt", 10, FileType::File),
        child("/tmp/x", ".hidden", 5, FileType::File),
        child("/tmp/x", "b", 4096, FileType::Directory),
    ]
}

fn browser() -> F {
    let rows = build_listing("/tmp/x", Some("/tmp/x"), tmp_x_children(), false);
    F::new("/tmp/x".to_string(), rows, Colors::default())
}

fn is_token(s: &str) -> bool {
    s.len() == 32 && s.chars().all(|c| c.is_ascii_digit() || ('a'..='f').contains(&c))
}

#[test]
fn new_selects_first_row() {
    let f = browser();
    assert_eq!(f.idx, Some(0));
    assert_eq!(f.rows.len(), 3);
    assert!(f.error_text.is_none());
    assert!(!f.show_hidden && f.show_preview && !f.show_bytes && !f.is_exit);
    let empty = F::new("/".to_string(), Vec::new(), Colors::default());
    assert_eq!(empty.idx, None);
    assert!(empty.selected().is_none());
}

#[test]
fn next_walks_to_last_row_and_stops() {
    let mut f = browser();
    let len = f.rows.len();
    for _ in 0..len - 1 {
        assert_eq!(f.handle_key_event(Command::Next), Effect::Nothing);
    }
    assert_eq!(f.idx, Some(len - 1));
    f.handle_key_event(Command::Next);
    assert_eq!(f.idx, Some(len - 1));
}

#[test]
fn prev_first_last_stay_in_range() {
    let mut f = browser();
    f.handle_key_event(Command::Prev);
    assert_eq!(f.idx, Some(0));
    f.handle_key_event(Command::Last);
    assert_eq!(f.idx, Some(2));
    f.handle_key_event(Command::Prev);
    assert_eq!(f.idx, Some(1));
    f.handle_key_event(Command::First);
    assert_eq!(f.idx, Some(0));
}

#[test]
fn moves_on_empty_listing_do_nothing() {
    let mut f = F::new("/empty".to_string(), Vec::new(), Colors::default());
    for cmd in [Command::Next, Command::Prev, Command::First, Command::Last] {
        assert_eq!(f.handle_key_event(cmd), Effect::Nothing);
        assert_eq!(f.idx, None);
    }
}

#[test]
fn enter_directory_then_scan_succeeds() {
    let mut f = browser();
    f.handle_key_event(Command::Last);
    let eff = f.handle_key_event(Command::Enter);
    assert_eq!(eff, Effect::Enter { dir: "/tmp/x/b".to_string(), show_hidden: false });
    let inner = build_listing("/tmp/x/b", Some("/tmp/x/b"), vec![child("/tmp/x/b", "c", 1, FileType::File)], false);
    f.entered("/tmp/x/b".to_string(), Ok(inner));
    assert_eq!(f.current_dir, "/tmp/x/b");
    assert_eq!(f.rows.len(), 2);
    assert_eq!(f.idx, Some(0));
    assert_eq!(f.rows[0].path, "/tmp/x");
}

#[test]
fn failed_enter_keeps_previous_directory() {
    let mut f = browser();
    f.handle_key_event(Command::Last);
    let before_rows = f.rows.clone();
    let eff = f.handle_key_event(Command::Enter);
    let Effect::Enter { dir, .. } = eff else { panic!("expected a scan") };
    f.entered(dir, Err(ScanError::Unreadable("No such file or directory".to_string())));
    assert_eq!(f.current_dir, "/tmp/x");
    assert_eq!(f.idx, Some(2));
    assert_eq!(f.rows.len(), before_rows.len());
    assert_eq!(
        f.error_text,
        Some(ErrorMessage::Scan(ScanError::Unreadable("No such file or directory".to_string())))
    );
}

#[test]
fn enter_on_file_does_nothing_but_clears_error() {
    let mut f = browser();
    f.error_text = Some(ErrorMessage::NothingSelected);
    f.handle_key_event(Command::Next);
    assert_eq!(f.handle_key_event(Command::Enter), Effect::Nothing);
    assert!(f.error_text.is_none());
}

#[test]
fn enter_marker_goes_to_parent() {
    let mut f = browser();
    let eff = f.handle_key_event(Command::Enter);
    assert_eq!(eff, Effect::Enter { dir: "/tmp".to_string(), show_hidden: false });
}

#[test]
fn home_and_root_ask_for_entry() {
    let mut f = browser();
    assert_eq!(
        f.handle_key_event(Command::GoHome("/home/u".to_string())),
        Effect::Enter { dir: "/home/u".to_string(), show_hidden: false }
    );
    assert_eq!(f.handle_key_event(Command::GoRoot), Effect::Enter { dir: "/".to_string(), show_hidden: false });
    assert_eq!(f.current_dir, "/tmp/x");
}

#[test]
fn toggle_hidden_rescans_with_new_flag() {
    let mut f = browser();
    let eff = f.handle_key_event(Command::ToggleHidden);
    assert_eq!(eff, Effect::Rescan { dir: "/tmp/x".to_string(), show_hidden: true });
    assert!(f.show_hidden);
    f.rescanned(Ok(build_listing("/tmp/x", Some("/tmp/x"), tmp_x_children(), true)));
    assert_eq!(f.rows.len(), 4);
    assert_eq!(f.idx, Some(0));
}

#[test]
fn failed_rescan_keeps_listing_and_reports() {
    let mut f = browser();
    f.handle_key_event(Command::Next);
    f.handle_key_event(Command::ToggleHidden);
    f.rescanned(Err(ScanError::Unreadable("gone".to_string())));
    assert_eq!(f.rows.len(), 3);
    assert_eq!(f.idx, Some(1));
    assert!(matches!(f.error_text, Some(ErrorMessage::Scan(_))));
}

#[test]
fn preview_and_bytes_toggles_exclude_each_other() {
    let mut f = browser();
    f.handle_key_event(Command::ToggleBytes);
    assert!(f.show_bytes && !f.show_preview);
    f.handle_key_event(Command::TogglePreview);
    assert!(f.show_preview && !f.show_bytes);
}

#[test]
fn delete_of_marker_is_refused() {
    let mut f = browser();
    assert_eq!(f.handle_key_event(Command::Delete(DeleteMode::Permanent)), Effect::Nothing);
    assert_eq!(f.error_text, Some(ErrorMessage::ParentNotRemovable));
    assert_eq!(f.rows.len(), 3);
}

#[test]
fn delete_with_nothing_selected_is_refused() {
    let mut f = F::new("/".to_string(), Vec::new(), Colors::default());
    assert_eq!(f.handle_key_event(Command::Delete(DeleteMode::Safe)), Effect::Nothing);
    assert_eq!(f.error_text, Some(ErrorMessage::NothingSelected));
}

#[test]
fn failed_delete_does_not_rescan() {
    let mut f = browser();
    f.handle_key_event(Command::Next);
    let eff = f.handle_key_event(Command::Delete(DeleteMode::Permanent));
    assert_eq!(eff, Effect::Remove { path: "/tmp/x/a.txt".to_string(), mode: DeleteMode::Permanent });
    assert_eq!(f.removed(Err(DeleteError::PermissionDenied)), Effect::Nothing);
    assert_eq!(f.error_text, Some(ErrorMessage::Delete(DeleteError::PermissionDenied)));
}

#[test]
fn clear_error_and_exit() {
    let mut f = browser();
    f.error_text = Some(ErrorMessage::Colors("bad".to_string()));
    f.handle_key_event(Command::ClearError);
    assert!(f.error_text.is_none());
    assert_eq!(f.handle_key_event(Command::ReloadColors), Effect::LoadColors);
    f.colors_loaded(Err("missing".to_string()));
    assert_eq!(f.error_text, Some(ErrorMessage::Colors("missing".to_string())));
    f.handle_key_event(Command::Exit);
    assert!(f.is_exit);
}

#[test]
fn safe_delete_of_a_txt_moves_it_and_records_it() {
    let bin_dir = "/home/u/.local/share/f_bin/";
    let mut f = browser();
    f.handle_key_event(Command::Next);
    let Effect::Remove { path, mode } = f.handle_key_event(Command::Delete(DeleteMode::Safe)) else {
        panic!("expected a delete")
    };
    assert_eq!(mode, DeleteMode::Safe);
    assert_eq!(path, "/tmp/x/a.txt");

    let entry = RecycleBinEntry::new(&path);
    assert_eq!(entry.orig_path, "/tmp/x/a.txt");
    assert!(is_token(&entry.deleted_name));
    let mut ledger = RecycleBin::new();
    ledger.append(RecycleBinEntry { orig_path: "/old".to_string(), deleted_name: "0".repeat(32) });
    match entry.safe_delete(bin_dir) {
        DeletePlan::MoveToBin { from, to, record } => {
            assert_eq!(from, "/tmp/x/a.txt");
            assert_eq!(to, format!("{bin_dir}{}", entry.deleted_name));
            ledger.append(record);
        }
        other => panic!("unexpected plan {other:?}"),
    }
    assert_eq!(ledger.len(), 2);
    assert_eq!(ledger.entryes[1].orig_path, "/tmp/x/a.txt");
    assert_eq!(ledger.entryes[1].deleted_name, entry.deleted_name);

    let eff = f.removed(Ok(()));
    assert_eq!(eff, Effect::Rescan { dir: "/tmp/x".to_string(), show_hidden: false });
    let remaining = vec![
        child("/tmp/x", ".hidden", 5, FileType::File),
        child("/tmp/x", "b", 4096, FileType::Directory),
    ];
    f.rescanned(Ok(build_listing("/tmp/x", Some("/tmp/x"), remaining, false)));
    assert!(f.rows.iter().all(|e| e.file_name != b"a.txt".to_vec()));
    assert_eq!(f.rows.len(), 2);
}

#[test]
fn safe_delete_inside_holding_area_removes_in_place() {
    let bin_dir = "/home/u/.local/share/f_bin/";
    let entry = RecycleBinEntry::new("/home/u/.local/share/f_bin/0123456789abcdef0123456789abcdef");
    assert_eq!(
        entry.safe_delete(bin_dir),
        DeletePlan::RemoveInPlace { path: "/home/u/.local/share/f_bin/0123456789abcdef0123456789abcdef".to_string() }
    );
    let entry = RecycleBinEntry::new("/home/u/.local/share/f_bin/sub/x");
    assert!(matches!(entry.safe_delete(bin_dir), DeletePlan::MoveToBin { .. }));
}

#[test]
fn tokens_are_fresh_hex() {
    let a = RecycleBinEntry::new("/a");
    let b = RecycleBinEntry::new("/a");
    assert!(is_token(&a.deleted_name) && is_token(&b.deleted_name));
    assert_ne!(a.deleted_name, b.deleted_name);
    assert_eq!(a.held_path("/bin"), format!("/bin/{}", a.deleted_name));
}

#[test]
fn ledger_error_inside_delete_error() {
    let e = DeleteError::LedgerWriteFailed(LedgerError::Malformed("line 1".to_string()));
    assert_ne!(e, DeleteError::LedgerWriteFailed(LedgerError::IoFailure("line 1".to_string())));
    assert_ne!(DeleteError::SourceMissing, DeleteError::CrossDevice);
}

#[test]
fn ledger_after_move_appends_or_reports() {
    let rec = RecycleBinEntry { orig_path: "/tmp/x/a.txt".to_string(), deleted_name: "f".repeat(32) };
    let fresh = RecycleBin::after_move(Ok(None), rec.clone()).unwrap();
    assert_eq!(fresh.entryes, vec![rec.clone()]);
    let mut old = RecycleBin::new();
    old.append(RecycleBinEntry { orig_path: "/o".to_string(), deleted_name: "0".repeat(32) });
    let grown = RecycleBin::after_move(Ok(Some(old)), rec.clone()).unwrap();
    assert_eq!(grown.len(), 2);
    assert_eq!(grown.entryes[1], rec);
    let err = RecycleBin::after_move(Err(LedgerError::Malformed("bad".to_string())), rec);
    assert_eq!(err.unwrap_err(), DeleteError::LedgerWriteFailed(LedgerError::Malformed("bad".to_string())));
}
