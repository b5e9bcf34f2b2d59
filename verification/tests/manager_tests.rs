use simplememo::encoding::EncType;
use simplememo::error::{FileFailure, IoErrorKind, MemoError};
use simplememo::manager::MemoManager;
use simplememo::memo::FileStat;
use simplememo::setting::{MemoSetting, SettingSource};

fn pad() -> MemoManager {
    MemoManager::new(3, MemoSetting::new())
}

fn small_file() -> FileStat {
    FileStat { is_file: true, size: Some(5) }
}

#[test]
fn new_pad_has_fresh_pages() {
    let m = pad();
    assert_eq!(m.memo_num(), 3);
    assert_eq!(m.page_num(), 0);
    for i in 0..3 {
        assert_eq!(m.get_memo(i).save_dir(), "./");
        assert_eq!(m.get_memo(i).encoding(), EncType::Utf8);
    }
    assert_eq!(m.get_lock_status(), vec![false, false, false]);
    assert!(m.get_unsaved_list().is_empty());
}

#[test]
fn unsaved_list_law() {
    let mut m = pad();
    m.set_unsaved(2);
    m.set_unsaved(0);
    assert_eq!(m.get_unsaved_list(), vec![0, 2]);
}

#[test]
fn lock_toggles() {
    let mut m = pad();
    assert!(m.toggle_lock_status(1));
    assert_eq!(m.get_lock_status(), vec![false, true, false]);
    assert!(!m.toggle_lock_status(1));
    assert_eq!(m.get_lock_status(), vec![false, false, false]);
}

#[test]
fn already_open_on_other_page() {
    let mut m = pad();
    m.load(0, "a.txt".to_string(), false, false, None, &small_file(), Ok(b"x".to_vec()))
        .unwrap();
    let res = m.load(1, "a.txt".to_string(), false, false, None, &small_file(), Ok(b"x".to_vec()));
    assert_eq!(res.unwrap_err(), MemoError::AlreadyOpen);
    assert_eq!(
        m.check_load(1, &"a.txt".to_string(), false, false, &small_file()),
        Err(MemoError::AlreadyOpen)
    );
    assert_eq!(m.get_memo(1).fullpath(), "");
    // The same page may load it again when overwriting.
    assert!(m
        .load(0, "a.txt".to_string(), false, true, None, &small_file(), Ok(b"x".to_vec()))
        .is_ok());
}

#[test]
fn empty_path_is_no_entry_on_fresh_pad() {
    let mut m = pad();
    let res = m.load(0, String::new(), false, false, None, &small_file(), Ok(Vec::new()));
    assert_eq!(res.unwrap_err(), MemoError::NoEntry);
    let no_file = FileStat { is_file: false, size: None };
    assert_eq!(
        m.check_load(0, &String::new(), false, false, &no_file),
        Err(MemoError::NoEntry)
    );
}

#[test]
fn save_only_changes_its_page() {
    let mut m = pad();
    m.set_unsaved(1);
    m.set_unsaved(2);
    assert_eq!(m.save(1, "n".to_string(), &"t".to_string(), false, true, Ok(())), Ok(()));
    assert_eq!(m.get_unsaved_list(), vec![2]);
    assert_eq!(m.get_memo(1).fullpath(), "./n.txt");
    assert_eq!(m.get_memo(2).fullpath(), "");
    let plan = m.plan_save(1, &"n".to_string(), &"t".to_string(), false, true).unwrap();
    assert!(plan.overwrite);
    assert_eq!(
        m.save(2, "n".to_string(), &"t".to_string(), false, true, Err(FileFailure::Open(IoErrorKind::AlreadyExists))),
        Err(MemoError::FileExist)
    );
}

#[test]
fn clear_memo_clears_page() {
    let mut m = pad();
    m.set_unsaved(0);
    m.clear_memo(0);
    assert!(m.get_unsaved_list().is_empty());
}

#[test]
fn page_and_font_size() {
    let mut m = pad();
    m.set_page_num(2);
    assert_eq!(m.page_num(), 2);
    m.set_font_size(30);
    assert_eq!(m.get_global_setting().fontsize, 30);
    assert!(!m.toggle_top_most());
    assert!(!m.setting().top_most);
}

#[test]
fn set_global_setting_passes_on_to_pages() {
    let mut m = pad();
    m.load(1, "docs/a.txt".to_string(), false, false, None, &small_file(), Ok(b"x".to_vec()))
        .unwrap();
    let mut s = MemoSetting::new();
    s.savepath = "new".to_string();
    s.encoding = EncType::ShiftJis;
    s.auto_encoding = false;
    assert_eq!(m.set_global_setting(&s), Ok(()));
    assert_eq!(m.get_global_setting().savepath, "new");
    assert_eq!(m.get_memo(0).save_dir(), "new");
    assert_eq!(m.get_memo(0).encoding(), EncType::ShiftJis);
    // A loaded page keeps its directory.
    assert_eq!(m.get_memo(1).save_dir(), "docs");
}

#[test]
fn invalid_global_setting_changes_nothing() {
    let mut m = pad();
    let mut s = MemoSetting::new();
    s.fontsize = 0;
    s.savepath = "new".to_string();
    assert_eq!(m.set_global_setting(&s), Err(MemoError::InvalidFontSize));
    assert_eq!(m.get_global_setting().savepath, "./");
    assert_eq!(m.get_memo(0).save_dir(), "./");
}

#[test]
fn load_setting_from_sources() {
    let mut m = pad();
    let mut s = MemoSetting::new();
    s.savepath = "loaded".to_string();
    assert_eq!(m.load_setting(SettingSource::Parsed(s)), Ok(()));
    assert_eq!(m.get_memo(2).save_dir(), "loaded");
    assert_eq!(m.load_setting(SettingSource::Malformed), Err(MemoError::Error));
    assert_eq!(
        m.load_setting(SettingSource::OpenFailed(IoErrorKind::NotFound)),
        Err(MemoError::Error)
    );
    assert_eq!(m.get_global_setting().savepath, "loaded");
}

#[test]
fn invalid_loaded_setting_is_kept_but_not_passed_on() {
    let mut m = pad();
    let mut s = MemoSetting::new();
    s.fontsize = 101;
    s.savepath = "loaded".to_string();
    assert_eq!(m.load_setting(SettingSource::Parsed(s)), Err(MemoError::InvalidFontSize));
    assert_eq!(m.get_global_setting().fontsize, 101);
    assert_eq!(m.get_memo(0).save_dir(), "./");
}

#[test]
fn save_setting_outcomes() {
    let m = pad();
    assert_eq!(m.save_setting(true, Ok(())), Ok(()));
    assert_eq!(m.save_setting(false, Ok(())), Err(MemoError::Error));
    assert_eq!(
        m.save_setting(true, Err(FileFailure::Open(IoErrorKind::PermissionDenied))),
        Err(MemoError::Permission)
    );
    assert_eq!(m.save_setting(true, Err(FileFailure::Transfer)), Err(MemoError::Error));
}

#[test]
fn get_memo_mut_changes_one_page() {
    let mut m = pad();
    m.get_memo_mut(1).set_encoding(EncType::ShiftJis);
    assert_eq!(m.get_memo(1).encoding(), EncType::ShiftJis);
    assert_eq!(m.get_memo(0).encoding(), EncType::Utf8);
}

#[test]
fn reload_refused_for_created_page() {
    let mut m = pad();
    m.set_unsaved(0);
    assert_eq!(m.reload_target().unwrap_err(), MemoError::Error);
    let res = m.reload_encoding(EncType::ShiftJis, &small_file(), Ok(vec![0x82, 0xA0]));
    assert_eq!(res.unwrap_err(), MemoError::Error);
    assert_eq!(m.get_unsaved_list(), vec![0]);
}

#[test]
fn reload_reads_loaded_file_in_new_encoding() {
    let mut m = pad();
    m.set_page_num(1);
    m.load(1, "docs/a.txt".to_string(), false, false, Some(EncType::Utf8), &small_file(), Ok(vec![0x82, 0xA0]))
        .unwrap();
    m.set_unsaved(1);
    assert_eq!(m.reload_target().unwrap(), "docs/a.txt");
    let big = FileStat { is_file: true, size: Some(10_000_000) };
    let res = m.reload_encoding(EncType::ShiftJis, &big, Ok(vec![0x82, 0xA0])).unwrap();
    assert_eq!(res.text, "あ");
    assert_eq!(m.get_memo(1).encoding(), EncType::ShiftJis);
    assert!(m.get_unsaved_list().is_empty());
}
