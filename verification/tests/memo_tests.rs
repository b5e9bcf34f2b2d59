use simplememo::encoding::EncType;
use simplememo::error::{FileFailure, IoErrorKind, MemoError};
use simplememo::memo::{FileStat, Memo, FILE_WARNING_SIZE};

fn fresh() -> Memo {
    Memo::new("memos".to_string(), EncType::Utf8, true)
}

fn small_file() -> FileStat {
    FileStat { is_file: true, size: Some(10) }
}

#[test]
fn new_memo_is_empty() {
    let m = fresh();
    assert_eq!(m.save_dir(), "memos");
    assert_eq!(m.encoding(), EncType::Utf8);
    assert!(!m.is_external_file());
    assert_eq!(m.save_count(), 0);
    assert_eq!(m.fullpath(), "");
    assert!(!m.is_unsaved());
    assert!(!m.is_locked());
}

#[test]
fn set_unsaved_marks_memo() {
    let mut m = fresh();
    m.set_unsaved();
    assert!(m.is_unsaved());
}

#[test]
fn load_reads_file_into_page() {
    let mut m = fresh();
    let res = m
        .load(
            "docs/note.txt".to_string(),
            false,
            false,
            Some(EncType::ShiftJis),
            &small_file(),
            Ok(vec![0x82, 0xA0]),
        )
        .unwrap();
    assert_eq!(res.text, "あ");
    assert_eq!(res.filename, "note.txt");
    assert!(m.is_external_file());
    assert_eq!(m.save_dir(), "docs");
    assert_eq!(m.filename(), "note.txt");
    assert_eq!(m.fullpath(), "docs/note.txt");
    assert_eq!(m.encoding(), EncType::ShiftJis);
    assert_eq!(m.save_count(), 0);
    assert!(!m.is_unsaved());
}

#[test]
fn load_guesses_encoding_when_asked() {
    let mut m = fresh();
    let text = "これは日本語のメモです。文字コードを自動で判別します。";
    let bytes = simplememo::encoding::EncodingConverter::convert(text, EncType::ShiftJis).unwrap();
    let res = m.load("a.txt".to_string(), false, false, None, &small_file(), Ok(bytes)).unwrap();
    assert_eq!(res.text, text);
    assert_eq!(m.encoding(), EncType::ShiftJis);
}

#[test]
fn load_falls_back_to_default_when_guess_unsupported() {
    let mut m = Memo::new("memos".to_string(), EncType::ShiftJis, true);
    let latin1: Vec<u8> = "Ça va très bien, merci beaucoup. À bientôt, chère amie, passez une très bonne journée."
        .chars()
        .map(|c| c as u32 as u8)
        .collect();
    m.load("a.txt".to_string(), false, false, None, &small_file(), Ok(latin1)).unwrap();
    assert_eq!(m.encoding(), EncType::ShiftJis);
}

#[test]
fn load_without_guessing_uses_page_encoding() {
    let mut m = Memo::new("memos".to_string(), EncType::Utf8, false);
    m.set_encoding(EncType::ShiftJis);
    let res = m
        .load("a.txt".to_string(), false, false, None, &small_file(), Ok(vec![0x82, 0xA0]))
        .unwrap();
    assert_eq!(res.text, "あ");
    assert_eq!(m.encoding(), EncType::ShiftJis);
}

#[test]
fn load_refused_when_memo_left() {
    let mut m = fresh();
    m.set_unsaved();
    let res = m.load("a.txt".to_string(), false, false, None, &small_file(), Ok(b"x".to_vec()));
    assert_eq!(res.unwrap_err(), MemoError::LeaveMemo);
    assert!(m.is_unsaved());
    assert_eq!(m.fullpath(), "");
    // Overwriting is allowed.
    assert!(m.load("a.txt".to_string(), false, true, None, &small_file(), Ok(b"x".to_vec())).is_ok());
}

#[test]
fn loaded_page_refuses_second_load_law() {
    let mut m = fresh();
    m.load("a.txt".to_string(), false, false, None, &small_file(), Ok(b"x".to_vec())).unwrap();
    let res = m.load("b.txt".to_string(), false, false, None, &small_file(), Ok(b"y".to_vec()));
    assert_eq!(res.unwrap_err(), MemoError::LeaveMemo);
    assert_eq!(m.fullpath(), "a.txt");
}

#[test]
fn load_missing_file() {
    let mut m = fresh();
    let stat = FileStat { is_file: false, size: None };
    let res = m.load("a.txt".to_string(), false, false, None, &stat, Ok(Vec::new()));
    assert_eq!(res.unwrap_err(), MemoError::NoEntry);
}

#[test]
fn load_large_file_needs_waiver() {
    let mut m = fresh();
    let stat = FileStat { is_file: true, size: Some(FILE_WARNING_SIZE + 1) };
    let res = m.load("a.txt".to_string(), false, false, None, &stat, Ok(b"x".to_vec()));
    assert_eq!(res.unwrap_err(), MemoError::LargeFile);
    assert!(m.load("a.txt".to_string(), true, false, None, &stat, Ok(b"x".to_vec())).is_ok());
}

#[test]
fn load_at_warning_size_is_fine() {
    let mut m = fresh();
    let stat = FileStat { is_file: true, size: Some(FILE_WARNING_SIZE) };
    assert!(m.load("a.txt".to_string(), false, false, None, &stat, Ok(b"x".to_vec())).is_ok());
}

#[test]
fn load_without_metadata_is_an_error() {
    let mut m = fresh();
    let stat = FileStat { is_file: true, size: None };
    let res = m.load("a.txt".to_string(), false, false, None, &stat, Ok(b"x".to_vec()));
    assert_eq!(res.unwrap_err(), MemoError::Error);
}

#[test]
fn load_read_failures() {
    let cases = [
        (FileFailure::Open(IoErrorKind::NotFound), MemoError::NoEntry),
        (FileFailure::Open(IoErrorKind::PermissionDenied), MemoError::Permission),
        (FileFailure::Open(IoErrorKind::Other), MemoError::Error),
        (FileFailure::Transfer, MemoError::Error),
    ];
    for (failure, expected) in cases {
        let mut m = fresh();
        let res = m.load("a.txt".to_string(), false, false, None, &small_file(), Err(failure));
        assert_eq!(res.unwrap_err(), expected);
        assert_eq!(m.fullpath(), "");
    }
}

#[test]
fn check_load_matches_load() {
    let m = fresh();
    assert_eq!(m.check_load(&"a.txt".to_string(), false, false, &small_file()), Ok(()));
    let stat = FileStat { is_file: false, size: Some(1) };
    assert_eq!(
        m.check_load(&"a.txt".to_string(), false, false, &stat),
        Err(MemoError::NoEntry)
    );
}

#[test]
fn save_errors_before_writing() {
    let mut m = fresh();
    let text = "hello".to_string();
    assert_eq!(m.save(String::new(), &text, false, true, Ok(())), Err(MemoError::NoFileName));
    assert_eq!(m.save("a".to_string(), &text, false, false, Ok(())), Err(MemoError::NoDirectory));
    assert_eq!(
        m.save("a/b".to_string(), &text, false, true, Ok(())),
        Err(MemoError::InvalidFileName)
    );
    m.set_default_encoding(EncType::ShiftJis);
    assert_eq!(
        m.save("a".to_string(), &"\u{1F600}".to_string(), false, true, Ok(())),
        Err(MemoError::Error)
    );
    assert_eq!(m.save_count(), 0);
    assert_eq!(m.fullpath(), "");
}

#[test]
fn plan_of_new_file() {
    let m = fresh();
    let plan = m.plan_save(&"note".to_string(), &"hi".to_string(), false, true).unwrap();
    assert_eq!(plan.savepath, "memos/note.txt");
    assert!(!plan.overwrite);
    assert_eq!(plan.bytes, b"hi".to_vec());
    assert!(!plan.is_external_file);
    assert_eq!(plan.encoding, EncType::Utf8);
}

#[test]
fn save_success_records_path() {
    let mut m = fresh();
    m.set_unsaved();
    assert_eq!(m.save("note".to_string(), &"hi".to_string(), false, true, Ok(())), Ok(()));
    assert_eq!(m.fullpath(), "memos/note.txt");
    assert_eq!(m.save_count(), 1);
    assert!(!m.is_unsaved());
    assert!(!m.is_external_file());
}

#[test]
fn resave_same_name_overwrites_law() {
    let mut m = fresh();
    m.save("note".to_string(), &"hi".to_string(), false, true, Ok(())).unwrap();
    let plan = m.plan_save(&"note".to_string(), &"again".to_string(), false, true).unwrap();
    assert_eq!(plan.savepath, "memos/note.txt");
    assert!(plan.overwrite);
    m.save("note".to_string(), &"again".to_string(), false, true, Ok(())).unwrap();
    assert_eq!(m.save_count(), 2);
}

#[test]
fn save_write_failures_keep_page() {
    let cases = [
        (FileFailure::Open(IoErrorKind::NotFound), MemoError::NoEntry),
        (FileFailure::Open(IoErrorKind::AlreadyExists), MemoError::FileExist),
        (FileFailure::Open(IoErrorKind::PermissionDenied), MemoError::Permission),
        (FileFailure::Open(IoErrorKind::Other), MemoError::Error),
        (FileFailure::Transfer, MemoError::Error),
    ];
    for (failure, expected) in cases {
        let mut m = fresh();
        m.set_unsaved();
        let res = m.save("note".to_string(), &"hi".to_string(), false, true, Err(failure));
        assert_eq!(res, Err(expected));
        assert!(m.is_unsaved());
        assert_eq!(m.fullpath(), "");
        assert_eq!(m.save_count(), 0);
    }
}

#[test]
fn save_loaded_file_in_place() {
    let mut m = fresh();
    m.load("docs/note.md".to_string(), false, false, Some(EncType::ShiftJis), &small_file(), Ok(b"x".to_vec()))
        .unwrap();
    let plan = m.plan_save(&"note.md".to_string(), &"y".to_string(), false, true).unwrap();
    assert_eq!(plan.savepath, "docs/note.md");
    assert!(plan.overwrite);
    assert!(plan.is_external_file);
    assert_eq!(plan.encoding, EncType::ShiftJis);
    m.save("note.md".to_string(), &"y".to_string(), false, true, Ok(())).unwrap();
    assert!(m.is_external_file());
    assert_eq!(m.save_count(), 1);
    assert_eq!(m.encoding(), EncType::ShiftJis);
}

#[test]
fn save_loaded_file_under_new_name_goes_to_default_dir() {
    let mut m = fresh();
    m.load("docs/note.md".to_string(), false, false, Some(EncType::ShiftJis), &small_file(), Ok(b"x".to_vec()))
        .unwrap();
    let plan = m.plan_save(&"other".to_string(), &"y".to_string(), false, true).unwrap();
    assert_eq!(plan.savepath, "memos/other.txt");
    assert!(!plan.overwrite);
    assert!(!plan.is_external_file);
    // A loaded file keeps its encoding.
    assert_eq!(plan.encoding, EncType::ShiftJis);
    m.save("other".to_string(), &"y".to_string(), false, true, Ok(())).unwrap();
    assert!(!m.is_external_file());
    assert_eq!(m.save_dir(), "memos");
    assert_eq!(m.fullpath(), "memos/other.txt");
    assert_eq!(m.save_count(), 1);
}

#[test]
fn created_page_takes_default_encoding_on_new_path() {
    let mut m = fresh();
    m.set_encoding(EncType::ShiftJis);
    let plan = m.plan_save(&"n".to_string(), &"x".to_string(), true, true).unwrap();
    assert_eq!(plan.encoding, EncType::Utf8);
    assert!(plan.overwrite);
}

#[test]
fn clear_resets_page() {
    let mut m = fresh();
    m.load("docs/a.txt".to_string(), false, false, Some(EncType::ShiftJis), &small_file(), Ok(b"x".to_vec()))
        .unwrap();
    m.set_unsaved();
    m.clear();
    assert_eq!(m.save_dir(), "memos");
    assert_eq!(m.encoding(), EncType::Utf8);
    assert!(!m.is_external_file());
    assert_eq!(m.fullpath(), "");
    assert!(!m.is_unsaved());
    // A cleared page accepts a load.
    assert_eq!(m.check_load(&"b.txt".to_string(), false, false, &small_file()), Ok(()));
}

#[test]
fn default_setters() {
    let mut m = fresh();
    m.set_default_savepath("other".to_string());
    assert_eq!(m.save_dir(), "other");
    m.set_default_encoding(EncType::ShiftJis);
    assert_eq!(m.encoding(), EncType::ShiftJis);
    m.save("n".to_string(), &"x".to_string(), false, true, Ok(())).unwrap();
    m.set_default_encoding(EncType::Utf8);
    assert_eq!(m.encoding(), EncType::ShiftJis);
    m.set_auto_encoding(false);
    let mut ext = fresh();
    ext.load("docs/a.txt".to_string(), false, false, None, &small_file(), Ok(b"x".to_vec())).unwrap();
    ext.set_default_savepath("elsewhere".to_string());
    assert_eq!(ext.save_dir(), "docs");
}

#[test]
fn toggle_lock_twice_law() {
    let mut m = fresh();
    assert!(m.toggle_locked());
    assert!(!m.toggle_locked());
    assert!(!m.is_locked());
}

#[test]
fn save_load_round_trip_law() {
    let text = "日本語のメモ\n二行目".to_string();
    let mut writer = fresh();
    let plan = writer.plan_save(&"n".to_string(), &text, false, true).unwrap();
    let mut reader = fresh();
    let loaded = reader
        .load(plan.savepath.clone(), false, false, Some(EncType::Utf8), &small_file(), Ok(plan.bytes.clone()))
        .unwrap();
    assert_eq!(loaded.text, text);
}
