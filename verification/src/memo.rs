use vstd::prelude::*;
use vstd::string::*;
use vstd::utf8::*;
use crate::encoding::{EncType, EncodingConverter};
use crate::encoding;
use crate::error::{FileFailure, IoErrorKind, MemoError};
use crate::path;
use crate::path::{file_name_of, join_path, parent_of, paths_equal, sanitize};

verus! {

/// Files larger than this many bytes are only loaded when the size warning
/// is waived.
pub const FILE_WARNING_SIZE: u64 = 1048576u64;

/// One page of the memo pad: its settings and the file it belongs to.
#[derive(Clone, Debug)]
pub struct Memo {
    default_save_path: String,
    default_encoding: EncType,
    auto_encoding: bool,
    save_dir: String,
    encoding: EncType,
    is_external_file: bool,
    filename: String,
    save_count: u32,
    fullpath: String,
    unsaved: bool,
    locked: bool,
}

/// The state of a page, as the contracts speak of it.
#[verifier::ext_equal]
pub struct MemoView {
    /// Directory new files are saved in.
    pub default_save_path: Seq<char>,
    /// Encoding of new files.
    pub default_encoding: EncType,
    /// Whether the encoding of loaded files is guessed.
    pub auto_encoding: bool,
    /// Directory the page's file is saved in.
    pub save_dir: Seq<char>,
    /// Encoding the page's file is read and written in.
    pub encoding: EncType,
    /// Whether the page holds a file that was loaded rather than created.
    pub is_external_file: bool,
    /// Name of the loaded file.
    pub filename: Seq<char>,
    /// Number of saves since the page got its file.
    pub save_count: u32,
    /// Path the page was last loaded from or saved to; empty when none.
    pub fullpath: Seq<char>,
    /// Whether the page has edits that are not saved.
    pub unsaved: bool,
    /// Whether the page is locked against editing.
    pub locked: bool,
}

/// The text of a loaded file and the file's name.
#[derive(Clone, Debug)]
pub struct LoadedMemo {
    pub text: String,
    pub filename: String,
}

/// What the file system says of a path before it is read: whether it is a
/// regular file, and its size (`None` when its metadata could not be read).
#[derive(Clone, Copy, Debug)]
pub struct FileStat {
    pub is_file: bool,
    pub size: Option<u64>,
}

/// How a save is to be carried out: the path, whether an existing file may
/// be replaced, the bytes to write, and the page's external-file flag and
/// encoding once the save succeeds.
#[derive(Clone, Debug)]
pub struct SavePlan {
    pub savepath: String,
    pub overwrite: bool,
    pub bytes: Vec<u8>,
    pub is_external_file: bool,
    pub encoding: EncType,
}

/// A save plan as the contracts speak of it.
pub struct SavePlanView {
    pub savepath: Seq<char>,
    pub overwrite: bool,
    pub bytes: Seq<u8>,
    pub is_external_file: bool,
    pub encoding: EncType,
}

impl View for SavePlan {
    type V = SavePlanView;

    open spec fn view(&self) -> SavePlanView {
        SavePlanView {
            savepath: self.savepath@,
            overwrite: self.overwrite,
            bytes: self.bytes@,
            is_external_file: self.is_external_file,
            encoding: self.encoding,
        }
    }
}

impl View for Memo {
    type V = MemoView;

    closed spec fn view(&self) -> MemoView {
        MemoView {
            default_save_path: self.default_save_path@,
            default_encoding: self.default_encoding,
            auto_encoding: self.auto_encoding,
            save_dir: self.save_dir@,
            encoding: self.encoding,
            is_external_file: self.is_external_file,
            filename: self.filename@,
            save_count: self.save_count,
            fullpath: self.fullpath@,
            unsaved: self.unsaved,
            locked: self.locked,
        }
    }
}

/// File content a page can decode in any encoding: small enough, ASCII, or
/// plain UTF-8 behind a UTF-8 byte order mark.
pub open spec fn loadable_content(bytes: Seq<u8>) -> bool {
    ||| bytes.len() <= usize::MAX / 8
    ||| encoding::is_ascii_bytes(bytes)
    ||| encoding::has_utf8_bom(bytes) && encoding::is_plain_utf8(bytes)
}

/// Text a page can encode in any encoding: short enough, or ASCII.
pub open spec fn savable_text(text: Seq<char>) -> bool {
    text.len() <= usize::MAX / 32 || is_ascii_chars(text)
}

/// A fresh page.
pub open spec fn new_memo(default_save_path: Seq<char>, default_encoding: EncType, auto_encoding: bool) -> MemoView {
    MemoView {
        default_save_path,
        default_encoding,
        auto_encoding,
        save_dir: default_save_path,
        encoding: default_encoding,
        is_external_file: false,
        filename: Seq::empty(),
        save_count: 0,
        fullpath: Seq::empty(),
        unsaved: false,
        locked: false,
    }
}

/// The page with its content forgotten: back to the defaults, with no file.
/// The settings, the file name and the lock are kept.
pub open spec fn cleared(m: MemoView) -> MemoView {
    MemoView {
        save_dir: m.default_save_path,
        encoding: m.default_encoding,
        is_external_file: false,
        save_count: 0,
        fullpath: Seq::empty(),
        unsaved: false,
        ..m
    }
}

/// The page still holds a memo: unsaved edits, or a file it belongs to.
pub open spec fn holds_memo(m: MemoView) -> bool {
    m.unsaved || m.fullpath.len() > 0
}

/// The checks made before a file is read into the page, in order: a memo
/// left on the page (unless overwriting), a path that is not a file, a file
/// whose size could not be read, and a file over the warning size (unless
/// waived).
pub open spec fn load_precheck(m: MemoView, fullpath: Seq<char>, ignore_fsize: bool, overwrite: bool, stat: FileStat) -> Result<(), MemoError> {
    if !overwrite && holds_memo(m) {
        Err(MemoError::LeaveMemo)
    } else if !stat.is_file || path::path_parent(fullpath) is None || path::path_file_name(
        fullpath,
    ) is None {
        Err(MemoError::NoEntry)
    } else {
        match stat.size {
            Some(size) => if !ignore_fsize && size > FILE_WARNING_SIZE {
                Err(MemoError::LargeFile)
            } else {
                Ok(())
            },
            None => Err(MemoError::Error),
        }
    }
}

/// The error reported when reading a file fails.
pub open spec fn read_failure_error(f: FileFailure) -> MemoError {
    match f {
        FileFailure::Open(IoErrorKind::NotFound) => MemoError::NoEntry,
        FileFailure::Open(IoErrorKind::PermissionDenied) => MemoError::Permission,
        _ => MemoError::Error,
    }
}

/// The error reported when writing a file fails.
pub open spec fn write_failure_error(f: FileFailure) -> MemoError {
    match f {
        FileFailure::Open(IoErrorKind::NotFound) => MemoError::NoEntry,
        FileFailure::Open(IoErrorKind::AlreadyExists) => MemoError::FileExist,
        FileFailure::Open(IoErrorKind::PermissionDenied) => MemoError::Permission,
        _ => MemoError::Error,
    }
}

/// The encoding a file is read in: the requested one; else, with guessing
/// on, the guessed one when it is supported and the default one when not;
/// else the page's encoding.
pub open spec fn load_encoding(m: MemoView, requested: Option<EncType>, bytes: Seq<u8>) -> EncType {
    match requested {
        Some(enc) => enc,
        None => if m.auto_encoding {
            match encoding::encoding_of_name(encoding::detector_guess(bytes, false, true)) {
                Some(enc) => enc,
                None => m.default_encoding,
            }
        } else {
            m.encoding
        },
    }
}

/// The page after a file was read into it: cleared, then holding the file
/// at `fullpath` in the encoding `enc`.
pub open spec fn loaded(m: MemoView, fullpath: Seq<char>, enc: EncType) -> MemoView {
    MemoView {
        is_external_file: true,
        save_dir: path::path_parent(fullpath)->0,
        filename: path::path_file_name(fullpath)->0,
        fullpath,
        encoding: enc,
        ..cleared(m)
    }
}

/// The name a file is saved under: created files get ".txt" appended.
pub open spec fn with_extension(is_external_file: bool, filename: Seq<char>) -> Seq<char> {
    if is_external_file {
        filename
    } else {
        filename + ".txt"@
    }
}

/// Whether a file name is refused: sanitizing it changes it.
pub open spec fn is_invalid_file_name(filename: Seq<char>) -> bool {
    path::sanitized_file_name(filename) != filename
}

/// Where a save goes: the file name in the page's directory; but a loaded
/// file saved under another path is saved as a new file in the default
/// directory instead. The flag tells whether it stays a loaded file.
pub open spec fn save_target(m: MemoView, filename: Seq<char>) -> (Seq<char>, bool) {
    let first = path::path_join(m.save_dir, with_extension(m.is_external_file, filename));
    if m.is_external_file && !path::path_equal(first, m.fullpath) {
        (path::path_join(m.default_save_path, with_extension(false, filename)), false)
    } else {
        (first, m.is_external_file)
    }
}

/// The encoding a save writes in: a created page saved to a new path takes
/// the default encoding; otherwise the page's encoding is kept.
pub open spec fn save_encoding(m: MemoView, savepath: Seq<char>) -> EncType {
    if !m.is_external_file && !path::path_equal(savepath, m.fullpath) {
        m.default_encoding
    } else {
        m.encoding
    }
}

/// The plan of a save, or the error that stops it before anything is
/// written: no file name, no save directory, a refused file name, or text
/// the encoding cannot represent. An existing file may be replaced when the
/// page holds a loaded file, when the caller allows it, or when the path is
/// the one the page already belongs to.
pub open spec fn save_plan(m: MemoView, filename: Seq<char>, text: Seq<char>, overwrite: bool, dir_exists: bool) -> Result<SavePlanView, MemoError> {
    if filename.len() == 0 {
        Err(MemoError::NoFileName)
    } else if !dir_exists {
        Err(MemoError::NoDirectory)
    } else if is_invalid_file_name(filename) {
        Err(MemoError::InvalidFileName)
    } else {
        let (savepath, is_external_file) = save_target(m, filename);
        let enc = save_encoding(m, savepath);
        let (bytes, had_errors) = encoding::encoding_encode(enc, text);
        if had_errors {
            Err(MemoError::Error)
        } else {
            Ok(
                SavePlanView {
                    savepath,
                    overwrite: is_external_file || overwrite || path::path_equal(
                        savepath,
                        m.fullpath,
                    ),
                    bytes,
                    is_external_file,
                    encoding: enc,
                },
            )
        }
    }
}

/// The page after the plan was written: a new path makes it a created
/// page in the default directory with its count restarted; then the path is
/// recorded, the count goes up and nothing is unsaved.
pub open spec fn saved(m: MemoView, plan: SavePlanView) -> MemoView {
    let same_path = path::path_equal(plan.savepath, m.fullpath);
    MemoView {
        save_dir: if same_path {
            m.save_dir
        } else {
            m.default_save_path
        },
        is_external_file: if same_path {
            plan.is_external_file
        } else {
            false
        },
        encoding: plan.encoding,
        fullpath: plan.savepath,
        save_count: if same_path {
            (m.save_count + 1) as u32
        } else {
            1
        },
        unsaved: false,
        ..m
    }
}

/// What reading a file into a page gives: the loaded text and file name, or
/// the error, together with the page afterwards. `content` is the outcome of
/// reading the file; it only matters when the checks pass.
pub open spec fn load_outcome(m: MemoView, fullpath: Seq<char>, ignore_fsize: bool, overwrite: bool, requested: Option<EncType>, stat: FileStat, content: Result<Seq<u8>, FileFailure>) -> (Result<(Seq<char>, Seq<char>), MemoError>, MemoView) {
    match load_precheck(m, fullpath, ignore_fsize, overwrite, stat) {
        Err(e) => (Err(e), m),
        Ok(_) => match content {
            Err(f) => (Err(read_failure_error(f)), m),
            Ok(bytes) => {
                let enc = load_encoding(m, requested, bytes);
                (
                    Ok((encoding::encoding_decode(enc, bytes).0, path::path_file_name(fullpath)->0)),
                    loaded(m, fullpath, enc),
                )
            },
        },
    }
}

/// What saving a page gives: success or the error, together with the page
/// afterwards. `written` is the outcome of carrying out the save plan; it
/// only matters when there is a plan.
pub open spec fn save_outcome(m: MemoView, filename: Seq<char>, text: Seq<char>, overwrite: bool, dir_exists: bool, written: Result<(), FileFailure>) -> (Result<(), MemoError>, MemoView) {
    match save_plan(m, filename, text, overwrite, dir_exists) {
        Err(e) => (Err(e), m),
        Ok(plan) => match written {
            Ok(_) => (Ok(()), saved(m, plan)),
            Err(f) => (Err(write_failure_error(f)), m),
        },
    }
}

/// The loaded text and file name of a load result, as views.
pub open spec fn loaded_view(res: Result<LoadedMemo, MemoError>) -> Result<(Seq<char>, Seq<char>), MemoError> {
    match res {
        Ok(lm) => Ok((lm.text@, lm.filename@)),
        Err(e) => Err(e),
    }
}

/// A read outcome with the bytes taken by their view.
pub open spec fn content_view(content: Result<Vec<u8>, FileFailure>) -> Result<Seq<u8>, FileFailure> {
    match content {
        Ok(bytes) => Ok(bytes@),
        Err(f) => Err(f),
    }
}

impl Memo {
    /// A fresh page with the given defaults.
    pub fn new(default_save_path: String, default_encoding: EncType, auto_encoding: bool) -> (memo: Self)
        ensures
            memo@ == new_memo(default_save_path@, default_encoding, auto_encoding),
    {
        Memo {
            default_save_path: default_save_path.clone(),
            default_encoding: default_encoding,
            auto_encoding: auto_encoding,
            save_dir: default_save_path.clone(),
            encoding: default_encoding,
            is_external_file: false,
            filename: String::new(),
            save_count: 0,
            fullpath: String::new(),
            unsaved: false,
            locked: false,
        }
    }

    /// Marks the page as edited since the last save.
    pub fn set_unsaved(&mut self)
        ensures
            final(self)@ == (MemoView { unsaved: true, ..old(self)@ }),
    {
        self.unsaved = true;
    }

    /// Directory the page's file is saved in.
    pub fn save_dir(&self) -> (res: &String)
        ensures
            res@ == self@.save_dir,
    {
        &self.save_dir
    }

    /// Encoding the page's file is read and written in.
    pub fn encoding(&self) -> (res: EncType)
        ensures
            res == self@.encoding,
    {
        self.encoding
    }

    /// Whether the page holds a loaded file.
    pub fn is_external_file(&self) -> (res: bool)
        ensures
            res == self@.is_external_file,
    {
        self.is_external_file
    }

    /// Number of saves since the page got its file.
    pub fn save_count(&self) -> (res: u32)
        ensures
            res == self@.save_count,
    {
        self.save_count
    }

    /// Path the page was last loaded from or saved to.
    pub fn fullpath(&self) -> (res: &String)
        ensures
            res@ == self@.fullpath,
    {
        &self.fullpath
    }

    /// Name of the loaded file.
    pub fn filename(&self) -> (res: &String)
        ensures
            res@ == self@.filename,
    {
        &self.filename
    }

    /// Whether the page has unsaved edits.
    pub fn is_unsaved(&self) -> (res: bool)
        ensures
            res == self@.unsaved,
    {
        self.unsaved
    }

    /// Whether the page is locked.
    pub fn is_locked(&self) -> (res: bool)
        ensures
            res == self@.locked,
    {
        self.locked
    }

    /// Flips the lock and returns the new state.
    pub fn toggle_locked(&mut self) -> (res: bool)
        ensures
            final(self)@ == (MemoView { locked: !old(self)@.locked, ..old(self)@ }),
            res == final(self)@.locked,
    {
        self.locked = !self.locked;
        self.locked
    }

    /// The checks made before a file is read, giving the file's directory and
    /// name when they pass.
    fn precheck_load(&self, fullpath: &String, ignore_fsize: bool, overwrite: bool, stat: &FileStat) -> (res: Result<(String, String), MemoError>)
        ensures
            match res {
                Ok((dir, name)) => load_precheck(self@, fullpath@, ignore_fsize, overwrite, *stat)
                    is Ok && path::path_parent(fullpath@) == Some(dir@) && path::path_file_name(
                    fullpath@,
                ) == Some(name@),
                Err(e) => load_precheck(self@, fullpath@, ignore_fsize, overwrite, *stat) == Err::<
                    (),
                    MemoError,
                >(e),
            },
            res is Ok ==> fullpath@.len() > 0,
    {
        if !overwrite && (self.unsaved || !self.fullpath.as_str().is_empty()) {
            return Err(MemoError::LeaveMemo);
        }
        if !stat.is_file {
            return Err(MemoError::NoEntry);
        }
        let dir = match parent_of(fullpath.as_str()) {
            Some(dir) => dir,
            None => {
                return Err(MemoError::NoEntry);
            },
        };
        let name = match file_name_of(fullpath.as_str()) {
            Some(name) => name,
            None => {
                return Err(MemoError::NoEntry);
            },
        };
        match stat.size {
            Some(size) => {
                if !ignore_fsize && size > FILE_WARNING_SIZE {
                    return Err(MemoError::LargeFile);
                }
            },
            None => {
                return Err(MemoError::Error);
            },
        }
        Ok((dir, name))
    }

    /// Whether a file at `fullpath` with the given status may be read into
    /// the page; a caller reads the file only when this passes.
    pub fn check_load(&self, fullpath: &String, ignore_fsize: bool, overwrite: bool, stat: &FileStat) -> (res: Result<(), MemoError>)
        ensures
            res == load_precheck(self@, fullpath@, ignore_fsize, overwrite, *stat),
    {
        match self.precheck_load(fullpath, ignore_fsize, overwrite, stat) {
            Ok(_) => Ok(()),
            Err(e) => Err(e),
        }
    }

    /// Reads a file into the page. `stat` is what the file system said of
    /// `fullpath`, and `content` the outcome of reading the file (which only
    /// matters when the checks pass). On success the page is cleared and then
    /// holds the file, in the requested encoding, the guessed one or the
    /// page's one; the text is decoded with malformed sequences replaced. On
    /// failure the page is unchanged.
    pub fn load(&mut self, fullpath: String, ignore_fsize: bool, overwrite: bool, encoding: Option<EncType>, stat: &FileStat, content: Result<Vec<u8>, FileFailure>) -> (res: Result<LoadedMemo, MemoError>)
        requires
            content matches Ok(bytes) ==> loadable_content(bytes@),
        ensures
            (loaded_view(res), final(self)@) == load_outcome(
                old(self)@,
                fullpath@,
                ignore_fsize,
                overwrite,
                encoding,
                *stat,
                content_view(content),
            ),
            res is Ok ==> fullpath@.len() > 0,
            content matches Ok(bytes) ==> (res matches Ok(lm) ==> (load_encoding(
                old(self)@,
                encoding,
                bytes@,
            ) is Utf8 && encoding::is_plain_utf8(bytes@) ==> lm.text@ == encoding::plain_utf8_text(
                bytes@,
            ))),
            content matches Ok(bytes) ==> (res matches Ok(lm) ==> (encoding::is_ascii_bytes(bytes@)
                ==> lm.text@ == encoding::ascii_chars(bytes@))),
    {
        let (dir, name) = match self.precheck_load(&fullpath, ignore_fsize, overwrite, stat) {
            Ok(found) => found,
            Err(e) => {
                return Err(e);
            },
        };
        let bytes = match content {
            Ok(bytes) => bytes,
            Err(FileFailure::Open(IoErrorKind::NotFound)) => {
                return Err(MemoError::NoEntry);
            },
            Err(FileFailure::Open(IoErrorKind::PermissionDenied)) => {
                return Err(MemoError::Permission);
            },
            Err(_) => {
                return Err(MemoError::Error);
            },
        };
        let from = match encoding {
            Some(enc) => enc,
            None => if self.auto_encoding {
                match EncodingConverter::detect(bytes.as_slice()) {
                    Some(enc) => enc,
                    None => self.default_encoding,
                }
            } else {
                self.encoding
            },
        };
        let text = match EncodingConverter::decode(bytes.as_slice(), from, true) {
            Ok(text) => text,
            Err(_) => {
                return Err(MemoError::Decode);
            },
        };
        self.clear();
        self.set_external_file(fullpath, dir, name.clone());
        self.set_encoding(from);
        Ok(LoadedMemo { text, filename: name })
    }

    /// Makes the page hold the loaded file at `fullpath`, whose directory
    /// and name are `dir` and `name`.
    fn set_external_file(&mut self, fullpath: String, dir: String, name: String)
        ensures
            final(self)@ == (MemoView {
                is_external_file: true,
                save_dir: dir@,
                filename: name@,
                fullpath: fullpath@,
                ..old(self)@
            }),
    {
        self.is_external_file = true;
        self.save_dir = dir;
        self.filename = name;
        self.fullpath = fullpath;
    }

    /// Whether the file name holds characters that are not allowed: sanitizing
    /// it would change it.
    fn check_filename(filename: &String) -> (res: bool)
        ensures
            res == is_invalid_file_name(filename@),
    {
        let sanitized = sanitize(filename.as_str());
        !(*filename == sanitized)
    }

    /// The name a file is saved under: ".txt" is added for created files.
    fn add_extension(&self, filename: &String) -> (res: String)
        ensures
            res@ == with_extension(self@.is_external_file, filename@),
    {
        if !self.is_external_file {
            filename.clone().concat(".txt")
        } else {
            filename.clone()
        }
    }

    /// Works out how a save of `text` under `filename` is to be done, or the
    /// error that stops it before anything is written. `dir_exists` tells
    /// whether the page's save directory exists. The page is not changed.
    pub fn plan_save(&self, filename: &String, text: &String, overwrite: bool, dir_exists: bool) -> (res: Result<SavePlan, MemoError>)
        requires
            savable_text(text@),
        ensures
            match res {
                Ok(plan) => save_plan(self@, filename@, text@, overwrite, dir_exists) == Ok::<
                    SavePlanView,
                    MemoError,
                >(plan@),
                Err(e) => save_plan(self@, filename@, text@, overwrite, dir_exists) == Err::<
                    SavePlanView,
                    MemoError,
                >(e),
            },
            res matches Ok(plan) ==> plan.savepath@.len() > 0,
            res matches Ok(plan) ==> (plan.savepath@ == self@.fullpath ==> plan.overwrite),
            res matches Ok(plan) ==> ((plan.encoding is Utf8 || is_ascii_chars(text@))
                ==> plan.bytes@ == encode_utf8(text@)),
    {
        if filename.as_str().is_empty() {
            return Err(MemoError::NoFileName);
        }
        if !dir_exists {
            return Err(MemoError::NoDirectory);
        }
        if Self::check_filename(filename) {
            return Err(MemoError::InvalidFileName);
        }
        let mut is_external_file = self.is_external_file;
        let filename_with_ext = self.add_extension(filename);
        let mut savepath = join_path(self.save_dir.as_str(), filename_with_ext.as_str());
        if is_external_file && !paths_equal(savepath.as_str(), self.fullpath.as_str()) {
            is_external_file = false;
            let renamed = filename.clone().concat(".txt");
            savepath = join_path(self.default_save_path.as_str(), renamed.as_str());
        }
        let same_path = paths_equal(savepath.as_str(), self.fullpath.as_str());
        let overwrite_mode = is_external_file || overwrite || same_path;
        let enc = if !self.is_external_file && !same_path {
            self.default_encoding
        } else {
            self.encoding
        };
        let bytes = match EncodingConverter::convert(text.as_str(), enc) {
            Ok(bytes) => bytes,
            Err(_) => {
                return Err(MemoError::Error);
            },
        };
        Ok(SavePlan { savepath, overwrite: overwrite_mode, bytes, is_external_file, encoding: enc })
    }

    /// Records the outcome of carrying out a save plan. When the bytes were
    /// written the page belongs to the plan's path and has nothing unsaved;
    /// when not, the page is unchanged and the failure is reported.
    pub fn apply_save(&mut self, plan: &SavePlan, written: Result<(), FileFailure>) -> (res: Result<(), MemoError>)
        requires
            written is Ok ==> old(self)@.save_count < u32::MAX,
        ensures
            match written {
                Ok(_) => res == Ok::<(), MemoError>(()) && final(self)@ == saved(old(self)@, plan@),
                Err(f) => res == Err::<(), MemoError>(write_failure_error(f)) && final(self)@
                    == old(self)@,
            },
    {
        match written {
            Ok(_) => {},
            Err(FileFailure::Open(IoErrorKind::NotFound)) => {
                return Err(MemoError::NoEntry);
            },
            Err(FileFailure::Open(IoErrorKind::AlreadyExists)) => {
                return Err(MemoError::FileExist);
            },
            Err(FileFailure::Open(IoErrorKind::PermissionDenied)) => {
                return Err(MemoError::Permission);
            },
            Err(_) => {
                return Err(MemoError::Error);
            },
        }
        self.is_external_file = plan.is_external_file;
        self.encoding = plan.encoding;
        if !paths_equal(plan.savepath.as_str(), self.fullpath.as_str()) {
            self.set_new_file();
        }
        self.fullpath = plan.savepath.clone();
        self.save_count = self.save_count + 1;
        self.unsaved = false;
        Ok(())
    }

    /// Saves `text` under `filename`. `dir_exists` tells whether the page's
    /// save directory exists, and `written` is the outcome of carrying out the
    /// plan that `plan_save` gives for the same arguments (it only matters
    /// when there is such a plan).
    pub fn save(&mut self, filename: String, text: &String, overwrite: bool, dir_exists: bool, written: Result<(), FileFailure>) -> (res: Result<(), MemoError>)
        requires
            savable_text(text@),
            written is Ok ==> old(self)@.save_count < u32::MAX,
        ensures
            (res, final(self)@) == save_outcome(
                old(self)@,
                filename@,
                text@,
                overwrite,
                dir_exists,
                written,
            ),
    {
        let plan = match self.plan_save(&filename, text, overwrite, dir_exists) {
            Ok(plan) => plan,
            Err(e) => {
                return Err(e);
            },
        };
        self.apply_save(&plan, written)
    }

    /// Forgets the page's content: back to the defaults, with no file.
    pub fn clear(&mut self)
        ensures
            final(self)@ == cleared(old(self)@),
    {
        self.save_dir = self.default_save_path.clone();
        self.encoding = self.default_encoding;
        self.is_external_file = false;
        self.save_count = 0;
        self.fullpath = String::new();
        self.unsaved = false;
    }

    /// Makes the page a created one in the default directory with no saves.
    fn set_new_file(&mut self)
        ensures
            final(self)@ == (MemoView {
                save_dir: old(self)@.default_save_path,
                is_external_file: false,
                save_count: 0,
                ..old(self)@
            }),
    {
        self.save_dir = self.default_save_path.clone();
        self.is_external_file = false;
        self.save_count = 0;
    }

    /// Sets the default save directory; a created page moves there too.
    pub fn set_default_savepath(&mut self, dir: String)
        ensures
            final(self)@ == (MemoView {
                default_save_path: dir@,
                save_dir: if old(self)@.is_external_file {
                    old(self)@.save_dir
                } else {
                    dir@
                },
                ..old(self)@
            }),
    {
        self.default_save_path = dir.clone();
        if !self.is_external_file {
            self.save_dir = dir;
        }
    }

    /// Sets the default encoding; a created page that was never saved takes
    /// it too.
    pub fn set_default_encoding(&mut self, enc: EncType)
        ensures
            final(self)@ == (MemoView {
                default_encoding: enc,
                encoding: if !old(self)@.is_external_file && old(self)@.save_count == 0 {
                    enc
                } else {
                    old(self)@.encoding
                },
                ..old(self)@
            }),
    {
        self.default_encoding = enc;
        if !self.is_external_file && self.save_count == 0 {
            self.encoding = self.default_encoding;
        }
    }

    /// Sets the page's encoding.
    pub fn set_encoding(&mut self, enc: EncType)
        ensures
            final(self)@ == (MemoView { encoding: enc, ..old(self)@ }),
    {
        self.encoding = enc;
    }

    /// Turns guessing of the encoding of loaded files on or off.
    pub fn set_auto_encoding(&mut self, auto_encoding: bool)
        ensures
            final(self)@ == (MemoView { auto_encoding, ..old(self)@ }),
    {
        self.auto_encoding = auto_encoding;
    }
}

} // verus!
