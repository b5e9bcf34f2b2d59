use vstd::prelude::*;
use crate::encoding::EncType;
use crate::error::{FileFailure, IoErrorKind, MemoError};

verus! {

/// The settings shared by all pages.
#[derive(Debug)]
pub struct MemoSetting {
    pub version: u32,
    pub savepath: String,
    pub fontsize: u32,
    pub font: String,
    pub top_most: bool,
    pub encoding: EncType,
    pub auto_encoding: bool,
    pub file_size_warning_th: u64,
    pub load_last_file: bool,
    pub no_close_dialog: bool,
    pub auto_save: bool,
    pub auto_save_span: u32,
    pub auto_lock: bool,
}

/// The settings as the contracts speak of them.
#[verifier::ext_equal]
pub struct SettingView {
    pub version: u32,
    pub savepath: Seq<char>,
    pub fontsize: u32,
    pub font: Seq<char>,
    pub top_most: bool,
    pub encoding: EncType,
    pub auto_encoding: bool,
    pub file_size_warning_th: u64,
    pub load_last_file: bool,
    pub no_close_dialog: bool,
    pub auto_save: bool,
    pub auto_save_span: u32,
    pub auto_lock: bool,
}

impl View for MemoSetting {
    type V = SettingView;

    open spec fn view(&self) -> SettingView {
        SettingView {
            version: self.version,
            savepath: self.savepath@,
            fontsize: self.fontsize,
            font: self.font@,
            top_most: self.top_most,
            encoding: self.encoding,
            auto_encoding: self.auto_encoding,
            file_size_warning_th: self.file_size_warning_th,
            load_last_file: self.load_last_file,
            no_close_dialog: self.no_close_dialog,
            auto_save: self.auto_save,
            auto_save_span: self.auto_save_span,
            auto_lock: self.auto_lock,
        }
    }
}

/// Where loaded settings come from: settings read and parsed from the file,
/// a file whose content is not valid settings, or a file that could not be
/// opened.
pub enum SettingSource {
    Parsed(MemoSetting),
    Malformed,
    OpenFailed(IoErrorKind),
}

/// The version of the settings layout.
pub const SETTING_VERSION: u32 = 1u32;

/// The default settings.
pub open spec fn default_setting() -> SettingView {
    SettingView {
        version: SETTING_VERSION,
        savepath: "./"@,
        fontsize: 16,
        font: "Yu Gothic UI"@,
        top_most: true,
        encoding: EncType::Utf8,
        auto_encoding: true,
        file_size_warning_th: 1048576,
        load_last_file: false,
        no_close_dialog: false,
        auto_save: false,
        auto_save_span: 5,
        auto_lock: false,
    }
}

/// Settings are valid when the font size is between 1 and 100.
pub open spec fn setting_is_valid(s: SettingView) -> bool {
    1 <= s.fontsize <= 100
}

/// The outcome of loading settings from a source.
pub open spec fn setting_load_result(source: SettingSource) -> Result<(), MemoError> {
    match source {
        SettingSource::Parsed(_) => Ok(()),
        SettingSource::Malformed => Err(MemoError::Param),
        SettingSource::OpenFailed(IoErrorKind::NotFound) => Err(MemoError::NoEntry),
        SettingSource::OpenFailed(IoErrorKind::PermissionDenied) => Err(MemoError::Permission),
        SettingSource::OpenFailed(_) => Err(MemoError::Error),
    }
}

/// The outcome of saving settings: whether they could be serialized, then
/// how writing them went.
pub open spec fn setting_save_result(serialized: bool, written: Result<(), FileFailure>) -> Result<(), MemoError> {
    if !serialized {
        Err(MemoError::Error)
    } else {
        match written {
            Ok(_) => Ok(()),
            Err(FileFailure::Open(IoErrorKind::PermissionDenied)) => Err(MemoError::Permission),
            Err(_) => Err(MemoError::Error),
        }
    }
}

impl Clone for MemoSetting {
    fn clone(&self) -> (res: Self)
        ensures
            res@ == self@,
    {
        MemoSetting {
            version: self.version,
            savepath: self.savepath.clone(),
            fontsize: self.fontsize,
            font: self.font.clone(),
            top_most: self.top_most,
            encoding: self.encoding,
            auto_encoding: self.auto_encoding,
            file_size_warning_th: self.file_size_warning_th,
            load_last_file: self.load_last_file,
            no_close_dialog: self.no_close_dialog,
            auto_save: self.auto_save,
            auto_save_span: self.auto_save_span,
            auto_lock: self.auto_lock,
        }
    }
}

impl MemoSetting {
    /// The default settings.
    pub fn new() -> (res: Self)
        ensures
            res@ == default_setting(),
    {
        let res = MemoSetting {
            version: SETTING_VERSION,
            savepath: "./".to_owned(),
            fontsize: 16,
            font: "Yu Gothic UI".to_owned(),
            top_most: true,
            encoding: EncType::Utf8,
            auto_encoding: true,
            file_size_warning_th: 1048576,
            load_last_file: false,
            no_close_dialog: false,
            auto_save: false,
            auto_save_span: 5,
            auto_lock: false,
        };
        res
    }

    /// Takes the settings loaded from `source`: parsed settings replace these
    /// ones; otherwise these stay and the failure is reported.
    pub fn load(&mut self, source: SettingSource) -> (res: Result<(), MemoError>)
        ensures
            res == setting_load_result(source),
            match source {
                SettingSource::Parsed(s) => final(self)@ == s@,
                _ => final(self)@ == old(self)@,
            },
    {
        match source {
            SettingSource::Parsed(setting) => {
                *self = setting;
                Ok(())
            },
            SettingSource::Malformed => Err(MemoError::Param),
            SettingSource::OpenFailed(IoErrorKind::NotFound) => Err(MemoError::NoEntry),
            SettingSource::OpenFailed(IoErrorKind::PermissionDenied) => Err(MemoError::Permission),
            SettingSource::OpenFailed(_) => Err(MemoError::Error),
        }
    }

    /// Reports the outcome of saving these settings: `serialized` tells
    /// whether they could be serialized, `written` how writing the serialized
    /// form to the settings file went.
    pub fn save(&self, serialized: bool, written: Result<(), FileFailure>) -> (res: Result<(), MemoError>)
        ensures
            res == setting_save_result(serialized, written),
    {
        if !serialized {
            return Err(MemoError::Error);
        }
        match written {
            Ok(_) => Ok(()),
            Err(FileFailure::Open(IoErrorKind::PermissionDenied)) => Err(MemoError::Permission),
            Err(_) => Err(MemoError::Error),
        }
    }

    /// Checks the settings: the font size must be between 1 and 100.
    pub fn validate(&self) -> (res: Result<(), MemoError>)
        ensures
            res is Ok <==> setting_is_valid(self@),
            res is Err ==> res == Err::<(), MemoError>(MemoError::InvalidFontSize),
    {
        if self.fontsize < 1 || self.fontsize > 100 {
            return Err(MemoError::InvalidFontSize);
        }
        Ok(())
    }
}

} // verus!
