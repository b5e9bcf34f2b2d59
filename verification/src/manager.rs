use vstd::prelude::*;
use vstd::utf8::*;
use crate::encoding;
use crate::encoding::EncType;
use crate::error::{FileFailure, MemoError};
use crate::memo;
use crate::memo::{FileStat, LoadedMemo, Memo, MemoView, SavePlan};
use crate::setting;
use crate::setting::{MemoSetting, SettingSource, SettingView};

verus! {

/// All pages of the memo pad with the shared settings and the page shown.
pub struct MemoManager {
    memo_num: u32,
    memo_setting: MemoSetting,
    memo_list: Vec<Memo>,
    page_num: usize,
}

/// The pad as the contracts speak of it.
#[verifier::ext_equal]
pub struct ManagerView {
    pub memo_num: u32,
    pub setting: SettingView,
    pub memos: Seq<MemoView>,
    pub page_num: usize,
}

impl View for MemoManager {
    type V = ManagerView;

    closed spec fn view(&self) -> ManagerView {
        ManagerView {
            memo_num: self.memo_num,
            setting: self.memo_setting@,
            memos: self.memo_list@.map_values(|m: Memo| m@),
            page_num: self.page_num,
        }
    }
}

/// A page after new shared settings were given to it: the default directory,
/// encoding and guessing switch are taken; a created page moves to the new
/// directory, and one never saved takes the new encoding.
pub open spec fn with_settings(m: MemoView, s: SettingView) -> MemoView {
    MemoView {
        default_save_path: s.savepath,
        save_dir: if m.is_external_file {
            m.save_dir
        } else {
            s.savepath
        },
        default_encoding: s.encoding,
        encoding: if !m.is_external_file && m.save_count == 0 {
            s.encoding
        } else {
            m.encoding
        },
        auto_encoding: s.auto_encoding,
        ..m
    }
}

/// Whether another page than `idx` holds a file at the path (a page with
/// an empty path holds no file).
pub open spec fn open_elsewhere(memos: Seq<MemoView>, idx: int, fullpath: Seq<char>) -> bool {
    exists|i: int|
        0 <= i < memos.len() && i != idx && #[trigger] memos[i].fullpath == fullpath
            && memos[i].fullpath.len() > 0
}

/// The pages with unsaved edits, in increasing order.
pub open spec fn unsaved_pages(memos: Seq<MemoView>) -> Seq<usize>
    decreases memos.len(),
{
    if memos.len() == 0 {
        seq![]
    } else {
        let rest = unsaved_pages(memos.drop_last());
        if memos.last().unsaved {
            rest.push((memos.len() - 1) as usize)
        } else {
            rest
        }
    }
}

impl MemoManager {
    /// The number of pages matches the length of the page list.
    pub open spec fn wf(&self) -> bool {
        self@.memos.len() == self@.memo_num
    }

    /// A pad of `memo_num` fresh pages set up from the settings, showing the
    /// first page.
    pub fn new(memo_num: u32, memo_setting: MemoSetting) -> (res: Self)
        ensures
            res.wf(),
            res@.memo_num == memo_num,
            res@.setting == memo_setting@,
            res@.page_num == 0,
            res@.memos == Seq::new(
                memo_num as nat,
                |i: int|
                    memo::new_memo(
                        memo_setting@.savepath,
                        memo_setting@.encoding,
                        memo_setting@.auto_encoding,
                    ),
            ),
    {
        let mut memo_list: Vec<Memo> = Vec::new();
        let mut i: u32 = 0;
        while i < memo_num
            invariant
                i <= memo_num,
                memo_list@.len() == i,
                forall|j: int|
                    0 <= j < i ==> #[trigger] memo_list@[j]@ == memo::new_memo(
                        memo_setting@.savepath,
                        memo_setting@.encoding,
                        memo_setting@.auto_encoding,
                    ),
            decreases memo_num - i,
        {
            memo_list.push(
                Memo::new(
                    memo_setting.savepath.clone(),
                    memo_setting.encoding,
                    memo_setting.auto_encoding,
                ),
            );
            i = i + 1;
        }
        let res = MemoManager { memo_num, memo_setting, memo_list, page_num: 0 };
        assert(res@.memos =~= Seq::new(
            memo_num as nat,
            |i: int|
                memo::new_memo(
                    res@.setting.savepath,
                    res@.setting.encoding,
                    res@.setting.auto_encoding,
                ),
        ));
        res
    }

    /// The page shown.
    pub fn page_num(&self) -> (res: usize)
        ensures
            res == self@.page_num,
    {
        self.page_num
    }

    /// The number of pages.
    pub fn memo_num(&self) -> (res: u32)
        ensures
            res == self@.memo_num,
    {
        self.memo_num
    }

    /// The shared settings.
    pub fn setting(&self) -> (res: &MemoSetting)
        ensures
            res@ == self@.setting,
    {
        &self.memo_setting
    }

    /// Saves page `idx` (see `Memo::save`); the other pages stay as they are.
    pub fn save(&mut self, idx: usize, filename: String, text: &String, overwrite: bool, dir_exists: bool, written: Result<(), FileFailure>) -> (res: Result<(), MemoError>)
        requires
            old(self).wf(),
            idx < old(self)@.memo_num,
            memo::savable_text(text@),
            written is Ok ==> old(self)@.memos[idx as int].save_count < u32::MAX,
        ensures
            final(self).wf(),
            (res, final(self)@.memos[idx as int]) == memo::save_outcome(
                old(self)@.memos[idx as int],
                filename@,
                text@,
                overwrite,
                dir_exists,
                written,
            ),
            final(self)@ == (ManagerView {
                memos: old(self)@.memos.update(idx as int, final(self)@.memos[idx as int]),
                ..old(self)@
            }),
    {
        let ghost before = self.memo_list@;
        let res = self.memo_list[idx].save(filename, text, overwrite, dir_exists, written);
        proof {
            assert(self.memo_list@ == before.update(idx as int, self.memo_list@[idx as int]));
            assert(self@.memos =~= old(self)@.memos.update(idx as int, self@.memos[idx as int]));
        }
        res
    }

    /// The save plan for page `idx` (see `Memo::plan_save`).
    pub fn plan_save(&self, idx: usize, filename: &String, text: &String, overwrite: bool, dir_exists: bool) -> (res: Result<SavePlan, MemoError>)
        requires
            self.wf(),
            idx < self@.memo_num,
            memo::savable_text(text@),
        ensures
            match res {
                Ok(plan) => memo::save_plan(self@.memos[idx as int], filename@, text@, overwrite, dir_exists)
                    == Ok::<memo::SavePlanView, MemoError>(plan@),
                Err(e) => memo::save_plan(self@.memos[idx as int], filename@, text@, overwrite, dir_exists)
                    == Err::<memo::SavePlanView, MemoError>(e),
            },
            res matches Ok(plan) ==> plan.savepath@.len() > 0,
            res matches Ok(plan) ==> (plan.savepath@ == self@.memos[idx as int].fullpath
                ==> plan.overwrite),
            res matches Ok(plan) ==> ((plan.encoding is Utf8 || is_ascii_chars(text@))
                ==> plan.bytes@ == encode_utf8(text@)),
    {
        self.memo_list[idx].plan_save(filename, text, overwrite, dir_exists)
    }

    /// Whether a file may be read into page `idx`: no other page holds a
    /// file at the path, and the page's own checks pass (see `Memo::check_load`).
    pub fn check_load(&self, idx: usize, fullpath: &String, ignore_fsize: bool, overwrite: bool, stat: &FileStat) -> (res: Result<(), MemoError>)
        requires
            self.wf(),
            idx < self@.memo_num,
        ensures
            res == if open_elsewhere(self@.memos, idx as int, fullpath@) {
                Err(MemoError::AlreadyOpen)
            } else {
                memo::load_precheck(self@.memos[idx as int], fullpath@, ignore_fsize, overwrite, *stat)
            },
    {
        if self.open_on_other_page(idx, fullpath) {
            return Err(MemoError::AlreadyOpen);
        }
        self.memo_list[idx].check_load(fullpath, ignore_fsize, overwrite, stat)
    }

    /// Whether a page other than `idx` holds a file at the path.
    fn open_on_other_page(&self, idx: usize, fullpath: &String) -> (res: bool)
        requires
            self.wf(),
            idx < self@.memo_num,
        ensures
            res == open_elsewhere(self@.memos, idx as int, fullpath@),
    {
        let mut i: u32 = 0;
        while i < self.memo_num
            invariant
                self.wf(),
                idx < self@.memo_num,
                i <= self.memo_num,
                forall|j: int|
                    0 <= j < i && j != idx && #[trigger] self@.memos[j].fullpath.len() > 0
                        ==> self@.memos[j].fullpath != fullpath@,
            decreases self.memo_num - i,
        {
            let held = self.memo_list[i as usize].fullpath();
            if i as usize != idx && !held.as_str().is_empty() {
                if *held == *fullpath {
                    assert(self@.memos[i as int].fullpath == fullpath@);
                    return true;
                }
            }
            i = i + 1;
        }
        false
    }

    /// Reads a file into page `idx`: refused with `AlreadyOpen` when another
    /// page holds a file at the path, else as `Memo::load` on that page. The
    /// other pages stay as they are.
    pub fn load(&mut self, idx: usize, fullpath: String, ignore_fsize: bool, overwrite: bool, encoding: Option<EncType>, stat: &FileStat, content: Result<Vec<u8>, FileFailure>) -> (res: Result<LoadedMemo, MemoError>)
        requires
            old(self).wf(),
            idx < old(self)@.memo_num,
            content matches Ok(bytes) ==> memo::loadable_content(bytes@),
        ensures
            final(self).wf(),
            open_elsewhere(old(self)@.memos, idx as int, fullpath@) ==> res == Err::<
                LoadedMemo,
                MemoError,
            >(MemoError::AlreadyOpen) && final(self)@ == old(self)@,
            !open_elsewhere(old(self)@.memos, idx as int, fullpath@) ==> (memo::loaded_view(res), final(self)@.memos[idx as int]) == memo::load_outcome(
                old(self)@.memos[idx as int],
                fullpath@,
                ignore_fsize,
                overwrite,
                encoding,
                *stat,
                memo::content_view(content),
            ),
            final(self)@ == (ManagerView {
                memos: old(self)@.memos.update(idx as int, final(self)@.memos[idx as int]),
                ..old(self)@
            }),
            res is Ok ==> fullpath@.len() > 0,
            content matches Ok(bytes) ==> (res matches Ok(lm) ==> (memo::load_encoding(
                old(self)@.memos[idx as int],
                encoding,
                bytes@,
            ) is Utf8 && encoding::is_plain_utf8(bytes@) ==> lm.text@ == encoding::plain_utf8_text(
                bytes@,
            ))),
            content matches Ok(bytes) ==> (res matches Ok(lm) ==> (encoding::is_ascii_bytes(bytes@)
                ==> lm.text@ == encoding::ascii_chars(bytes@))),
    {
        if self.open_on_other_page(idx, &fullpath) {
            assert(self@.memos =~= old(self)@.memos.update(idx as int, self@.memos[idx as int]));
            return Err(MemoError::AlreadyOpen);
        }
        let ghost before = self.memo_list@;
        let res = self.memo_list[idx].load(fullpath, ignore_fsize, overwrite, encoding, stat, content);
        proof {
            assert(self.memo_list@ == before.update(idx as int, self.memo_list@[idx as int]));
            assert(self@.memos =~= old(self)@.memos.update(idx as int, self@.memos[idx as int]));
        }
        res
    }

    /// The path the shown page is reloaded from: only a page holding a
    /// loaded file can be reloaded (otherwise `Error`).
    pub fn reload_target(&self) -> (res: Result<String, MemoError>)
        requires
            self.wf(),
            self@.page_num < self@.memo_num,
        ensures
            self@.memos[self@.page_num as int].is_external_file ==> (res matches Ok(path) && path@
                == self@.memos[self@.page_num as int].fullpath),
            !self@.memos[self@.page_num as int].is_external_file ==> res == Err::<String, MemoError>(
                MemoError::Error,
            ),
    {
        let memo = &self.memo_list[self.page_num];
        if !memo.is_external_file() {
            return Err(MemoError::Error);
        }
        Ok(memo.fullpath().clone())
    }

    /// Reads the shown page's loaded file again in `new_encoding`. A page
    /// that holds no loaded file is refused with `Error` and nothing changes;
    /// otherwise this is a load of the page's path with the size warning
    /// waived, replacing the page's content, in the given encoding. `stat` and
    /// `content` are what the file system says of that path and gives for it.
    pub fn reload_encoding(&mut self, new_encoding: EncType, stat: &FileStat, content: Result<Vec<u8>, FileFailure>) -> (res: Result<LoadedMemo, MemoError>)
        requires
            old(self).wf(),
            old(self)@.page_num < old(self)@.memo_num,
            content matches Ok(bytes) ==> memo::loadable_content(bytes@),
        ensures
            final(self).wf(),
            ({
                let idx = old(self)@.page_num as int;
                let m = old(self)@.memos[idx];
                if !m.is_external_file {
                    res == Err::<LoadedMemo, MemoError>(MemoError::Error) && final(self)@ == old(self)@
                } else if open_elsewhere(old(self)@.memos, idx, m.fullpath) {
                    res == Err::<LoadedMemo, MemoError>(MemoError::AlreadyOpen) && final(self)@
                        == old(self)@
                } else {
                    &&& (memo::loaded_view(res), final(self)@.memos[idx]) == memo::load_outcome(
                        m,
                        m.fullpath,
                        true,
                        true,
                        Some(new_encoding),
                        *stat,
                        memo::content_view(content),
                    )
                    &&& final(self)@ == (ManagerView {
                        memos: old(self)@.memos.update(idx, final(self)@.memos[idx]),
                        ..old(self)@
                    })
                }
            }),
    {
        let page_num = self.page_num;
        let fullpath = match self.reload_target() {
            Ok(path) => path,
            Err(e) => {
                return Err(e);
            },
        };
        self.load(page_num, fullpath, true, true, Some(new_encoding), stat, content)
    }

    /// Marks page `idx` as edited.
    pub fn set_unsaved(&mut self, idx: usize)
        requires
            old(self).wf(),
            idx < old(self)@.memo_num,
        ensures
            final(self).wf(),
            final(self)@ == (ManagerView {
                memos: old(self)@.memos.update(
                    idx as int,
                    MemoView { unsaved: true, ..old(self)@.memos[idx as int] },
                ),
                ..old(self)@
            }),
    {
        let ghost before = self.memo_list@;
        self.memo_list[idx].set_unsaved();
        proof {
            assert(self.memo_list@ == before.update(idx as int, self.memo_list@[idx as int]));
            assert(self@.memos =~= old(self)@.memos.update(
                idx as int,
                MemoView { unsaved: true, ..old(self)@.memos[idx as int] },
            ));
        }
    }

    /// The pages with unsaved edits, in increasing order.
    pub fn get_unsaved_list(&self) -> (res: Vec<usize>)
        requires
            self.wf(),
        ensures
            res@ == unsaved_pages(self@.memos),
    {
        let mut list: Vec<usize> = Vec::new();
        let mut i: u32 = 0;
        while i < self.memo_num
            invariant
                self.wf(),
                i <= self.memo_num,
                list@ == unsaved_pages(self@.memos.take(i as int)),
            decreases self.memo_num - i,
        {
            assert(self@.memos.take(i + 1).drop_last() =~= self@.memos.take(i as int));
            if self.memo_list[i as usize].is_unsaved() {
                list.push(i as usize);
            }
            i = i + 1;
        }
        assert(self@.memos.take(self.memo_num as int) =~= self@.memos);
        list
    }

    /// Shows page `idx`.
    pub fn set_page_num(&mut self, idx: usize)
        ensures
            final(self)@ == (ManagerView { page_num: idx, ..old(self)@ }),
    {
        self.page_num = idx;
    }

    /// Sets the font size in the shared settings.
    pub fn set_font_size(&mut self, fontsize: u32)
        ensures
            final(self)@ == (ManagerView {
                setting: SettingView { fontsize, ..old(self)@.setting },
                ..old(self)@
            }),
    {
        self.memo_setting.fontsize = fontsize;
    }

    /// Flips whether the window stays on top and returns the new state.
    pub fn toggle_top_most(&mut self) -> (res: bool)
        ensures
            final(self)@ == (ManagerView {
                setting: SettingView { top_most: !old(self)@.setting.top_most, ..old(self)@.setting },
                ..old(self)@
            }),
            res == final(self)@.setting.top_most,
    {
        self.memo_setting.top_most = !self.memo_setting.top_most;
        self.memo_setting.top_most
    }

    /// Flips the lock of page `idx` and returns its new state.
    pub fn toggle_lock_status(&mut self, idx: usize) -> (res: bool)
        requires
            old(self).wf(),
            idx < old(self)@.memo_num,
        ensures
            final(self).wf(),
            final(self)@ == (ManagerView {
                memos: old(self)@.memos.update(
                    idx as int,
                    MemoView { locked: !old(self)@.memos[idx as int].locked, ..old(self)@.memos[idx as int] },
                ),
                ..old(self)@
            }),
            res == final(self)@.memos[idx as int].locked,
    {
        let ghost before = self.memo_list@;
        let res = self.memo_list[idx].toggle_locked();
        proof {
            assert(self.memo_list@ == before.update(idx as int, self.memo_list@[idx as int]));
            assert(self@.memos =~= old(self)@.memos.update(
                idx as int,
                MemoView { locked: !old(self)@.memos[idx as int].locked, ..old(self)@.memos[idx as int] },
            ));
        }
        res
    }

    /// Clears page `idx` (see `Memo::clear`).
    pub fn clear_memo(&mut self, idx: usize)
        requires
            old(self).wf(),
            idx < old(self)@.memo_num,
        ensures
            final(self).wf(),
            final(self)@ == (ManagerView {
                memos: old(self)@.memos.update(idx as int, memo::cleared(old(self)@.memos[idx as int])),
                ..old(self)@
            }),
    {
        let ghost before = self.memo_list@;
        self.memo_list[idx].clear();
        proof {
            assert(self.memo_list@ == before.update(idx as int, self.memo_list@[idx as int]));
            assert(self@.memos =~= old(self)@.memos.update(
                idx as int,
                memo::cleared(old(self)@.memos[idx as int]),
            ));
        }
    }

    /// The lock state of every page.
    pub fn get_lock_status(&self) -> (res: Vec<bool>)
        requires
            self.wf(),
        ensures
            res@ == self@.memos.map_values(|m: MemoView| m.locked),
    {
        let mut list: Vec<bool> = Vec::new();
        let mut i: u32 = 0;
        while i < self.memo_num
            invariant
                self.wf(),
                i <= self.memo_num,
                list@ == self@.memos.take(i as int).map_values(|m: MemoView| m.locked),
            decreases self.memo_num - i,
        {
            list.push(self.memo_list[i as usize].is_locked());
            i = i + 1;
            assert(list@ =~= self@.memos.take(i as int).map_values(|m: MemoView| m.locked));
        }
        assert(self@.memos.take(self.memo_num as int) =~= self@.memos);
        list
    }

    /// A copy of the shared settings.
    pub fn get_global_setting(&self) -> (res: MemoSetting)
        ensures
            res@ == self@.setting,
    {
        self.memo_setting.clone()
    }

    /// Takes new shared settings when they are valid and passes them on to
    /// every page; invalid settings are refused and nothing changes.
    pub fn set_global_setting(&mut self, setting: &MemoSetting) -> (res: Result<(), MemoError>)
        requires
            old(self).wf(),
        ensures
            final(self).wf(),
            res is Ok <==> setting::setting_is_valid(setting@),
            res is Ok ==> final(self)@ == (ManagerView {
                setting: setting@,
                memos: Seq::new(
                    old(self)@.memo_num as nat,
                    |i: int| with_settings(old(self)@.memos[i], setting@),
                ),
                ..old(self)@
            }),
            res is Err ==> res == Err::<(), MemoError>(MemoError::InvalidFontSize) && final(self)@
                == old(self)@,
    {
        let ret = setting.validate();
        if ret.is_err() {
            return ret;
        }
        self.memo_setting = setting.clone();
        let mut i: u32 = 0;
        while i < self.memo_num
            invariant
                self.memo_list@.len() == self.memo_num,
                self.memo_num == old(self)@.memo_num,
                self.page_num == old(self)@.page_num,
                self.memo_setting@ == setting@,
                i <= self.memo_num,
                forall|j: int|
                    0 <= j < i ==> #[trigger] self.memo_list@[j]@ == with_settings(
                        old(self)@.memos[j],
                        setting@,
                    ),
                forall|j: int| i <= j < self.memo_num ==> #[trigger] self.memo_list@[j]@ == old(self)@.memos[j],
            decreases self.memo_num - i,
        {
            let idx = i as usize;
            let savepath = self.memo_setting.savepath.clone();
            self.memo_list[idx].set_default_savepath(savepath);
            let enc = self.memo_setting.encoding;
            self.memo_list[idx].set_default_encoding(enc);
            let auto = self.memo_setting.auto_encoding;
            self.memo_list[idx].set_auto_encoding(auto);
            i = i + 1;
        }
        assert(self@.memos =~= Seq::new(
            old(self)@.memo_num as nat,
            |i: int| with_settings(old(self)@.memos[i], setting@),
        ));
        Ok(())
    }

    /// Loads the shared settings from `source` and passes them on to every
    /// page. A source that gives no settings is an `Error` and changes
    /// nothing; loaded settings are kept, but passed on only when valid
    /// (invalid ones give `InvalidFontSize`).
    pub fn load_setting(&mut self, source: SettingSource) -> (res: Result<(), MemoError>)
        requires
            old(self).wf(),
        ensures
            final(self).wf(),
            match source {
                SettingSource::Parsed(s) => if setting::setting_is_valid(s@) {
                    res is Ok && final(self)@ == (ManagerView {
                        setting: s@,
                        memos: Seq::new(
                            old(self)@.memo_num as nat,
                            |i: int| with_settings(old(self)@.memos[i], s@),
                        ),
                        ..old(self)@
                    })
                } else {
                    res == Err::<(), MemoError>(MemoError::InvalidFontSize) && final(self)@ == (
                    ManagerView { setting: s@, ..old(self)@ })
                },
                _ => res == Err::<(), MemoError>(MemoError::Error) && final(self)@ == old(self)@,
            },
    {
        match self.memo_setting.load(source) {
            Ok(_) => {
                let loaded = self.memo_setting.clone();
                self.set_global_setting(&loaded)
            },
            Err(_) => Err(MemoError::Error),
        }
    }

    /// Reports the outcome of saving the shared settings (see
    /// `MemoSetting::save`).
    pub fn save_setting(&self, serialized: bool, written: Result<(), FileFailure>) -> (res: Result<(), MemoError>)
        ensures
            res == setting::setting_save_result(serialized, written),
    {
        self.memo_setting.save(serialized, written)
    }

    /// Page `idx`.
    pub fn get_memo(&self, idx: usize) -> (res: &Memo)
        requires
            self.wf(),
            idx < self@.memo_num,
        ensures
            res@ == self@.memos[idx as int],
    {
        &self.memo_list[idx]
    }

    /// Page `idx`, to be changed in place; the other pages stay as they are.
    pub fn get_memo_mut(&mut self, idx: usize) -> (res: &mut Memo)
        requires
            old(self).wf(),
            idx < old(self)@.memo_num,
        ensures
            res@ == old(self)@.memos[idx as int],
            final(self).wf(),
            final(self)@ == (ManagerView {
                memos: old(self)@.memos.update(idx as int, final(res)@),
                ..old(self)@
            }),
    {
        &mut self.memo_list[idx]
    }
}

} // verus!
