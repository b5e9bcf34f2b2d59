use vstd::prelude::*;
use vstd::utf8::*;
use crate::encoding;
use crate::error::MemoError;
use crate::manager;
use crate::manager::ManagerView;
use crate::memo;
use crate::memo::{FileStat, MemoView};
use crate::path;

verus! {

proof fn lemma_unsaved_pages_seq(memos: Seq<MemoView>)
    requires
        memos.len() <= usize::MAX,
    ensures
        forall|i: int|
            0 <= i < manager::unsaved_pages(memos).len() ==> (#[trigger] manager::unsaved_pages(
                memos,
            )[i] as int) < memos.len() && memos[manager::unsaved_pages(memos)[i] as int].unsaved,
        forall|i: int, j: int|
            0 <= i < j < manager::unsaved_pages(memos).len() ==> #[trigger] manager::unsaved_pages(
                memos,
            )[i] < #[trigger] manager::unsaved_pages(memos)[j],
        forall|k: int|
            0 <= k < memos.len() && #[trigger] memos[k].unsaved ==> manager::unsaved_pages(
                memos,
            ).contains(k as usize),
    decreases memos.len(),
{
    if memos.len() > 0 {
        let prefix = memos.drop_last();
        lemma_unsaved_pages_seq(prefix);
        let rest = manager::unsaved_pages(prefix);
        let all = manager::unsaved_pages(memos);
        let last = (memos.len() - 1) as usize;
        assert forall|k: int| 0 <= k < memos.len() && #[trigger] memos[k].unsaved implies all.contains(
            k as usize,
        ) by {
            if k < memos.len() - 1 {
                assert(prefix[k] == memos[k]);
                assert(rest.contains(k as usize));
                let w = choose|w: int| 0 <= w < rest.len() && rest[w] == k as usize;
                assert(all[w] == rest[w]);
            } else {
                assert(all[all.len() - 1] == last);
            }
        }
        assert forall|i: int| 0 <= i < all.len() implies (#[trigger] all[i] as int) < memos.len()
            && memos[all[i] as int].unsaved by {
            if i < rest.len() {
                assert(all[i] == rest[i]);
                assert(prefix[rest[i] as int] == memos[rest[i] as int]);
            }
        }
    }
}

/// Law: the list of unsaved pages holds exactly the pages with unsaved
/// edits, each once, in increasing order.
pub proof fn lemma_unsaved_list(v: ManagerView)
    requires
        v.memos.len() == v.memo_num,
    ensures
        forall|i: int|
            0 <= i < manager::unsaved_pages(v.memos).len() ==> (#[trigger] manager::unsaved_pages(
                v.memos,
            )[i] as int) < v.memos.len() && v.memos[manager::unsaved_pages(v.memos)[i] as int].unsaved,
        forall|i: int, j: int|
            0 <= i < j < manager::unsaved_pages(v.memos).len() ==> #[trigger] manager::unsaved_pages(
                v.memos,
            )[i] < #[trigger] manager::unsaved_pages(v.memos)[j],
        forall|k: int|
            0 <= k < v.memos.len() && #[trigger] v.memos[k].unsaved ==> manager::unsaved_pages(
                v.memos,
            ).contains(k as usize),
{
    lemma_unsaved_pages_seq(v.memos);
}

/// Law: the file a page holds counts as open for every other page, so
/// loading it into another page is refused with `AlreadyOpen`.
pub proof fn lemma_open_file_refused_elsewhere(memos: Seq<MemoView>, idx: int, other: int)
    requires
        0 <= idx < memos.len(),
        memos[idx].fullpath.len() > 0,
        0 <= other < memos.len(),
        idx != other,
    ensures
        manager::open_elsewhere(memos, other, memos[idx].fullpath),
{
    assert(memos[idx].fullpath == memos[idx].fullpath && memos[idx].fullpath.len() > 0);
}

/// Law: an empty path is never open on another page, since a page with an
/// empty path holds no file.
pub proof fn lemma_empty_path_never_open(memos: Seq<MemoView>, idx: int)
    ensures
        !manager::open_elsewhere(memos, idx, Seq::empty()),
{
}

/// Law: toggling a page's lock twice gives back the page.
pub proof fn lemma_toggle_lock_twice(m: MemoView)
    ensures
        (MemoView { locked: !(MemoView { locked: !m.locked, ..m }).locked, ..m }) == m,
{
}

/// Law: a cleared page holds no memo, so a load into it is never refused
/// for a memo left on it.
pub proof fn lemma_cleared_page_accepts_load(m: MemoView, fullpath: Seq<char>, ignore_fsize: bool, overwrite: bool, stat: FileStat)
    ensures
        !memo::holds_memo(memo::cleared(m)),
        memo::load_precheck(memo::cleared(m), fullpath, ignore_fsize, overwrite, stat) != Err::<
            (),
            MemoError,
        >(MemoError::LeaveMemo),
{
}

/// Law: a page that a file was loaded into holds a memo, so loading again
/// without overwriting is refused with `LeaveMemo`, whatever the file.
pub proof fn lemma_loaded_page_keeps_memo(m: MemoView, fullpath: Seq<char>, enc: encoding::EncType, other: Seq<char>, ignore_fsize: bool, stat: FileStat)
    requires
        fullpath.len() > 0,
    ensures
        memo::holds_memo(memo::loaded(m, fullpath, enc)),
        memo::load_precheck(memo::loaded(m, fullpath, enc), other, ignore_fsize, false, stat) == Err::<
            (),
            MemoError,
        >(MemoError::LeaveMemo),
{
}

/// Law: a page that was saved holds a memo and has nothing unsaved, so
/// loading into it without overwriting is refused with `LeaveMemo`.
pub proof fn lemma_saved_page_keeps_memo(m: MemoView, plan: memo::SavePlanView, other: Seq<char>, ignore_fsize: bool, stat: FileStat)
    requires
        plan.savepath.len() > 0,
    ensures
        !memo::saved(m, plan).unsaved,
        memo::saved(m, plan).fullpath == plan.savepath,
        memo::load_precheck(memo::saved(m, plan), other, ignore_fsize, false, stat) == Err::<
            (),
            MemoError,
        >(MemoError::LeaveMemo),
{
}

/// Law: what a save writes in UTF-8 reads back as the same text when loaded
/// in UTF-8 (for text that does not start with U+FEFF): `written` are the
/// bytes of the save plan and `read_back` the text a load of them gives.
pub proof fn lemma_save_load_round_trip(text: Seq<char>, written: Seq<u8>, read_back: Seq<char>)
    requires
        text.len() == 0 || text[0] as u32 != 0xFEFFu32,
        written == encode_utf8(text),
        encoding::is_plain_utf8(written) ==> read_back == encoding::plain_utf8_text(written),
    ensures
        read_back == text,
{
    encoding::lemma_utf8_round_trip(text);
}

/// Law: a created page kept in the default directory stays so after a save,
/// and saving it again under the same name targets the same path, the one
/// the page now belongs to (so the second save may replace the file).
pub proof fn lemma_resave_same_target(m: MemoView, filename: Seq<char>, text: Seq<char>, overwrite: bool, next_text: Seq<char>)
    requires
        !m.is_external_file,
        m.save_dir == m.default_save_path,
        memo::save_plan(m, filename, text, overwrite, true) is Ok,
    ensures
        ({
            let plan = memo::save_plan(m, filename, text, overwrite, true)->Ok_0;
            let after = memo::saved(m, plan);
            &&& !after.is_external_file
            &&& after.save_dir == after.default_save_path
            &&& after.fullpath == plan.savepath
            &&& memo::save_plan(after, filename, next_text, false, true) matches Ok(next)
                ==> next.savepath == plan.savepath
        }),
{
}

/// Law: applying shared settings gives every page the new defaults and the
/// new guessing switch, never touches the encoding or directory of a page
/// holding a loaded file, moves every created page to the new directory,
/// gives a created page that was never saved the new encoding, and leaves
/// the page's file, count, edits and lock alone.
pub proof fn lemma_global_settings_per_page(v: ManagerView, s: crate::setting::SettingView)
    ensures
        forall|i: int|
            #![trigger v.memos[i]]
            0 <= i < v.memos.len() ==> {
                let old_page = v.memos[i];
                let new_page = manager::with_settings(old_page, s);
                &&& new_page.auto_encoding == s.auto_encoding
                &&& new_page.default_encoding == s.encoding
                &&& new_page.default_save_path == s.savepath
                &&& old_page.is_external_file ==> new_page.encoding == old_page.encoding
                    && new_page.save_dir == old_page.save_dir
                &&& !old_page.is_external_file ==> new_page.save_dir == s.savepath
                &&& !old_page.is_external_file && old_page.save_count == 0 ==> new_page.encoding
                    == s.encoding
                &&& old_page.save_count > 0 ==> new_page.encoding == old_page.encoding
                &&& new_page.is_external_file == old_page.is_external_file
                &&& new_page.fullpath == old_page.fullpath
                &&& new_page.save_count == old_page.save_count
                &&& new_page.unsaved == old_page.unsaved
                &&& new_page.locked == old_page.locked
            },
{
}

/// Law: a save to the path the page already belongs to keeps the page's
/// directory; a save to another path makes it a created page in the default
/// directory. Either way the page then belongs to the saved path with
/// nothing unsaved.
pub proof fn lemma_saved_directory(m: MemoView, plan: memo::SavePlanView)
    ensures
        path::path_equal(plan.savepath, m.fullpath) ==> memo::saved(m, plan).save_dir == m.save_dir
            && memo::saved(m, plan).is_external_file == plan.is_external_file,
        !path::path_equal(plan.savepath, m.fullpath) ==> memo::saved(m, plan).save_dir
            == m.default_save_path && !memo::saved(m, plan).is_external_file
            && memo::saved(m, plan).save_count == 1,
        memo::saved(m, plan).fullpath == plan.savepath,
        !memo::saved(m, plan).unsaved,
        memo::saved(m, plan).encoding == plan.encoding,
{
}

/// Law: a loaded file saved in place stays a loaded file in its directory,
/// and saving it again under the same name targets the same path, as a
/// loaded file (so it is replaced in place). `path_equal` holds of a path
/// and itself, as the path comparison states.
pub proof fn lemma_resave_loaded_in_place(m: MemoView, filename: Seq<char>, text: Seq<char>, overwrite: bool, next_text: Seq<char>)
    requires
        m.is_external_file,
        memo::save_plan(m, filename, text, overwrite, true) matches Ok(plan)
            && plan.is_external_file && path::path_equal(plan.savepath, plan.savepath),
    ensures
        ({
            let plan = memo::save_plan(m, filename, text, overwrite, true)->Ok_0;
            let after = memo::saved(m, plan);
            &&& after.is_external_file
            &&& after.save_dir == m.save_dir
            &&& after.fullpath == plan.savepath
            &&& memo::save_plan(after, filename, next_text, false, true) matches Ok(next) ==> {
                &&& next.savepath == plan.savepath
                &&& next.is_external_file
                &&& next.overwrite
            }
        }),
{
}

/// Law: the size warning depends only on the waiver and the size: a file
/// over the warning size is never loaded unless the warning is waived,
/// whatever the page holds and whether or not the load replaces it; and on
/// a page where nothing else stops the load, it is refused with `LargeFile`.
pub proof fn lemma_size_warning(m: MemoView, fullpath: Seq<char>, overwrite: bool, requested: Option<encoding::EncType>, stat: FileStat, content: Result<Seq<u8>, crate::error::FileFailure>)
    requires
        stat.size matches Some(size) && size > memo::FILE_WARNING_SIZE,
    ensures
        memo::load_precheck(m, fullpath, false, overwrite, stat) is Err,
        memo::load_outcome(m, fullpath, false, overwrite, requested, stat, content).0 is Err,
        memo::load_outcome(m, fullpath, false, overwrite, requested, stat, content).1 == m,
        stat.is_file && path::path_parent(fullpath) is Some && path::path_file_name(fullpath) is Some
            && (overwrite || !memo::holds_memo(m)) ==> memo::load_precheck(
            m,
            fullpath,
            false,
            overwrite,
            stat,
        ) == Err::<(), MemoError>(MemoError::LargeFile),
{
}

/// Law: a save may replace an existing file exactly when the page is saved
/// as a loaded file, the caller allows it, or the path is the one the page
/// already belongs to; how often the page was saved plays no part.
pub proof fn lemma_overwrite_only_when_allowed(m: MemoView, filename: Seq<char>, text: Seq<char>, overwrite: bool, dir_exists: bool)
    ensures
        memo::save_plan(m, filename, text, overwrite, dir_exists) matches Ok(plan) ==> (plan.overwrite
            <==> (plan.is_external_file || overwrite || path::path_equal(plan.savepath, m.fullpath))),
        memo::save_plan(m, filename, text, overwrite, dir_exists) matches Ok(plan) ==> (
        plan.is_external_file ==> m.is_external_file),
        memo::save_plan(m, filename, text, overwrite, dir_exists)
            == memo::save_plan(MemoView { save_count: 0, ..m }, filename, text, overwrite, dir_exists),
{
}

} // verus!
