use vstd::prelude::*;
use vstd::string::*;
use crate::error::MemoError;

verus! {

/// How a load is tried again after the user agreed in the dialog.
#[derive(Clone, Copy, Debug, PartialEq, Eq, Structural)]
pub enum LoadRetry {
    /// Clear the page, then load again replacing the memo left on it.
    ClearAndOverwrite,
    /// Load again without the size warning.
    IgnoreSize,
}

/// Load failures the user is asked about: a memo left on the page, and a
/// large file.
pub open spec fn load_error_asks(err: MemoError) -> bool {
    err == MemoError::LeaveMemo || err == MemoError::LargeFile
}

/// Whether a load failure is put to the user as a question (the others are
/// only reported).
pub fn load_error_needs_confirmation(err: MemoError) -> (res: bool)
    ensures
        res == load_error_asks(err),
{
    match err {
        MemoError::LeaveMemo => true,
        MemoError::LargeFile => true,
        _ => false,
    }
}

/// What follows a failed load once the user answered: a memo left on the
/// page is cleared away and the load replaces it, a large file is loaded
/// anyway; nothing is retried when the user declined or was not asked.
pub fn load_retry(err: MemoError, confirmed: bool) -> (res: Option<LoadRetry>)
    ensures
        res == if confirmed && err == MemoError::LeaveMemo {
            Some(LoadRetry::ClearAndOverwrite)
        } else if confirmed && err == MemoError::LargeFile {
            Some(LoadRetry::IgnoreSize)
        } else {
            None
        },
{
    if !confirmed {
        return None;
    }
    match err {
        MemoError::LeaveMemo => Some(LoadRetry::ClearAndOverwrite),
        MemoError::LargeFile => Some(LoadRetry::IgnoreSize),
        _ => None,
    }
}

/// Whether a failed save is tried again replacing the file: only when the
/// file existed and the user agreed.
pub fn save_retry(err: MemoError, confirmed: bool) -> (res: bool)
    ensures
        res == (confirmed && err == MemoError::FileExist),
{
    match err {
        MemoError::FileExist => confirmed,
        _ => false,
    }
}

/// A window other than the main one, and other than the one being closed.
pub open spec fn is_sub_window(label: Seq<char>, ignored: Option<Seq<char>>) -> bool {
    label != "main"@ && match ignored {
        Some(closing) => label != closing,
        None => true,
    }
}

/// The label of the window being closed, if any.
pub open spec fn closing_label(ignored: Option<&str>) -> Option<Seq<char>> {
    match ignored {
        Some(l) => Some(l@),
        None => None,
    }
}

/// The main window takes input only while no other window is open; the
/// window being closed, if any, is not counted.
pub fn main_window_enabled(labels: &Vec<String>, ignored: Option<&str>) -> (res: bool)
    ensures
        res == !exists|i: int|
            0 <= i < labels@.len() && is_sub_window(#[trigger] labels@[i]@, closing_label(ignored)),
{
    let ghost closing = closing_label(ignored);
    let main = "main".to_owned();
    let mut i: usize = 0;
    while i < labels.len()
        invariant
            i <= labels@.len(),
            main@ == "main"@,
            closing == closing_label(ignored),
            forall|j: int| 0 <= j < i ==> !is_sub_window(#[trigger] labels@[j]@, closing),
        decreases labels@.len() - i,
    {
        let label = &labels[i];
        if !(*label == main) {
            let other = match ignored {
                Some(l) => !(*label == l.to_owned()),
                None => true,
            };
            if other {
                assert(is_sub_window(labels@[i as int]@, closing));
                return false;
            }
        }
        i = i + 1;
    }
    true
}

/// The character of a decimal digit.
pub open spec fn digit_char(d: nat) -> char {
    (48 + d) as char
}

/// The decimal digits of a number.
pub open spec fn decimal_digits(n: nat) -> Seq<char>
    decreases n,
{
    if n < 10 {
        seq![digit_char(n)]
    } else {
        decimal_digits(n / 10).push(digit_char(n % 10))
    }
}

fn digit_text(d: usize) -> (res: String)
    requires
        d < 10,
    ensures
        res@ == seq![digit_char(d as nat)],
{
    let s = match d {
        0 => "0",
        1 => "1",
        2 => "2",
        3 => "3",
        4 => "4",
        5 => "5",
        6 => "6",
        7 => "7",
        8 => "8",
        _ => "9",
    };
    proof {
        reveal_strlit("0");
        reveal_strlit("1");
        reveal_strlit("2");
        reveal_strlit("3");
        reveal_strlit("4");
        reveal_strlit("5");
        reveal_strlit("6");
        reveal_strlit("7");
        reveal_strlit("8");
        reveal_strlit("9");
    }
    let res = s.to_owned();
    assert(res@ =~= seq![digit_char(d as nat)]);
    res
}

/// The number written in decimal.
pub fn decimal(n: usize) -> (res: String)
    ensures
        res@ == decimal_digits(n as nat),
    decreases n,
{
    let last = digit_text(n % 10);
    if n < 10 {
        last
    } else {
        let head = decimal(n / 10);
        let res = head.concat(last.as_str());
        assert(res@ =~= decimal_digits((n / 10) as nat).push(digit_char((n % 10) as nat)));
        res
    }
}

/// The page numbers (counted from one) of the unsaved pages, each followed
/// by the page mark.
pub open spec fn pages_text(unsaved: Seq<usize>) -> Seq<char>
    decreases unsaved.len(),
{
    if unsaved.len() == 0 {
        seq![]
    } else {
        pages_text(unsaved.drop_last()) + decimal_digits((unsaved.last() + 1) as nat) + "面"@
    }
}

/// The question asked before the program ends: the unsaved pages are named
/// first, when there are any.
pub open spec fn close_prompt_text(unsaved: Seq<usize>) -> Seq<char> {
    if unsaved.len() > 0 {
        pages_text(unsaved) + "が未保存です\n"@ + "終了しますか？"@
    } else {
        "終了しますか？"@
    }
}

/// The question asked before the program ends, naming the unsaved pages.
pub fn close_prompt(unsaved: &Vec<usize>) -> (res: String)
    requires
        forall|i: int| 0 <= i < unsaved@.len() ==> #[trigger] unsaved@[i] < usize::MAX,
    ensures
        res@ == close_prompt_text(unsaved@),
{
    let mut message = String::new();
    let mut i: usize = 0;
    while i < unsaved.len()
        invariant
            i <= unsaved@.len(),
            forall|j: int| 0 <= j < unsaved@.len() ==> #[trigger] unsaved@[j] < usize::MAX,
            message@ == pages_text(unsaved@.take(i as int)),
        decreases unsaved@.len() - i,
    {
        let page = decimal(unsaved[i] + 1);
        message = message.concat(page.as_str());
        message = message.concat("面");
        assert(unsaved@.take(i + 1).drop_last() =~= unsaved@.take(i as int));
        i = i + 1;
    }
    assert(unsaved@.take(unsaved@.len() as int) =~= unsaved@);
    if unsaved.len() > 0 {
        message = message.concat("が未保存です\n");
    }
    message.concat("終了しますか？")
}

/// The edit entries at the top of the context menu.
#[derive(Clone, Copy, Debug, PartialEq, Eq, Structural)]
pub enum EditItem {
    Cut,
    Copy,
    Paste,
}

/// What the context menu of a page offers: its edit entries, whether the
/// lock and always-on-top entries are checked, and whether clearing is
/// enabled.
#[derive(Clone, Debug)]
pub struct ContextMenuLayout {
    pub edit_items: Vec<EditItem>,
    pub lock_checked: bool,
    pub top_most_checked: bool,
    pub clear_enabled: bool,
}

/// The context menu of a page: a locked page only offers copying and cannot
/// be cleared; the check marks show the lock and the always-on-top setting.
pub fn context_menu_layout(locked: bool, top_most: bool) -> (res: ContextMenuLayout)
    ensures
        res.edit_items@ == if locked {
            seq![EditItem::Copy]
        } else {
            seq![EditItem::Cut, EditItem::Copy, EditItem::Paste]
        },
        res.lock_checked == locked,
        res.top_most_checked == top_most,
        res.clear_enabled == !locked,
{
    let mut edit_items: Vec<EditItem> = Vec::new();
    if !locked {
        edit_items.push(EditItem::Cut);
    }
    edit_items.push(EditItem::Copy);
    if !locked {
        edit_items.push(EditItem::Paste);
    }
    proof {
        if locked {
            assert(edit_items@ =~= seq![EditItem::Copy]);
        } else {
            assert(edit_items@ =~= seq![EditItem::Cut, EditItem::Copy, EditItem::Paste]);
        }
    }
    ContextMenuLayout { edit_items, lock_checked: locked, top_most_checked: top_most, clear_enabled: !locked }
}

/// What a choice in the context menu asks for.
#[derive(Clone, Copy, Debug, PartialEq, Eq, Structural)]
pub enum MenuCommand {
    ToggleLock,
    ToggleTopMost,
    OpenGlobalSetting,
    OpenLocalSetting,
    OpenReloadEncoding,
    OpenVersion,
    ClearPage,
    Unknown,
}

/// The command a menu entry's id stands for.
pub open spec fn menu_command_of(id: Seq<char>) -> MenuCommand {
    if id == "lock"@ {
        MenuCommand::ToggleLock
    } else if id == "always-top"@ {
        MenuCommand::ToggleTopMost
    } else if id == "global-setting"@ {
        MenuCommand::OpenGlobalSetting
    } else if id == "local-setting"@ {
        MenuCommand::OpenLocalSetting
    } else if id == "encoding"@ {
        MenuCommand::OpenReloadEncoding
    } else if id == "version"@ {
        MenuCommand::OpenVersion
    } else if id == "clear"@ {
        MenuCommand::ClearPage
    } else {
        MenuCommand::Unknown
    }
}

/// The command a menu entry's id stands for.
pub fn menu_command(id: &str) -> (res: MenuCommand)
    ensures
        res == menu_command_of(id@),
{
    let id = id.to_owned();
    if id == "lock".to_owned() {
        MenuCommand::ToggleLock
    } else if id == "always-top".to_owned() {
        MenuCommand::ToggleTopMost
    } else if id == "global-setting".to_owned() {
        MenuCommand::OpenGlobalSetting
    } else if id == "local-setting".to_owned() {
        MenuCommand::OpenLocalSetting
    } else if id == "encoding".to_owned() {
        MenuCommand::OpenReloadEncoding
    } else if id == "version".to_owned() {
        MenuCommand::OpenVersion
    } else if id == "clear".to_owned() {
        MenuCommand::ClearPage
    } else {
        MenuCommand::Unknown
    }
}

/// What a request to close the main window leads to.
#[derive(Clone, Copy, Debug, PartialEq, Eq, Structural)]
pub enum CloseStep {
    /// Let the window close.
    Close,
    /// Keep it open and ask the user first.
    Ask,
}

/// A close request: one the user already agreed to goes through and uses up
/// the permission; any other is held while the user is asked. Gives the
/// step and the new permission.
pub fn close_request(allow_main_close: bool) -> (res: (CloseStep, bool))
    ensures
        res == if allow_main_close {
            (CloseStep::Close, false)
        } else {
            (CloseStep::Ask, false)
        },
{
    if allow_main_close {
        (CloseStep::Close, false)
    } else {
        (CloseStep::Ask, false)
    }
}

/// The answer to the closing question: when the user agrees, the settings
/// are saved and closing is permitted (the result); otherwise nothing
/// changes.
pub fn close_answer(answer: bool, allow_main_close: bool) -> (res: bool)
    ensures
        res == (answer || allow_main_close),
{
    answer || allow_main_close
}

} // verus!
