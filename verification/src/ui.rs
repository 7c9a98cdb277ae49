//! What the screens decide: which key does what, and where the highlight and
//! the tabs go. Drawing and reading keys are the caller's.

use crate::selection::{index_after, index_before, next_index, previous_index};
use crate::tidal::TidalSession;
use std::cell::RefCell;
use std::rc::Rc;
use vstd::prelude::*;

verus! {

#[verifier::external_type_specification]
#[verifier::external_body]
#[verifier::reject_recursive_types(T)]
pub struct ExRefCell<T: ?Sized>(RefCell<T>);

/// A key, as far as the screens tell keys apart.
#[derive(Clone, Copy, PartialEq, Eq, Structural, Debug)]
pub enum Key {
    Up,
    Down,
    Left,
    Right,
    Enter,
    Char(char),
    Other,
}

/// What the streaming screen does on a key.
#[derive(Clone, Copy, PartialEq, Eq, Structural, Debug)]
pub enum TidalAction {
    Nothing,
    /// Leave the program.
    Quit,
    /// Ask the service for a device code.
    Login,
    /// Ask the service for the tokens.
    Exchange,
}

/// The streaming screen.
pub struct TidalWindow {
    pub session: Rc<RefCell<TidalSession>>,
    title: String,
}

impl TidalWindow {
    pub closed spec fn title_text(&self) -> Seq<char> {
        self.title@
    }

    pub closed spec fn shared_session(&self) -> Rc<RefCell<TidalSession>> {
        self.session
    }

    /// The screen titled `Tidal`, on `session`.
    pub fn new(session: Rc<RefCell<TidalSession>>) -> (made: TidalWindow)
        ensures
            made.title_text() == "Tidal"@,
            made.shared_session() == session,
    {
        TidalWindow { session, title: String::from_str("Tidal") }
    }

    pub fn get_title(&self) -> (title: String)
        ensures
            title@ == self.title_text(),
    {
        self.title.clone()
    }

    /// `q` leaves the program, `e` starts the login, `f` asks for the tokens.
    pub fn handle_input(&self, key: Key) -> (action: TidalAction)
        ensures
            action == tidal_action_for(key),
    {
        match key {
            Key::Char(c) => if c == 'q' {
                TidalAction::Quit
            } else if c == 'e' {
                TidalAction::Login
            } else if c == 'f' {
                TidalAction::Exchange
            } else {
                TidalAction::Nothing
            },
            _ => TidalAction::Nothing,
        }
    }
}

/// What the streaming screen does on `key`.
pub open spec fn tidal_action_for(key: Key) -> TidalAction {
    if key == Key::Char('q') {
        TidalAction::Quit
    } else if key == Key::Char('e') {
        TidalAction::Login
    } else if key == Key::Char('f') {
        TidalAction::Exchange
    } else {
        TidalAction::Nothing
    }
}

/// What the main loop does on a key.
#[derive(Clone, Copy, PartialEq, Eq, Structural, Debug)]
pub enum UiAction {
    /// Save what is to be saved and leave.
    Quit,
    PreviousTab,
    NextTab,
    TogglePause,
    /// Hand the key to the screen that is shown.
    Forward,
}

/// What the main loop does on `key`.
pub open spec fn ui_action_for(key: Key) -> UiAction {
    if key == Key::Char('q') {
        UiAction::Quit
    } else if key == Key::Char('h') {
        UiAction::PreviousTab
    } else if key == Key::Char('l') {
        UiAction::NextTab
    } else if key == Key::Char('c') {
        UiAction::TogglePause
    } else {
        UiAction::Forward
    }
}

/// `q` quits, `h` and `l` change the tab, `c` toggles the pause; every other
/// key goes to the screen that is shown.
pub fn ui_action(key: Key) -> (action: UiAction)
    ensures
        action == ui_action_for(key),
{
    match key {
        Key::Char(c) => if c == 'q' {
            UiAction::Quit
        } else if c == 'h' {
            UiAction::PreviousTab
        } else if c == 'l' {
            UiAction::NextTab
        } else if c == 'c' {
            UiAction::TogglePause
        } else {
            UiAction::Forward
        },
        _ => UiAction::Forward,
    }
}

/// The tab to the right of `current` among `count` tabs, the first after the
/// last.
pub open spec fn tab_after(current: int, count: int) -> int {
    if count > 0 {
        (current + 1) % count
    } else {
        0
    }
}

/// The tab to the left of `current` among `count` tabs, the last before the
/// first.
pub open spec fn tab_before(current: int, count: int) -> int {
    if current > 0 {
        current - 1
    } else if count > 0 {
        count - 1
    } else {
        0
    }
}

pub fn next_tab(current: usize, count: usize) -> (tab: usize)
    ensures
        tab as int == tab_after(current as int, count as int),
{
    if count == 0 {
        0
    } else {
        let within: usize = current % count;
        proof {
            vstd::arithmetic::div_mod::lemma_add_mod_noop(current as int, 1, count as int);
            vstd::arithmetic::div_mod::lemma_small_mod(1, 2);
            if count > 1 {
                vstd::arithmetic::div_mod::lemma_small_mod(1, count as nat);
                if within + 1 < count {
                    vstd::arithmetic::div_mod::lemma_small_mod((within + 1) as nat, count as nat);
                } else {
                    vstd::arithmetic::div_mod::lemma_mod_self_0(count as int);
                }
            }
        }
        if within + 1 == count {
            0
        } else {
            within + 1
        }
    }
}

pub fn previous_tab(current: usize, count: usize) -> (tab: usize)
    ensures
        tab as int == tab_before(current as int, count as int),
{
    if current > 0 {
        current - 1
    } else if count > 0 {
        count - 1
    } else {
        0
    }
}

/// The margins that centre a part of `percent` per cent: the part between two
/// equal margins, which together with it make up at most the whole.
pub open spec fn margins_around(percent: int) -> (int, int, int) {
    ((100 - percent) / 2, percent, (100 - percent) / 2)
}

pub fn centered_margins(percent: u16) -> (parts: (u16, u16, u16))
    requires
        percent <= 100,
    ensures
        (parts.0 as int, parts.1 as int, parts.2 as int) == margins_around(percent as int),
        parts.0 + parts.1 + parts.2 <= 100,
{
    let margin: u16 = (100 - percent) / 2;
    (margin, percent, margin)
}

/// What the library screen does on a key.
#[derive(Clone, Copy, PartialEq, Eq, Structural, Debug)]
pub enum LibraryAction {
    Nothing,
    /// Move the highlight to this row.
    Highlight(usize),
    /// Replace the queue by the library from this row on, wrapping round.
    PlayFrom(usize),
}

pub open spec fn library_action_for(key: Key, selected: Option<usize>, count: int) -> LibraryAction {
    match key {
        Key::Up => LibraryAction::Highlight(index_before(selected, count) as usize),
        Key::Down => LibraryAction::Highlight(index_after(selected, count) as usize),
        Key::Enter => match selected {
            Some(i) => LibraryAction::PlayFrom(i),
            None => LibraryAction::Nothing,
        },
        _ => LibraryAction::Nothing,
    }
}

/// The arrows move the highlight through the `count` rows; enter plays from
/// the highlighted row.
pub fn library_action(key: Key, selected: Option<usize>, count: usize) -> (action: LibraryAction)
    ensures
        action == library_action_for(key, selected, count as int),
{
    match key {
        Key::Up => LibraryAction::Highlight(previous_index(selected, count)),
        Key::Down => LibraryAction::Highlight(next_index(selected, count)),
        Key::Enter => match selected {
            Some(i) => LibraryAction::PlayFrom(i),
            None => LibraryAction::Nothing,
        },
        _ => LibraryAction::Nothing,
    }
}

/// What the folders screen does on a key.
#[derive(Clone, Copy, PartialEq, Eq, Structural, Debug)]
pub enum FoldersAction {
    Nothing,
    Highlight(usize),
    /// Open the explorer on the highlighted folder, or on the home folder
    /// where the highlight is on no folder.
    Explore(Option<usize>),
}

pub open spec fn folders_action_for(key: Key, selected: Option<usize>, folders: int) -> FoldersAction {
    match key {
        Key::Up => FoldersAction::Highlight(index_before(selected, folders) as usize),
        Key::Down => FoldersAction::Highlight(index_after(selected, folders + 1) as usize),
        Key::Enter => match selected {
            Some(i) => if i < folders {
                FoldersAction::Explore(Some(i))
            } else {
                FoldersAction::Explore(None)
            },
            None => FoldersAction::Explore(None),
        },
        _ => FoldersAction::Nothing,
    }
}

/// The list shows the `folders` folders and one more row below them for
/// adding a folder. Down walks through all of these rows; up wraps round to
/// the last folder.
pub fn folders_action(key: Key, selected: Option<usize>, folders: usize) -> (action: FoldersAction)
    ensures
        action == folders_action_for(key, selected, folders as int),
{
    match key {
        Key::Up => FoldersAction::Highlight(previous_index(selected, folders)),
        Key::Down => FoldersAction::Highlight(
            match selected {
                Some(i) => if i >= folders {
                    0
                } else {
                    i + 1
                },
                None => 0,
            },
        ),
        Key::Enter => match selected {
            Some(i) => if i < folders {
                FoldersAction::Explore(Some(i))
            } else {
                FoldersAction::Explore(None)
            },
            None => FoldersAction::Explore(None),
        },
        _ => FoldersAction::Nothing,
    }
}

/// What the device list does on a key.
#[derive(Clone, Copy, PartialEq, Eq, Structural, Debug)]
pub enum DeviceAction {
    Nothing,
    Highlight(usize),
    /// Configure this device; it is used from the next start on.
    Choose(usize),
}

pub open spec fn device_action_for(key: Key, selected: Option<usize>, count: int) -> DeviceAction {
    match key {
        Key::Up => DeviceAction::Highlight(index_before(selected, count) as usize),
        Key::Down => DeviceAction::Highlight(index_after(selected, count) as usize),
        Key::Enter => match selected {
            Some(i) => DeviceAction::Choose(i),
            None => DeviceAction::Nothing,
        },
        _ => DeviceAction::Nothing,
    }
}

pub fn device_action(key: Key, selected: Option<usize>, count: usize) -> (action: DeviceAction)
    ensures
        action == device_action_for(key, selected, count as int),
{
    match key {
        Key::Up => DeviceAction::Highlight(previous_index(selected, count)),
        Key::Down => DeviceAction::Highlight(next_index(selected, count)),
        Key::Enter => match selected {
            Some(i) => DeviceAction::Choose(i),
            None => DeviceAction::Nothing,
        },
        _ => DeviceAction::Nothing,
    }
}

/// What the folder settings do on a key.
#[derive(Clone, Copy, PartialEq, Eq, Structural, Debug)]
pub enum FolderSettingsAction {
    Nothing,
    Highlight(usize),
    /// Ask for a folder and add it.
    Add,
    /// Take the folder at this index out of the settings.
    Remove(usize),
}

pub open spec fn folder_settings_action_for(
    key: Key,
    selected: Option<usize>,
    folders: int,
) -> FolderSettingsAction {
    if key == Key::Char('a') {
        FolderSettingsAction::Add
    } else if key == Key::Char('d') {
        match selected {
            Some(i) => if i < folders {
                FolderSettingsAction::Remove(i)
            } else {
                FolderSettingsAction::Nothing
            },
            None => FolderSettingsAction::Nothing,
        }
    } else if key == Key::Up {
        FolderSettingsAction::Highlight(index_before(selected, folders) as usize)
    } else if key == Key::Down {
        FolderSettingsAction::Highlight(index_after(selected, folders) as usize)
    } else {
        FolderSettingsAction::Nothing
    }
}

/// `a` adds a folder, `d` removes the highlighted one if there is one, and
/// the arrows move the highlight.
pub fn folder_settings_action(key: Key, selected: Option<usize>, folders: usize) -> (action:
    FolderSettingsAction)
    ensures
        action == folder_settings_action_for(key, selected, folders as int),
{
    match key {
        Key::Char(c) => if c == 'a' {
            FolderSettingsAction::Add
        } else if c == 'd' {
            match selected {
                Some(i) => if i < folders {
                    FolderSettingsAction::Remove(i)
                } else {
                    FolderSettingsAction::Nothing
                },
                None => FolderSettingsAction::Nothing,
            }
        } else {
            FolderSettingsAction::Nothing
        },
        Key::Up => FolderSettingsAction::Highlight(previous_index(selected, folders)),
        Key::Down => FolderSettingsAction::Highlight(next_index(selected, folders)),
        _ => FolderSettingsAction::Nothing,
    }
}

/// What the settings screen does on a key.
#[derive(Clone, Copy, PartialEq, Eq, Structural, Debug)]
pub enum SettingsAction {
    Nothing,
    /// Move the highlight in the list of pages.
    Highlight(usize),
    /// Give the keys to the list of pages (0) or to the page shown (1).
    Focus(usize),
    /// Hand the key to the page at this index.
    Forward(usize),
}

pub open spec fn settings_action_for(
    focus: usize,
    key: Key,
    selected: Option<usize>,
    pages: int,
) -> SettingsAction {
    if focus == 0 {
        match key {
            Key::Up => SettingsAction::Highlight(index_before(selected, pages) as usize),
            Key::Down => SettingsAction::Highlight(index_after(selected, pages) as usize),
            Key::Right => SettingsAction::Focus(1),
            _ => SettingsAction::Nothing,
        }
    } else if focus == 1 {
        match key {
            Key::Left => SettingsAction::Focus(0),
            _ => SettingsAction::Forward(
                match selected {
                    Some(i) => i,
                    None => 0,
                },
            ),
        }
    } else {
        SettingsAction::Focus(0)
    }
}

/// With the focus on the list of pages, the arrows move the highlight and
/// right enters the page. Inside a page, left goes back to the list and every
/// other key is the page's. Any other focus falls back to the list.
pub fn settings_action(focus: usize, key: Key, selected: Option<usize>, pages: usize) -> (action:
    SettingsAction)
    ensures
        action == settings_action_for(focus, key, selected, pages as int),
{
    if focus == 0 {
        match key {
            Key::Up => SettingsAction::Highlight(previous_index(selected, pages)),
            Key::Down => SettingsAction::Highlight(next_index(selected, pages)),
            Key::Right => SettingsAction::Focus(1),
            _ => SettingsAction::Nothing,
        }
    } else if focus == 1 {
        match key {
            Key::Left => SettingsAction::Focus(0),
            _ => SettingsAction::Forward(selected.unwrap_or(0)),
        }
    } else {
        SettingsAction::Focus(0)
    }
}

} // verus!
