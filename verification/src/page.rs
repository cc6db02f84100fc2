//! The application page: its state machine, messages, and the file list
//! component.
//!
//! Rendering is done outside this crate; the page here owns what the
//! widgets display — the list of files and the selection — and how key
//! events and messages move it.

use vstd::prelude::*;

use crate::config::AppConfigHandler;
use crate::db::AudioScanner;
use crate::event::AppEvent;

verus! {

/// Marker for the message type a page exchanges with the event loop.
pub trait Msg {
}

/// Messages the application page processes.
#[derive(Clone, Copy, Debug, PartialEq, Eq, Structural)]
pub enum AppMsg {
    State(AppState),
    Quit,
    ListIncrement,
    ListDecrement,
    RefreshDb,
}

impl Msg for AppMsg {
}

/// The application page's own state.
#[derive(Clone, Copy, Debug, Default, PartialEq, Eq, PartialOrd, Ord, Structural)]
pub enum AppState {
    #[default]
    Normal,
    DisplayHelp,
    Quit,
}

/// Where a wrapping "select next" lands: one step down the list, wrapping
/// to the top past the end; an empty list leaves the selection untouched.
pub open spec fn spec_next_selection(selected: Option<usize>, len: nat) -> Option<usize> {
    if len == 0 {
        selected
    } else {
        match selected {
            Some(i) => if i + 1 < len {
                Some((i + 1) as usize)
            } else {
                Some(0usize)
            },
            None => Some(0usize),
        }
    }
}

/// Where a wrapping "select previous" lands: one step up the list,
/// wrapping to the bottom past the top; an empty list leaves the
/// selection untouched.
pub open spec fn spec_prev_selection(selected: Option<usize>, len: nat) -> Option<usize> {
    if len == 0 {
        selected
    } else {
        match selected {
            Some(i) => if i == 0 {
                Some((len - 1) as usize)
            } else {
                Some((i - 1) as usize)
            },
            None => Some(0usize),
        }
    }
}

/// The scrollable list of catalogued files and its selection.
#[derive(Clone, Debug)]
pub struct FileList {
    file_list: Vec<String>,
    selected: Option<usize>,
}

impl FileList {
    pub closed spec fn spec_items(&self) -> Seq<String> {
        self.file_list@
    }

    pub closed spec fn spec_selected(&self) -> Option<usize> {
        self.selected
    }

    /// An empty list with the first (not yet existing) row selected, as
    /// the page starts out.
    pub fn new() -> (l: FileList)
        ensures
            l.spec_items() == Seq::<String>::empty(),
            l.spec_selected() == Some(0usize),
    {
        FileList { file_list: Vec::new(), selected: Some(0) }
    }

    /// Replaces the displayed list wholesale.
    pub fn _set_file_list(&mut self, file_list: Vec<String>)
        ensures
            final(self).spec_items() == file_list@,
            final(self).spec_selected() == old(self).spec_selected(),
    {
        self.file_list = file_list;
    }

    /// Appends what a directory scan yielded. The scan itself is
    /// filesystem work done outside this crate; its results arrive here
    /// as plain values.
    pub fn update_file_list(&mut self, found: Vec<String>)
        ensures
            final(self).spec_items() == old(self).spec_items() + found@,
            final(self).spec_selected() == old(self).spec_selected(),
    {
        let ghost pre = self.file_list@;
        let mut rest = found;
        let ghost add = rest@;
        let mut i: usize = 0;
        let n = rest.len();
        while i < n
            invariant
                i <= n,
                n == add.len(),
                rest@ == add.skip(i as int),
                self.file_list@ == pre + add.take(i as int),
                self.selected == old(self).spec_selected(),
            decreases n - i,
        {
            let item = rest.remove(0);
            proof {
                assert(item == add[i as int]);
                assert(add.skip(i as int).remove(0) =~= add.skip(i + 1));
            }
            self.file_list.push(item);
            proof {
                assert(pre + add.take(i + 1) =~= (pre + add.take(i as int)).push(
                    add[i as int],
                ));
            }
            i = i + 1;
        }
        proof {
            assert(add.take(n as int) =~= add);
        }
    }

    /// The displayed file names.
    pub fn items(&self) -> (v: &Vec<String>)
        ensures
            v@ == self.spec_items(),
    {
        &self.file_list
    }

    /// The selected row, if any.
    pub fn selected(&self) -> (s: Option<usize>)
        ensures
            s == self.spec_selected(),
    {
        self.selected
    }

    /// Selects the next row, wrapping to the top past the end; does
    /// nothing while the list is empty.
    pub fn next(&mut self)
        ensures
            final(self).spec_items() == old(self).spec_items(),
            final(self).spec_selected() == spec_next_selection(
                old(self).spec_selected(),
                old(self).spec_items().len(),
            ),
    {
        if self.file_list.is_empty() {
            return;
        }
        let i: usize = match self.selected {
            Some(i) => if i >= self.file_list.len() - 1 {
                0
            } else {
                i + 1
            },
            None => 0,
        };
        self.selected = Some(i);
    }

    /// Selects the previous row, wrapping to the bottom past the top;
    /// does nothing while the list is empty.
    pub fn prev(&mut self)
        ensures
            final(self).spec_items() == old(self).spec_items(),
            final(self).spec_selected() == spec_prev_selection(
                old(self).spec_selected(),
                old(self).spec_items().len(),
            ),
    {
        if self.file_list.is_empty() {
            return;
        }
        let i: usize = match self.selected {
            Some(i) => if i == 0 {
                self.file_list.len() - 1
            } else {
                i - 1
            },
            None => 0,
        };
        self.selected = Some(i);
    }
}

/// The application page: top-level page state, the file list component,
/// the catalog scanner and the loaded configuration.
pub struct App {
    state: AppState,
    cmp_file_list: FileList,
    audio_scanner: AudioScanner,
    config: Option<AppConfigHandler>,
}

impl App {
    pub closed spec fn spec_state(&self) -> AppState {
        self.state
    }

    pub closed spec fn spec_list_items(&self) -> Seq<String> {
        self.cmp_file_list.spec_items()
    }

    pub closed spec fn spec_list_selected(&self) -> Option<usize> {
        self.cmp_file_list.spec_selected()
    }

    /// The music directory the page's scanner is configured with.
    pub closed spec fn spec_scanner_music_dir(&self) -> Seq<char> {
        self.audio_scanner.spec_config().spec_music_dir()
    }

    pub closed spec fn spec_config(&self) -> Option<AppConfigHandler> {
        self.config
    }

    /// A fresh page: normal state, empty list, default scanner, no
    /// configuration loaded yet.
    pub fn new() -> (a: App)
        ensures
            a.spec_state() is Normal,
            a.spec_list_items() == Seq::<String>::empty(),
            a.spec_list_selected() == Some(0usize),
            a.spec_scanner_music_dir() == Seq::<char>::empty(),
            a.spec_config() is None,
    {
        App {
            state: AppState::Normal,
            cmp_file_list: FileList::new(),
            audio_scanner: AudioScanner::new(crate::config::AppConfig::default()),
            config: None,
        }
    }

    /// Adopts the configuration the surrounding application loaded from
    /// disk (or `None` when loading failed), and points the scanner at
    /// the configured music directory.
    pub fn init(&mut self, config: Option<AppConfigHandler>)
        ensures
            final(self).spec_config() == config,
            final(self).spec_state() == old(self).spec_state(),
            final(self).spec_list_items() == old(self).spec_list_items(),
            final(self).spec_list_selected() == old(self).spec_list_selected(),
            match config {
                Some(h) => final(self).spec_scanner_music_dir() == h.spec_config().spec_music_dir(),
                None => final(self).spec_scanner_music_dir() == old(
                    self,
                ).spec_scanner_music_dir(),
            },
    {
        match &config {
            Some(h) => {
                let c = h.get_config().duplicate();
                self.audio_scanner.set_config(c);
            },
            None => {},
        }
        self.config = config;
    }

    /// Processes one message; no message ever produces a follow-up one.
    /// A database refresh changes no page state here: the scan it calls
    /// for is filesystem work done outside this crate, whose results
    /// arrive through `apply_scan_results`.
    pub fn update(&mut self, msg: AppMsg) -> (r: Option<AppMsg>)
        ensures
            r is None,
            final(self).spec_config() == old(self).spec_config(),
            final(self).spec_scanner_music_dir() == old(self).spec_scanner_music_dir(),
            final(self).spec_list_items() == old(self).spec_list_items(),
            match msg {
                AppMsg::State(s) => final(self).spec_state() == s && final(self).spec_list_selected() == old(self).spec_list_selected(),
                AppMsg::Quit => final(self).spec_state() is Quit && final(self).spec_list_selected() == old(self).spec_list_selected(),
                AppMsg::ListIncrement => final(self).spec_state() == old(self).spec_state()
                    && final(self).spec_list_selected() == spec_next_selection(
                    old(self).spec_list_selected(),
                    old(self).spec_list_items().len(),
                ),
                AppMsg::ListDecrement => final(self).spec_state() == old(self).spec_state()
                    && final(self).spec_list_selected() == spec_prev_selection(
                    old(self).spec_list_selected(),
                    old(self).spec_list_items().len(),
                ),
                AppMsg::RefreshDb => final(self).spec_state() == old(self).spec_state() && final(self).spec_list_selected() == old(self).spec_list_selected(),
            },
    {
        match msg {
            AppMsg::State(s) => {
                self.state = s;
            },
            AppMsg::ListDecrement => {
                self.cmp_file_list.prev();
            },
            AppMsg::ListIncrement => {
                self.cmp_file_list.next();
            },
            AppMsg::RefreshDb => {},
            AppMsg::Quit => {
                self.state = AppState::Quit;
            },
        }
        None
    }

    /// Appends what the requested directory scan yielded.
    pub fn apply_scan_results(&mut self, found: Vec<String>)
        ensures
            final(self).spec_list_items() == old(self).spec_list_items() + found@,
            final(self).spec_list_selected() == old(self).spec_list_selected(),
            final(self).spec_state() == old(self).spec_state(),
            final(self).spec_config() == old(self).spec_config(),
            final(self).spec_scanner_music_dir() == old(self).spec_scanner_music_dir(),
    {
        self.cmp_file_list.update_file_list(found);
    }

    /// Routes one event to the message it triggers: quit, help toggle,
    /// list movement or a database refresh; an event-source failure quits.
    pub fn handle_events(&mut self, event: AppEvent) -> (r: Option<AppMsg>)
        ensures
            *final(self) == *old(self),
            r == (match event {
                AppEvent::Key(c) => if c == 'q' {
                    Some(AppMsg::Quit)
                } else if c == '?' {
                    if old(self).spec_state() is DisplayHelp {
                        Some(AppMsg::State(AppState::Normal))
                    } else {
                        Some(AppMsg::State(AppState::DisplayHelp))
                    }
                } else if c == 'j' {
                    Some(AppMsg::ListIncrement)
                } else if c == 'k' {
                    Some(AppMsg::ListDecrement)
                } else if c == 'R' {
                    Some(AppMsg::RefreshDb)
                } else {
                    None
                },
                AppEvent::Error => Some(AppMsg::Quit),
                _ => None,
            }),
    {
        match event {
            AppEvent::Key(c) => {
                if c == 'q' {
                    Some(AppMsg::Quit)
                } else if c == '?' {
                    if self.get_state() == AppState::DisplayHelp {
                        Some(AppMsg::State(AppState::Normal))
                    } else {
                        Some(AppMsg::State(AppState::DisplayHelp))
                    }
                } else if c == 'j' {
                    Some(AppMsg::ListIncrement)
                } else if c == 'k' {
                    Some(AppMsg::ListDecrement)
                } else if c == 'R' {
                    Some(AppMsg::RefreshDb)
                } else {
                    None
                }
            },
            AppEvent::Error => Some(AppMsg::Quit),
            _ => None,
        }
    }

    pub fn get_state(&self) -> (s: AppState)
        ensures
            s == self.spec_state(),
    {
        self.state
    }

    /// The displayed file names, for rendering.
    pub fn list_items(&self) -> (v: &Vec<String>)
        ensures
            v@ == self.spec_list_items(),
    {
        self.cmp_file_list.items()
    }

    /// The selected row, for rendering.
    pub fn list_selected(&self) -> (s: Option<usize>)
        ensures
            s == self.spec_list_selected(),
    {
        self.cmp_file_list.selected()
    }

    /// The configured music directory, for the scan the event loop runs
    /// on a refresh request; `None` while no configuration is loaded.
    pub fn scan_directory(&self) -> (d: Option<&String>)
        ensures
            match d {
                Some(s) => self.spec_config() is Some && s@ == self.spec_config()
                    ->Some_0.spec_config().spec_music_dir(),
                None => self.spec_config() is None,
            },
    {
        match &self.config {
            Some(h) => Some(&h.get_config().dir.music_dir),
            None => None,
        }
    }
}

} // verus!
