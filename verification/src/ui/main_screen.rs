//! State of the main screen: the group list, the set list, search and
//! group renaming.

use vstd::prelude::*;
use crate::action::AppAction;
use crate::models::queries::{filter_spec, name_matches_spec, FilterResult};
use crate::models::{AppData, GroupView};
use crate::ui::keys::{KeyCode, KeyEvent};
use crate::ui::scrollable_list::{select_next_spec, select_previous_spec, ScrollableList};
use crate::ui::text_input::{handle_text_input, text_key_spec, TextInput};

pub use crate::search::find_matches_case_insensitive;

verus! {

/// The focused panel.
#[derive(Debug, Clone, Copy, PartialEq, Eq, Structural)]
pub enum Panel {
    Groups,
    Sets,
}

/// The main screen.
#[derive(Debug)]
pub struct MainScreenState {
    pub group_list: ScrollableList,
    pub set_list: ScrollableList,
    pub active_panel: Panel,
    pub search_mode: bool,
    pub search_input: TextInput,
    pub rename_mode: bool,
    pub rename_input: TextInput,
}

/// The selected group, if the selection names one.
pub open spec fn selected_group_spec(s: &MainScreenState, data: Seq<GroupView>) -> Option<usize> {
    if s.group_list.selected < data.len() { Some(s.group_list.selected) } else { None }
}

/// The selected set of the selected group, if the selection names one.
pub open spec fn selected_set_spec(s: &MainScreenState, data: Seq<GroupView>) -> Option<(usize, usize)> {
    match selected_group_spec(s, data) {
        Some(gi) => if s.set_list.selected < data[gi as int].sets.len() {
            Some((gi, s.set_list.selected))
        } else {
            None
        },
        None => None,
    }
}

/// Positions of the sets in the right panel: the search results in search
/// mode, else the sets of the selected group.
pub open spec fn visible_spec(s: &MainScreenState, data: Seq<GroupView>) -> Seq<(int, int)> {
    if s.search_mode {
        filter_spec(data, s.search_input.content@)
    } else {
        match selected_group_spec(s, data) {
            Some(gi) => Seq::new(data[gi as int].sets.len(), |si: int| (gi as int, si)),
            None => Seq::empty(),
        }
    }
}

/// What a key does to the main screen `s` over `data`, leaving `t`, and the
/// `s` is a main screen just opened: groups panel focused, first rows
/// selected, no search, no renaming.
pub open spec fn fresh_main(s: &MainScreenState) -> bool {
    &&& s.group_list == ScrollableList::new_spec()
    &&& s.set_list == ScrollableList::new_spec()
    &&& s.active_panel == Panel::Groups
    &&& !s.search_mode
    &&& s.search_input.content@.len() == 0
    &&& s.search_input.cursor == 0
    &&& !s.rename_mode
    &&& s.rename_input.content@.len() == 0
    &&& s.rename_input.cursor == 0
}

/// action it hands on.
pub open spec fn main_key_post(s: &MainScreenState, t: &MainScreenState, key: KeyEvent, data: Seq<GroupView>, res: AppAction) -> bool {
    &&& s.rename_mode ==> match key.code {
        KeyCode::Enter => res matches AppAction::RenameGroup(gi, name) && gi == s.group_list.selected
            && name@ == s.rename_input.content@ && !t.rename_mode,
        KeyCode::Esc => res is Nothing && !t.rename_mode
            && t.rename_input == s.rename_input,
        _ => res is Nothing && t.rename_mode && (t.rename_input.content@,
            t.rename_input.cursor as int) == text_key_spec(
            s.rename_input.content@,
            s.rename_input.cursor as int,
            key.code,
        )
    } && t.group_list == s.group_list && t.set_list == s.set_list
        && t.search_mode == s.search_mode
    &&& !s.rename_mode && s.search_mode ==> res is Nothing && match key.code {
        KeyCode::Esc => !t.search_mode && t.search_input.content@.len() == 0
            && t.set_list == ScrollableList::new_spec() && t.active_panel == Panel::Groups,
        KeyCode::Enter => !t.search_mode && t.search_input.content@.len() == 0 && {
            let found = filter_spec(data, s.search_input.content@);
            if s.set_list.selected < found.len() {
                &&& t.group_list.selected == found[s.set_list.selected as int].0
                &&& t.set_list.selected == found[s.set_list.selected as int].1
                &&& t.active_panel == Panel::Sets
            } else {
                t.group_list == s.group_list && t.set_list == s.set_list
                    && t.active_panel == s.active_panel
            }
        },
        _ => if is_up(key.code) {
            t.set_list.selected == select_previous_spec(s.set_list.selected as int)
                && t.search_mode && t.search_input == s.search_input
        } else if is_down(key.code) {
            t.set_list.selected == select_next_spec(
                s.set_list.selected as int,
                filter_spec(data, s.search_input.content@).len() as int,
            ) && t.search_mode && t.search_input == s.search_input
        } else {
            &&& t.search_mode
            &&& (t.search_input.content@, t.search_input.cursor as int) == text_key_spec(
                s.search_input.content@,
                s.search_input.cursor as int,
                key.code,
            )
            &&& t.active_panel == Panel::Sets
            &&& t.set_list == ScrollableList::new_spec()
        }
    }
    &&& !s.rename_mode && !s.search_mode ==> {
        &&& main_action_ok(s, data, key, res)
        &&& !key.ctrl && is_up(key.code) ==> match s.active_panel {
            Panel::Groups => t.group_list.selected == select_previous_spec(
                s.group_list.selected as int,
            ),
            Panel::Sets => if visible_spec(s, data).len() == 0 {
                t.active_panel == Panel::Groups
            } else {
                t.set_list.selected == select_previous_spec(s.set_list.selected as int)
            },
        }
        &&& !key.ctrl && is_down(key.code) ==> match s.active_panel {
            Panel::Groups => t.group_list.selected == select_next_spec(
                s.group_list.selected as int,
                data.len() as int,
            ),
            Panel::Sets => if visible_spec(s, data).len() == 0 {
                t.active_panel == Panel::Groups
            } else {
                t.set_list.selected == select_next_spec(
                    s.set_list.selected as int,
                    visible_spec(s, data).len() as int,
                )
            },
        }
        &&& key.code == KeyCode::Left ==> t.active_panel == Panel::Groups
        &&& key.code == KeyCode::Right ==> t.active_panel == (if s.active_panel == Panel::Groups
            && selected_group_has_sets(s, data) {
            Panel::Sets
        } else {
            s.active_panel
        })
        &&& key.code == KeyCode::Char('R') ==> if s.active_panel == Panel::Groups
            && selected_group_spec(s, data) is Some {
            t.rename_mode && t.rename_input.content@
                == data[s.group_list.selected as int].name@
        } else {
            !t.rename_mode
        }
        &&& key.code == KeyCode::Char('/') ==> t.search_mode && t.search_input.content@.len()
            == 0 && t.set_list.selected == 0 && t.active_panel == Panel::Sets
    }
}

impl MainScreenState {
    /// Groups panel focused, first rows selected, no search, no renaming.
    pub fn new() -> (res: Self)
        ensures
            fresh_main(&res),
    {
        MainScreenState {
            group_list: ScrollableList::new(),
            set_list: ScrollableList::new(),
            active_panel: Panel::Groups,
            search_mode: false,
            search_input: TextInput::new(String::new()),
            rename_mode: false,
            rename_input: TextInput::new(String::new()),
        }
    }

    /// The selected group index, if it names a group.
    pub fn selected_group_idx(&self, data: &AppData) -> (res: Option<usize>)
        ensures
            res == selected_group_spec(self, data@),
    {
        if self.group_list.selected < data.groups.len() {
            Some(self.group_list.selected)
        } else {
            None
        }
    }

    /// The selected set, if the selection names one.
    pub fn selected_set_idx(&self, data: &AppData) -> (res: Option<(usize, usize)>)
        ensures
            res == selected_set_spec(self, data@),
    {
        let gi = match self.selected_group_idx(data) {
            Some(g) => g,
            None => return None,
        };
        assert(data@[gi as int] == data.groups@[gi as int]@);
        if self.set_list.selected < data.groups[gi].sets.len() {
            Some((gi, self.set_list.selected))
        } else {
            None
        }
    }

    /// The sets shown in the right panel.
    pub fn visible_sets<'a>(&self, data: &'a AppData) -> (res: Vec<FilterResult<'a>>)
        ensures
            res@.len() == visible_spec(self, data@).len(),
            forall|k: int| #![trigger res@[k]] 0 <= k < res@.len() ==> {
                let (g, s) = visible_spec(self, data@)[k];
                &&& res@[k].group_index == g
                &&& res@[k].set_index == s
                &&& 0 <= g < data@.len()
                &&& 0 <= s < data@[g].sets.len()
                &&& res@[k].set@ == data@[g].sets[s]
            },
    {
        if self.search_mode {
            data.filter_sets(self.search_input.content.as_str())
        } else {
            match self.selected_group_idx(data) {
                Some(gi) => {
                    let group = &data.groups[gi];
                    assert(data@[gi as int] == group@);
                    let mut res: Vec<FilterResult<'a>> = Vec::new();
                    let mut si: usize = 0;
                    while si < group.sets.len()
                        invariant
                            si <= group.sets@.len(),
                            gi < data@.len(),
                            data@[gi as int] == group@,
                            res@.len() == si,
                            forall|k: int| #![trigger res@[k]] 0 <= k < si ==> {
                                &&& res@[k].group_index == gi
                                &&& res@[k].set_index == k
                                &&& res@[k].set@ == data@[gi as int].sets[k]
                            },
                        decreases group.sets@.len() - si,
                    {
                        res.push(FilterResult { group_index: gi, set_index: si, set: &group.sets[si], name_matches: Vec::new() });
                        si = si + 1;
                    }
                    res
                },
                None => Vec::new(),
            }
        }
    }

    /// Number of sets shown in the right panel.
    pub fn visible_count(&self, data: &AppData) -> (res: usize)
        ensures
            res == visible_spec(self, data@).len(),
    {
        let v = self.visible_sets(data);
        v.len()
    }
}

/// The selected group exists and holds sets.
pub open spec fn selected_group_has_sets(s: &MainScreenState, data: Seq<GroupView>) -> bool {
    match selected_group_spec(s, data) {
        Some(gi) => data[gi as int].sets.len() > 0,
        None => false,
    }
}

/// Up (or k/K).
pub open spec fn is_up(code: KeyCode) -> bool {
    code == KeyCode::Up || code == KeyCode::Char('k') || code == KeyCode::Char('K')
}

/// Down (or j/J).
pub open spec fn is_down(code: KeyCode) -> bool {
    code == KeyCode::Down || code == KeyCode::Char('j') || code == KeyCode::Char('J')
}

/// The action the main screen answers `key` with, outside rename and search
/// mode (`res` is the returned action).
pub open spec fn main_action_ok(s: &MainScreenState, data: Seq<GroupView>, key: KeyEvent, res: AppAction) -> bool {
    let code = key.code;
    if key.ctrl && (code == KeyCode::Up || code == KeyCode::Down) {
        let dir: isize = if code == KeyCode::Up { -1isize } else { 1isize };
        match s.active_panel {
            Panel::Groups => match selected_group_spec(s, data) {
                Some(gi) => res matches AppAction::Reorder(k, d) && k == crate::action::ReorderKind::Group(gi) && d == dir,
                None => res is Nothing,
            },
            Panel::Sets => match selected_set_spec(s, data) {
                Some((gi, si)) => res matches AppAction::Reorder(k, d) && k == crate::action::ReorderKind::CmdSet(gi, si)
                    && d == dir,
                None => res is Nothing,
            },
        }
    } else {
        match code {
            KeyCode::Enter => match selected_set_spec(s, data) {
                Some((gi, si)) if s.active_panel == Panel::Sets => res matches AppAction::ExecuteSet(g, t) && g == gi && t == si,
                _ => res is Nothing,
            },
            KeyCode::Char('e') | KeyCode::Char('E') => match selected_set_spec(s, data) {
                Some((gi, si)) if s.active_panel == Panel::Sets => res matches AppAction::EditSet(g, t) && g == gi && t == si,
                _ => res is Nothing,
            },
            KeyCode::Char('n') | KeyCode::Char('N') => match selected_group_spec(s, data) {
                Some(gi) => res matches AppAction::NewSet(g) && g == gi,
                None => res is Nothing,
            },
            KeyCode::Char('d') => match selected_set_spec(s, data) {
                Some((gi, si)) if s.active_panel == Panel::Sets => res matches AppAction::DeleteSet(g, t) && g == gi && t == si,
                _ => res is Nothing,
            },
            KeyCode::Char('D') => match selected_group_spec(s, data) {
                Some(gi) if s.active_panel == Panel::Groups => res matches AppAction::DeleteGroup(g) && g == gi,
                _ => res is Nothing,
            },
            KeyCode::Char('g') => res is NewGroup,
            KeyCode::Char('h') | KeyCode::Char('H') => if key.ctrl { res is Help } else { res is Nothing },
            KeyCode::Char('q') => res is Quit,
            _ => res is Nothing,
        }
    }
}

/// The key hints under the main screen: those of renaming, of searching,
/// or the list of every key.
pub open spec fn main_status_text(s: &MainScreenState) -> Seq<char> {
    if s.rename_mode {
        "[Enter] Confirm  [Esc] Cancel — renaming group"@
    } else if s.search_mode {
        "[Enter] Confirm  [Esc] Cancel  [↑/↓] Nav — searching"@
    } else {
        "[↑/↓] Nav  [←/→] Panel  [Ctrl+↑/↓] Move  [Enter] Run  [e] Edit  [n] New  [R] Rename  [d] Del set  [D] Del group  [g] New group  [/] Search  [q] Quit"@
    }
}

impl MainScreenState {
    /// The key hints under the main screen.
    pub fn status_text(&self) -> (res: &'static str)
        ensures
            res@ == main_status_text(self),
    {
        if self.rename_mode {
            "[Enter] Confirm  [Esc] Cancel — renaming group"
        } else if self.search_mode {
            "[Enter] Confirm  [Esc] Cancel  [↑/↓] Nav — searching"
        } else {
            "[↑/↓] Nav  [←/→] Panel  [Ctrl+↑/↓] Move  [Enter] Run  [e] Edit  [n] New  [R] Rename  [d] Del set  [D] Del group  [g] New group  [/] Search  [q] Quit"
        }
    }
}

impl MainScreenState {
    /// Handles a key on the main screen. Rename mode takes the keys first,
    /// then search mode; otherwise keys navigate and request actions.
    pub fn handle_key(&mut self, key: KeyEvent, data: &AppData) -> (res: AppAction)
        ensures
            main_key_post(old(self), final(self), key, data@, res),
    {
        if self.rename_mode {
            return match key.code {
                KeyCode::Enter => {
                    let name = self.rename_input.content.clone();
                    let gi = self.group_list.selected;
                    self.rename_mode = false;
                    AppAction::RenameGroup(gi, name)
                },
                KeyCode::Esc => {
                    self.rename_mode = false;
                    AppAction::Nothing
                },
                _ => {
                    handle_text_input(&mut self.rename_input, key);
                    AppAction::Nothing
                },
            };
        }
        if self.search_mode {
            match key.code {
                KeyCode::Esc => {
                    self.search_mode = false;
                    self.search_input = TextInput::new(String::new());
                    self.set_list.reset();
                    self.active_panel = Panel::Groups;
                },
                KeyCode::Enter => {
                    let results = data.filter_sets(self.search_input.content.as_str());
                    if self.set_list.selected < results.len() {
                        let r = &results[self.set_list.selected];
                        self.group_list.selected = r.group_index;
                        self.set_list.selected = r.set_index;
                        self.active_panel = Panel::Sets;
                    }
                    self.search_mode = false;
                    self.search_input = TextInput::new(String::new());
                },
                KeyCode::Up | KeyCode::Char('k') | KeyCode::Char('K') => {
                    self.set_list.select_previous();
                },
                KeyCode::Down | KeyCode::Char('j') | KeyCode::Char('J') => {
                    let results = data.filter_sets(self.search_input.content.as_str());
                    self.set_list.select_next(results.len());
                },
                _ => {
                    handle_text_input(&mut self.search_input, key);
                    self.active_panel = Panel::Sets;
                    self.set_list.reset();
                },
            }
            return AppAction::Nothing;
        }
        if key.ctrl && (key.code == KeyCode::Up || key.code == KeyCode::Down) {
            let dir: isize = if key.code == KeyCode::Up { -1 } else { 1 };
            return match self.active_panel {
                Panel::Groups => match self.selected_group_idx(data) {
                    Some(gi) => AppAction::Reorder(crate::action::ReorderKind::Group(gi), dir),
                    None => AppAction::Nothing,
                },
                Panel::Sets => match self.selected_set_idx(data) {
                    Some((gi, si)) => AppAction::Reorder(crate::action::ReorderKind::CmdSet(gi, si), dir),
                    None => AppAction::Nothing,
                },
            };
        }
        match key.code {
            KeyCode::Up | KeyCode::Char('k') | KeyCode::Char('K') => {
                match self.active_panel {
                    Panel::Groups => self.group_list.select_previous(),
                    Panel::Sets => {
                        if self.visible_count(data) == 0 {
                            self.active_panel = Panel::Groups;
                        } else {
                            self.set_list.select_previous();
                        }
                    },
                }
                AppAction::Nothing
            },
            KeyCode::Down | KeyCode::Char('j') | KeyCode::Char('J') => {
                match self.active_panel {
                    Panel::Groups => self.group_list.select_next(data.groups.len()),
                    Panel::Sets => {
                        let n = self.visible_count(data);
                        if n == 0 {
                            self.active_panel = Panel::Groups;
                        } else {
                            self.set_list.select_next(n);
                        }
                    },
                }
                AppAction::Nothing
            },
            KeyCode::Left => {
                self.active_panel = Panel::Groups;
                AppAction::Nothing
            },
            KeyCode::Right => {
                if self.active_panel == Panel::Groups {
                    match self.selected_group_idx(data) {
                        Some(gi) => {
                            assert(data@[gi as int] == data.groups@[gi as int]@);
                            if data.groups[gi].sets.len() > 0 {
                                self.active_panel = Panel::Sets;
                            }
                        },
                        None => {},
                    }
                }
                AppAction::Nothing
            },
            KeyCode::Enter => {
                if self.active_panel == Panel::Sets {
                    if let Some((gi, si)) = self.selected_set_idx(data) {
                        return AppAction::ExecuteSet(gi, si);
                    }
                }
                AppAction::Nothing
            },
            KeyCode::Char('e') | KeyCode::Char('E') => {
                if self.active_panel == Panel::Sets {
                    if let Some((gi, si)) = self.selected_set_idx(data) {
                        return AppAction::EditSet(gi, si);
                    }
                }
                AppAction::Nothing
            },
            KeyCode::Char('n') | KeyCode::Char('N') => {
                match self.selected_group_idx(data) {
                    Some(gi) => AppAction::NewSet(gi),
                    None => AppAction::Nothing,
                }
            },
            KeyCode::Char('d') => {
                if self.active_panel == Panel::Sets {
                    if let Some((gi, si)) = self.selected_set_idx(data) {
                        return AppAction::DeleteSet(gi, si);
                    }
                }
                AppAction::Nothing
            },
            KeyCode::Char('D') => {
                if self.active_panel == Panel::Groups {
                    if let Some(gi) = self.selected_group_idx(data) {
                        return AppAction::DeleteGroup(gi);
                    }
                }
                AppAction::Nothing
            },
            KeyCode::Char('g') => AppAction::NewGroup,
            KeyCode::Char('R') => {
                if self.active_panel == Panel::Groups {
                    if let Some(gi) = self.selected_group_idx(data) {
                        assert(data@[gi as int] == data.groups@[gi as int]@);
                        let current = data.groups[gi].name.clone();
                        self.rename_mode = true;
                        self.rename_input = TextInput::new(current);
                    }
                }
                AppAction::Nothing
            },
            KeyCode::Char('/') => {
                self.search_mode = true;
                self.search_input.clear();
                self.set_list.reset();
                self.active_panel = Panel::Sets;
                AppAction::Nothing
            },
            KeyCode::Char('h') | KeyCode::Char('H') => {
                if key.ctrl { AppAction::Help } else { AppAction::Nothing }
            },
            KeyCode::Char('q') => AppAction::Quit,
            _ => AppAction::Nothing,
        }
    }
}

} // verus!
