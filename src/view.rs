use vstd::prelude::*;
use crate::chars::owned;
use crate::control::decimal_string;
use crate::email::{EmailBody, EmailId, EmailSummary};
use crate::repo::{MailRepository, StorageError};

verus! {

/// Which pane of the reader takes keys.
#[derive(Debug, Clone, Copy, PartialEq, Eq, Structural)]
pub enum Focus {
    List,
    Body,
    Help,
}

/// Layout of the reader.
#[derive(Debug, Clone, Copy, PartialEq, Eq, Structural)]
pub enum ViewMode {
    ListOnly,
    Split,
    Menu,
    Help,
}

/// An entry of a to-do list form.
#[derive(Debug, Clone)]
pub struct TodoItem {
    pub is_done: bool,
    pub description: String,
}

/// Outcome of a key press in a form.
#[derive(Debug, Clone, Copy, PartialEq, Eq, Structural)]
pub enum FormAction {
    /// The key changed nothing that the form acts on.
    NoAction,
    Submit,
    Escape,
}

/// State of the reading surface: one page of cached summaries, the selected
/// row, and the message opened beside the list.
#[derive(Debug)]
pub struct AppState {
    pub page: u32,
    pub page_size: u32,
    pub items: Vec<EmailSummary>,
    /// Selected row of `items`.
    pub selected: Option<usize>,
    /// The message opened in the right pane (in split mode).
    pub opened_id: Option<EmailId>,
    pub body: Option<EmailBody>,
    pub body_scroll: u16,
    pub focus: Focus,
    pub mode: ViewMode,
    pub previous_focus: Option<Focus>,
    pub previous: Option<ViewMode>,
}

/// Identifier of the selected row, if the selection points at a row.
pub open spec fn selected_id(items: Seq<EmailSummary>, selected: Option<usize>) -> Option<EmailId> {
    match selected {
        Some(i) => if i < items.len() {
            Some(items[i as int].id)
        } else {
            None
        },
        None => None,
    }
}

/// `cur + delta` clamped to the rows `0..len` (requires `len > 0`).
pub open spec fn clamped_row(cur: int, delta: int, len: int) -> int {
    if cur + delta < 0 {
        0
    } else if cur + delta > len - 1 {
        len - 1
    } else {
        cur + delta
    }
}

impl AppState {
    /// A reader on page 0 of 20 rows, list only, first row selected.
    pub fn new() -> (r: AppState)
        ensures
            r.page == 0 && r.page_size == 20,
            r.items@.len() == 0,
            r.selected == Some(0usize),
            r.opened_id is None && r.body is None && r.body_scroll == 0,
            r.focus == Focus::List && r.mode == ViewMode::ListOnly,
            r.previous is None && r.previous_focus is None,
    {
        AppState {
            page: 0,
            page_size: 20,
            items: Vec::new(),
            selected: Some(0),
            opened_id: None,
            body: None,
            body_scroll: 0,
            focus: Focus::List,
            mode: ViewMode::ListOnly,
            previous: None,
            previous_focus: None,
        }
    }

    /// Replaces the rows with a freshly listed page; an empty page clears the
    /// selection, and a page that gains rows selects the first one.
    pub fn set_items(&mut self, items: Vec<EmailSummary>)
        ensures
            final(self).items == items,
            final(self).selected == if items@.len() == 0 {
                None
            } else if old(self).selected is None {
                Some(0usize)
            } else {
                old(self).selected
            },
            final(self).page == old(self).page,
            final(self).page_size == old(self).page_size,
            final(self).opened_id == old(self).opened_id,
            final(self).mode == old(self).mode,
            final(self).focus == old(self).focus,
    {
        let empty = items.len() == 0;
        self.items = items;
        if empty {
            self.selected = None;
        } else if self.selected.is_none() {
            self.selected = Some(0);
        }
    }

    /// Reloads the current page from the cache.
    pub fn reload_page<R: MailRepository>(&mut self, repo: &R) -> (r: Result<(), StorageError>)
        ensures
            r is Err ==> *final(self) == *old(self),
            final(self).page == old(self).page,
            final(self).mode == old(self).mode,
    {
        let items = repo.list_page(self.page, self.page_size)?;
        self.set_items(items);
        Ok(())
    }

    pub fn current_selected_id(&self) -> (r: Option<EmailId>)
        ensures
            r == selected_id(self.items@, self.selected),
    {
        match self.selected {
            Some(i) => if i < self.items.len() {
                Some(self.items[i].id)
            } else {
                None
            },
            None => None,
        }
    }

    /// Selects the first row carrying `id`, if any; otherwise leaves the
    /// selection as it is.
    pub fn try_select_id(&mut self, id: EmailId)
        ensures
            final(self).items == old(self).items,
            final(self).mode == old(self).mode,
            final(self).focus == old(self).focus,
            final(self).body_scroll == old(self).body_scroll,
            final(self).opened_id == old(self).opened_id,
            final(self).page == old(self).page,
            match final(self).selected {
                Some(p) => (p < old(self).items@.len() && old(self).items@[p as int].id == id
                    && forall|k: int| 0 <= k < p ==> old(self).items@[k].id != id)
                    || final(self).selected == old(self).selected,
                None => final(self).selected == old(self).selected,
            },
            (exists|k: int| 0 <= k < old(self).items@.len() && old(self).items@[k].id == id)
                ==> selected_id(final(self).items@, final(self).selected) == Some(id),
            !(exists|k: int| 0 <= k < old(self).items@.len() && old(self).items@[k].id == id)
                ==> final(self).selected == old(self).selected,
    {
        let mut i: usize = 0;
        while i < self.items.len()
            invariant
                0 <= i <= self.items@.len(),
                *self == *old(self),
                forall|k: int| 0 <= k < i ==> self.items@[k].id != id,
            decreases self.items.len() - i,
        {
            if self.items[i].id == id {
                self.selected = Some(i);
                return;
            }
            i = i + 1;
        }
    }

    /// Moves the selection by `delta` rows, clamped to the page; an empty page
    /// has no selection. The opened message does not change.
    pub fn move_selection(&mut self, delta: i32)
        ensures
            final(self).items == old(self).items,
            final(self).opened_id == old(self).opened_id,
            old(self).items@.len() == 0 ==> final(self).selected is None,
            old(self).items@.len() > 0 ==> final(self).selected is Some && final(self).selected->0
                == clamped_row(
                match old(self).selected {
                    Some(c) => c as int,
                    None => 0,
                },
                delta as int,
                old(self).items@.len() as int,
            ),
    {
        if self.items.len() == 0 {
            self.selected = None;
            return;
        }
        let cur: usize = match self.selected {
            Some(c) => c,
            None => 0,
        };
        let len = self.items.len();
        let next: usize = if delta < 0 {
            let back = (-(delta as i64)) as usize;
            if cur < back {
                0
            } else if cur - back > len - 1 {
                len - 1
            } else {
                cur - back
            }
        } else {
            let fwd = delta as usize;
            if cur > len - 1 || fwd > len - 1 - cur {
                len - 1
            } else {
                cur + fwd
            }
        };
        self.selected = Some(next);
    }

    /// Opens the selected message beside the list, with its cached body.
    pub fn open_selected<R: MailRepository>(&mut self, repo: &R) -> (r: Result<(), StorageError>)
        ensures
            final(self).mode == ViewMode::Split,
            final(self).focus == Focus::Body,
            final(self).body_scroll == 0,
            final(self).opened_id == selected_id(old(self).items@, old(self).selected),
            final(self).items == old(self).items,
            final(self).opened_id is None ==> final(self).body is None,
    {
        self.mode = ViewMode::Split;
        self.focus = Focus::Body;
        self.body_scroll = 0;
        self.opened_id = self.current_selected_id();
        self.body = None;
        if let Some(id) = self.opened_id {
            self.body = repo.get_body(id)?;
        }
        Ok(())
    }

    /// Opens message `id` directly (as a notification click does) and selects
    /// its row when it is on the page.
    pub fn open_uid<R: MailRepository>(&mut self, repo: &R, id: EmailId) -> (r: Result<
        (),
        StorageError,
    >)
        ensures
            final(self).mode == ViewMode::Split,
            final(self).focus == Focus::Body,
            final(self).body_scroll == 0,
            final(self).opened_id == Some(id),
            final(self).items == old(self).items,
            r is Ok && (exists|k: int| 0 <= k < old(self).items@.len() && old(self).items@[k].id == id)
                ==> selected_id(final(self).items@, final(self).selected) == Some(id),
    {
        self.mode = ViewMode::Split;
        self.focus = Focus::Body;
        self.body_scroll = 0;
        self.opened_id = Some(id);
        self.body = repo.get_body(id)?;
        self.try_select_id(id);
        Ok(())
    }

    /// Closes the opened message and returns to the list.
    pub fn close_email(&mut self)
        ensures
            final(self).mode == ViewMode::ListOnly,
            final(self).focus == Focus::List,
            final(self).opened_id is None,
            final(self).body is None,
            final(self).body_scroll == 0,
            final(self).items == old(self).items,
            final(self).selected == old(self).selected,
    {
        self.mode = ViewMode::ListOnly;
        self.focus = Focus::List;
        self.opened_id = None;
        self.body = None;
        self.body_scroll = 0;
    }

    /// Switches focus between list and body in split mode; in help mode the
    /// help pane takes focus; otherwise nothing changes.
    pub fn toggle_focus(&mut self)
        ensures
            final(self).mode == old(self).mode,
            final(self).focus == if old(self).mode == ViewMode::Help {
                Focus::Help
            } else if old(self).mode != ViewMode::Split {
                old(self).focus
            } else {
                match old(self).focus {
                    Focus::List => Focus::Body,
                    Focus::Body => Focus::List,
                    Focus::Help => Focus::Help,
                }
            },
    {
        if self.mode == ViewMode::Help {
            self.focus = Focus::Help;
            return;
        }
        if self.mode != ViewMode::Split {
            return;
        }
        self.focus = match self.focus {
            Focus::List => Focus::Body,
            Focus::Body => Focus::List,
            Focus::Help => Focus::Help,
        };
    }

    /// Scrolls the opened body by `delta` lines in split mode, staying within
    /// `0..=u16::MAX`.
    pub fn scroll_body(&mut self, delta: i32)
        ensures
            old(self).mode != ViewMode::Split ==> final(self).body_scroll == old(self).body_scroll,
            old(self).mode == ViewMode::Split ==> final(self).body_scroll == if old(
                self,
            ).body_scroll + delta < 0 {
                0
            } else if old(self).body_scroll + delta > u16::MAX {
                u16::MAX as int
            } else {
                old(self).body_scroll + delta
            },
    {
        if self.mode != ViewMode::Split {
            return;
        }
        let target: i64 = self.body_scroll as i64 + delta as i64;
        self.body_scroll = if target < 0 {
            0
        } else if target > u16::MAX as i64 {
            u16::MAX
        } else {
            target as u16
        };
    }

    /// Moves to the next (older) page and selects its first row.
    pub fn page_next<R: MailRepository>(&mut self, repo: &R) -> (r: Result<(), StorageError>)
        ensures
            r is Ok ==> final(self).page == if old(self).page == u32::MAX {
                u32::MAX
            } else {
                (old(self).page + 1) as u32
            },
            r is Ok && final(self).items@.len() > 0 ==> final(self).selected == Some(0usize),
    {
        self.page = if self.page == u32::MAX {
            u32::MAX
        } else {
            self.page + 1
        };
        self.reload_page(repo)?;
        if self.items.len() > 0 {
            self.selected = Some(0);
        }
        Ok(())
    }

    /// Moves to the previous (newer) page and selects its last row; on page 0
    /// nothing changes.
    pub fn page_prev<R: MailRepository>(&mut self, repo: &R) -> (r: Result<(), StorageError>)
        ensures
            old(self).page == 0 ==> r is Ok && *final(self) == *old(self),
            old(self).page > 0 && r is Ok ==> final(self).page == old(self).page - 1,
            old(self).page > 0 && r is Ok && final(self).items@.len() > 0 ==> final(self).selected
                == Some((final(self).items@.len() - 1) as usize),
    {
        if self.page == 0 {
            return Ok(());
        }
        self.page = self.page - 1;
        self.reload_page(repo)?;
        if self.items.len() > 0 {
            self.selected = Some(self.items.len() - 1);
        }
        Ok(())
    }

    /// Sender and subject shown above the opened message.
    pub fn opened_email_meta(&self) -> (r: (String, String))
        ensures
            self.opened_id is None ==> r.0@ == "(none)"@ && r.1@ == "(press Enter to open)"@,
            self.opened_id is Some ==> ((exists|k: int|
                0 <= k < self.items@.len() && self.items@[k].id == self.opened_id->0 && r.0
                    == self.items@[k].from_name && r.1 == self.items@[k].subject) || (!(exists|k: int|
                0 <= k < self.items@.len() && self.items@[k].id == self.opened_id->0) && r.0@
                == "(not in current page)"@)),
    {
        let id = match self.opened_id {
            Some(id) => id,
            None => {
                return (owned("(none)"), owned("(press Enter to open)"));
            },
        };
        let mut i: usize = 0;
        while i < self.items.len()
            invariant
                0 <= i <= self.items@.len(),
                self.opened_id == Some(id),
                forall|k: int| 0 <= k < i ==> self.items@[k].id != id,
            decreases self.items.len() - i,
        {
            if self.items[i].id == id {
                return (self.items[i].from_name.clone(), self.items[i].subject.clone());
            }
            i = i + 1;
        }
        let a = owned("(not in current page)");
        let mut b = owned("UID ");
        let digits = decimal_string(id);
        b.append(digits.as_str());
        (a, b)
    }
}

} // verus!
