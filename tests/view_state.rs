use std::cell::RefCell;

use rs_mail_client::repo::{MailRepository, StorageError};
use rs_mail_client::view::{AppState, Focus, ViewMode};
use rs_mail_client::{EmailBody, EmailId, EmailSummary};

struct PagedRepo {
    pages: Vec<Vec<EmailSummary>>,
    calls: RefCell<u32>,
}

impl MailRepository for PagedRepo {
    fn upsert_summaries(&self, _items: &Vec<EmailSummary>) -> Result<(), StorageError> {
        Ok(())
    }
    fn upsert_body(&self, _body: &EmailBody) -> Result<(), StorageError> {
        Ok(())
    }
    fn list_page(&self, page: u32, _page_size: u32) -> Result<Vec<EmailSummary>, StorageError> {
        *self.calls.borrow_mut() += 1;
        Ok(self.pages.get(page as usize).cloned().unwrap_or_default())
    }
    fn get_body(&self, id: EmailId) -> Result<Option<EmailBody>, StorageError> {
        Ok(Some(EmailBody { id, body: format!("body {id}") }))
    }
    fn prune_keep_recent(&self, _keep: usize) -> Result<(), StorageError> {
        Ok(())
    }
    fn get_meta_i64(&self, _key: &str) -> Result<Option<i64>, StorageError> {
        Ok(None)
    }
    fn set_meta_i64(&self, _key: &str, _value: i64) -> Result<(), StorageError> {
        Ok(())
    }
}

fn summary(id: u32) -> EmailSummary {
    EmailSummary {
        id,
        from_name: format!("from {id}"),
        subject: format!("subject {id}"),
        snippet: String::new(),
        date_epoch: 0,
    }
}

fn repo() -> PagedRepo {
    PagedRepo {
        pages: vec![vec![summary(9), summary(8), summary(7)], vec![summary(6), summary(5)]],
        calls: RefCell::new(0),
    }
}

#[test]
fn new_state_lists_first_row() {
    let s = AppState::new();
    assert_eq!((s.page, s.page_size), (0, 20));
    assert_eq!(s.selected, Some(0));
    assert_eq!(s.mode, ViewMode::ListOnly);
    assert_eq!(s.focus, Focus::List);
    assert_eq!(s.current_selected_id(), None);
}

#[test]
fn selection_moves_within_page() {
    let r = repo();
    let mut s = AppState::new();
    s.reload_page(&r).unwrap();
    assert_eq!(s.current_selected_id(), Some(9));
    s.move_selection(1);
    assert_eq!(s.current_selected_id(), Some(8));
    s.move_selection(10);
    assert_eq!(s.selected, Some(2));
    s.move_selection(-5);
    assert_eq!(s.selected, Some(0));
    s.move_selection(i32::MIN);
    assert_eq!(s.selected, Some(0));
    s.set_items(vec![]);
    assert_eq!(s.selected, None);
    s.move_selection(1);
    assert_eq!(s.selected, None);
}

#[test]
fn paging_selects_first_or_last_row() {
    let r = repo();
    let mut s = AppState::new();
    s.page_prev(&r).unwrap();
    assert_eq!(*r.calls.borrow(), 0);
    s.page_next(&r).unwrap();
    assert_eq!(s.page, 1);
    assert_eq!(s.current_selected_id(), Some(6));
    s.page_prev(&r).unwrap();
    assert_eq!(s.page, 0);
    assert_eq!(s.current_selected_id(), Some(7));
}

#[test]
fn open_and_close_messages() {
    let r = repo();
    let mut s = AppState::new();
    s.reload_page(&r).unwrap();
    s.move_selection(1);
    s.open_selected(&r).unwrap();
    assert_eq!(s.mode, ViewMode::Split);
    assert_eq!(s.focus, Focus::Body);
    assert_eq!(s.opened_id, Some(8));
    assert_eq!(s.body.as_ref().unwrap().body, "body 8");
    let (from, subject) = s.opened_email_meta();
    assert_eq!((from.as_str(), subject.as_str()), ("from 8", "subject 8"));

    s.open_uid(&r, 7).unwrap();
    assert_eq!(s.current_selected_id(), Some(7));
    s.open_uid(&r, 42).unwrap();
    assert_eq!(s.current_selected_id(), Some(7));
    let (from, subject) = s.opened_email_meta();
    assert_eq!((from.as_str(), subject.as_str()), ("(not in current page)", "UID 42"));

    s.close_email();
    assert_eq!(s.mode, ViewMode::ListOnly);
    assert_eq!(s.opened_id, None);
    let (from, subject) = s.opened_email_meta();
    assert_eq!((from.as_str(), subject.as_str()), ("(none)", "(press Enter to open)"));
}

#[test]
fn focus_and_scrolling() {
    let mut s = AppState::new();
    s.toggle_focus();
    assert_eq!(s.focus, Focus::List);
    s.scroll_body(5);
    assert_eq!(s.body_scroll, 0);
    s.mode = ViewMode::Split;
    s.toggle_focus();
    assert_eq!(s.focus, Focus::Body);
    s.toggle_focus();
    assert_eq!(s.focus, Focus::List);
    s.scroll_body(5);
    s.scroll_body(-2);
    assert_eq!(s.body_scroll, 3);
    s.scroll_body(-10);
    assert_eq!(s.body_scroll, 0);
    s.scroll_body(i32::MAX);
    assert_eq!(s.body_scroll, u16::MAX);
    s.mode = ViewMode::Help;
    s.toggle_focus();
    assert_eq!(s.focus, Focus::Help);
}
