use vstd::prelude::*;

verus! {

/// Mailbox-assigned message identifier (IMAP UID).
pub type EmailId = u32;

/// Metadata of one message as it is cached and shown in lists.
#[derive(Debug)]
pub struct EmailSummary {
    pub id: EmailId,
    pub from_name: String,
    pub subject: String,
    pub snippet: String,
    pub date_epoch: i64,
}

/// Plain-text rendering of one message.
#[derive(Debug)]
pub struct EmailBody {
    pub id: EmailId,
    pub body: String,
}

impl Clone for EmailSummary {
    fn clone(&self) -> (r: Self)
        ensures
            r == *self,
    {
        EmailSummary {
            id: self.id,
            from_name: self.from_name.clone(),
            subject: self.subject.clone(),
            snippet: self.snippet.clone(),
            date_epoch: self.date_epoch,
        }
    }
}

impl Clone for EmailBody {
    fn clone(&self) -> (r: Self)
        ensures
            r == *self,
    {
        EmailBody { id: self.id, body: self.body.clone() }
    }
}

} // verus!
