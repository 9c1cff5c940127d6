//! Chat history records as the desktop UI stores and shows them.
use vstd::prelude::*;
use crate::text::owned;

verus! {

/// A chat session.
pub struct ChatSession {
    pub id: String,
    pub title: String,
    pub created_at: String,
    pub updated_at: String,
}

/// A stored chat message.
pub struct DbMessage {
    pub id: String,
    pub session_id: String,
    pub role: String,
    pub content: String,
    pub timestamp: String,
}

/// A session created at `now` under `id`: created and updated at that time.
pub fn new_chat_session(id: &str, title: &str, now: &str) -> (res: ChatSession)
    ensures
        res.id@ == id@,
        res.title@ == title@,
        res.created_at@ == now@,
        res.updated_at@ == now@,
{
    ChatSession { id: owned(id), title: owned(title), created_at: owned(now), updated_at: owned(now) }
}

/// A message saved at `now` under `id` in `session_id`.
pub fn new_db_message(id: &str, session_id: &str, role: &str, content: &str, now: &str) -> (res: DbMessage)
    ensures
        res.id@ == id@,
        res.session_id@ == session_id@,
        res.role@ == role@,
        res.content@ == content@,
        res.timestamp@ == now@,
{
    DbMessage {
        id: owned(id),
        session_id: owned(session_id),
        role: owned(role),
        content: owned(content),
        timestamp: owned(now),
    }
}

} // verus!
