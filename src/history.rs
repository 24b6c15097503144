//! Entries of the conversation history, as the history store keeps them.

use vstd::prelude::*;

verus! {

/// One stored message of a session. `created_at` is in milliseconds since
/// the Unix epoch, UTC.
#[derive(Debug, Clone)]
pub struct Message {
    pub id: Option<i64>,
    pub session_id: String,
    pub role: String,
    pub content: String,
    pub created_at: i64,
}

/// Relies on std's SystemTime::now, chrono's From<SystemTime> for
/// DateTime<Utc> (which takes clocks before 1970 too) and
/// DateTime::timestamp_millis: the current time, of which nothing is claimed.
#[verifier::external_body]
fn now_millis() -> (r: i64) {
    chrono::DateTime::<chrono::Utc>::from(std::time::SystemTime::now()).timestamp_millis()
}

impl Message {
    /// A message stamped with the current time, not yet stored.
    pub fn new(session_id: String, role: String, content: String) -> (r: Message)
        ensures
            r.id is None,
            r.session_id == session_id,
            r.role == role,
            r.content == content,
    {
        Message { id: None, session_id, role, content, created_at: now_millis() }
    }

    pub fn user(session_id: String, content: String) -> (r: Message)
        ensures
            r.id is None,
            r.session_id == session_id,
            r.role@ == "user"@,
            r.content == content,
    {
        Message::new(session_id, String::from_str("user"), content)
    }

    pub fn assistant(session_id: String, content: String) -> (r: Message)
        ensures
            r.id is None,
            r.session_id == session_id,
            r.role@ == "assistant"@,
            r.content == content,
    {
        Message::new(session_id, String::from_str("assistant"), content)
    }

    pub fn system(session_id: String, content: String) -> (r: Message)
        ensures
            r.id is None,
            r.session_id == session_id,
            r.role@ == "system"@,
            r.content == content,
    {
        Message::new(session_id, String::from_str("system"), content)
    }

    pub fn tool(session_id: String, content: String) -> (r: Message)
        ensures
            r.id is None,
            r.session_id == session_id,
            r.role@ == "tool"@,
            r.content == content,
    {
        Message::new(session_id, String::from_str("tool"), content)
    }
}

} // verus!
