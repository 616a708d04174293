//! Chat sessions and their messages, and the bookkeeping the application
//! performs on its persisted list of sessions: finding, upserting, renaming,
//! clearing and deleting a session by its identifier.
//!
//! Identifiers are fresh UUIDs and timestamps come from the system clock
//! (see [`crate::ids`]); everything else is pinned down exactly.

use crate::ids::{current_timestamp, fresh_uuid_string};
use vstd::prelude::*;

verus! {

/// Who authored a chat message.
#[derive(Clone, Copy, PartialEq, Eq, Structural, Debug)]
pub enum MessageRole {
    User,
    Assistant,
    System,
}

/// One chat message.
#[derive(Debug)]
pub struct ChatMessage {
    pub id: String,
    pub content: String,
    pub role: MessageRole,
    pub timestamp: i64,
    pub attachments: Vec<String>,
}

impl ChatMessage {
    /// A fresh user message: a new identifier, the given content, the
    /// current time, and no attachments.
    pub fn new_user(content: String) -> (m: ChatMessage)
        ensures
            m.id@.len() == 36,
            m.content == content,
            m.role == MessageRole::User,
            m.timestamp >= 0,
            m.attachments@.len() == 0,
    {
        ChatMessage {
            id: fresh_uuid_string(),
            content,
            role: MessageRole::User,
            timestamp: current_timestamp(),
            attachments: Vec::new(),
        }
    }

    /// A fresh assistant message: a new identifier, the given content, the
    /// current time, and no attachments.
    pub fn new_assistant(content: String) -> (m: ChatMessage)
        ensures
            m.id@.len() == 36,
            m.content == content,
            m.role == MessageRole::Assistant,
            m.timestamp >= 0,
            m.attachments@.len() == 0,
    {
        ChatMessage {
            id: fresh_uuid_string(),
            content,
            role: MessageRole::Assistant,
            timestamp: current_timestamp(),
            attachments: Vec::new(),
        }
    }
}

/// One chat session: an identified, named, ordered list of messages.
#[derive(Debug)]
pub struct ChatSession {
    pub id: String,
    pub name: String,
    pub messages: Vec<ChatMessage>,
    pub created_at: i64,
    pub updated_at: i64,
    pub is_active: bool,
}

impl ChatSession {
    /// A fresh, inactive, empty session with the given name, stamped with
    /// one reading of the clock.
    pub fn new(name: String) -> (s: ChatSession)
        ensures
            s.id@.len() == 36,
            s.name == name,
            s.messages@.len() == 0,
            s.created_at == s.updated_at,
            s.created_at >= 0,
            !s.is_active,
    {
        let now = current_timestamp();
        ChatSession {
            id: fresh_uuid_string(),
            name,
            messages: Vec::new(),
            created_at: now,
            updated_at: now,
            is_active: false,
        }
    }

    /// Appends a message at the end of the session and refreshes the update
    /// time; nothing else changes.
    pub fn add_message(&mut self, message: ChatMessage)
        ensures
            final(self).messages@ == old(self).messages@.push(message),
            final(self).id == old(self).id,
            final(self).name == old(self).name,
            final(self).created_at == old(self).created_at,
            final(self).is_active == old(self).is_active,
            final(self).updated_at >= 0,
    {
        self.messages.push(message);
        self.updated_at = current_timestamp();
    }

    /// Removes every message from the session and refreshes the update time;
    /// nothing else changes.
    pub fn clear_messages(&mut self)
        ensures
            final(self).messages@.len() == 0,
            final(self).id == old(self).id,
            final(self).name == old(self).name,
            final(self).created_at == old(self).created_at,
            final(self).is_active == old(self).is_active,
            final(self).updated_at >= 0,
    {
        self.messages.clear();
        self.updated_at = current_timestamp();
    }
}

/// Whether some session in the list carries this identifier.
pub open spec fn has_session(sessions: Seq<ChatSession>, id: Seq<char>) -> bool {
    exists|j: int| 0 <= j < sessions.len() && (#[trigger] sessions[j]).id@ == id
}

/// Whether `i` is the first position in the list whose session carries this
/// identifier.
pub open spec fn is_first_session_index(sessions: Seq<ChatSession>, id: Seq<char>, i: int) -> bool {
    &&& 0 <= i < sessions.len()
    &&& sessions[i].id@ == id
    &&& forall|j: int| 0 <= j < i ==> (#[trigger] sessions[j]).id@ != id
}

/// Finds the first session with the given identifier.
pub fn find_session(sessions: &Vec<ChatSession>, session_id: &String) -> (r: Option<usize>)
    ensures
        match r {
            Some(i) => is_first_session_index(sessions@, session_id@, i as int),
            None => !has_session(sessions@, session_id@),
        },
{
    let n = sessions.len();
    let mut i: usize = 0;
    while i < n
        invariant
            n == sessions@.len(),
            i <= n,
            forall|j: int| 0 <= j < i ==> (#[trigger] sessions@[j]).id@ != session_id@,
        decreases n - i,
    {
        if sessions[i].id == *session_id {
            return Some(i);
        }
        i = i + 1;
    }
    None
}

/// Stores a session in the list: it replaces the first session with the same
/// identifier, or is appended at the end when the identifier is new.
pub fn upsert_session(sessions: &mut Vec<ChatSession>, session: ChatSession)
    ensures
        !has_session(old(sessions)@, session.id@) ==> final(sessions)@ == old(sessions)@.push(
            session,
        ),
        has_session(old(sessions)@, session.id@) ==> exists|i: int|
            is_first_session_index(old(sessions)@, session.id@, i) && final(sessions)@ == old(
                sessions,
            )@.update(i, session),
{
    match find_session(sessions, &session.id) {
        Some(i) => {
            sessions[i] = session;
        },
        None => {
            sessions.push(session);
        },
    }
}

/// Deletes every session with the given identifier, keeping the order of the
/// rest.
pub fn remove_session(sessions: &mut Vec<ChatSession>, session_id: &String)
    ensures
        final(sessions)@ == old(sessions)@.filter(
            |s: ChatSession| s.id@ != session_id@,
        ),
{
    let ghost orig = sessions@;
    let mut kept: Vec<ChatSession> = Vec::new();
    let ghost mut k: int = 0;
    while sessions.len() > 0
        invariant
            orig.len() == k + sessions@.len(),
            0 <= k <= orig.len(),
            sessions@ == orig.skip(k),
            kept@ == orig.take(k).filter(|s: ChatSession| s.id@ != session_id@),
        decreases sessions@.len(),
    {
        let s = sessions.remove(0);
        proof {
            assert(s == orig[k]);
            assert(sessions@ =~= orig.skip(k + 1));
        }
        let keep = !(s.id == *session_id);
        if keep {
            kept.push(s);
        }
        proof {
            reveal_with_fuel(Seq::filter, 2);
            let prefix = orig.take(k + 1);
            assert(prefix.drop_last() =~= orig.take(k));
            assert(prefix.last() == orig[k]);
            assert(kept@ =~= prefix.filter(|s: ChatSession| s.id@ != session_id@));
            k = k + 1;
        }
    }
    proof {
        assert(orig.take(k) =~= orig);
    }
    *sessions = kept;
}

/// Empties the messages of the first session with the given identifier and
/// refreshes its update time; with no such session the list is unchanged.
pub fn clear_session_messages(sessions: &mut Vec<ChatSession>, session_id: &String)
    ensures
        !has_session(old(sessions)@, session_id@) ==> final(sessions)@ == old(sessions)@,
        has_session(old(sessions)@, session_id@) ==> exists|i: int|
            {
                &&& is_first_session_index(old(sessions)@, session_id@, i)
                &&& final(sessions)@.len() == old(sessions)@.len()
                &&& forall|j: int|
                    0 <= j < old(sessions)@.len() && j != i ==> final(sessions)@[j] == old(
                        sessions,
                    )@[j]
                &&& final(sessions)@[i].messages@.len() == 0
                &&& final(sessions)@[i].id == old(sessions)@[i].id
                &&& final(sessions)@[i].name == old(sessions)@[i].name
                &&& final(sessions)@[i].created_at == old(sessions)@[i].created_at
                &&& final(sessions)@[i].is_active == old(sessions)@[i].is_active
                &&& final(sessions)@[i].updated_at >= 0
            },
{
    match find_session(sessions, session_id) {
        Some(i) => {
            let mut s = sessions.remove(i);
            s.clear_messages();
            let ghost s2 = s;
            sessions.insert(i, s);
            proof {
                assert(sessions@ =~= old(sessions)@.update(i as int, s2));
                assert(is_first_session_index(old(sessions)@, session_id@, i as int));
            }
        },
        None => {
        },
    }
}

/// Renames the first session with the given identifier; with no such session
/// the list is unchanged.
pub fn rename_session(sessions: &mut Vec<ChatSession>, session_id: &String, new_name: String)
    ensures
        !has_session(old(sessions)@, session_id@) ==> final(sessions)@ == old(sessions)@,
        has_session(old(sessions)@, session_id@) ==> exists|i: int|
            {
                &&& is_first_session_index(old(sessions)@, session_id@, i)
                &&& final(sessions)@.len() == old(sessions)@.len()
                &&& forall|j: int|
                    0 <= j < old(sessions)@.len() && j != i ==> final(sessions)@[j] == old(
                        sessions,
                    )@[j]
                &&& final(sessions)@[i].name == new_name
                &&& final(sessions)@[i].id == old(sessions)@[i].id
                &&& final(sessions)@[i].messages == old(sessions)@[i].messages
                &&& final(sessions)@[i].created_at == old(sessions)@[i].created_at
                &&& final(sessions)@[i].updated_at == old(sessions)@[i].updated_at
                &&& final(sessions)@[i].is_active == old(sessions)@[i].is_active
            },
{
    match find_session(sessions, session_id) {
        Some(i) => {
            let mut s = sessions.remove(i);
            s.name = new_name;
            let ghost s2 = s;
            sessions.insert(i, s);
            proof {
                assert(sessions@ =~= old(sessions)@.update(i as int, s2));
                assert(is_first_session_index(old(sessions)@, session_id@, i as int));
            }
        },
        None => {
        },
    }
}

/// Appends a message to the first session with the given identifier and
/// refreshes its update time; with no such session the list is unchanged.
pub fn append_session_message(
    sessions: &mut Vec<ChatSession>,
    session_id: &String,
    message: ChatMessage,
)
    ensures
        !has_session(old(sessions)@, session_id@) ==> final(sessions)@ == old(sessions)@,
        has_session(old(sessions)@, session_id@) ==> exists|i: int|
            {
                &&& is_first_session_index(old(sessions)@, session_id@, i)
                &&& final(sessions)@.len() == old(sessions)@.len()
                &&& forall|j: int|
                    0 <= j < old(sessions)@.len() && j != i ==> final(sessions)@[j] == old(
                        sessions,
                    )@[j]
                &&& final(sessions)@[i].messages@ == old(sessions)@[i].messages@.push(message)
                &&& final(sessions)@[i].id == old(sessions)@[i].id
                &&& final(sessions)@[i].name == old(sessions)@[i].name
                &&& final(sessions)@[i].created_at == old(sessions)@[i].created_at
                &&& final(sessions)@[i].is_active == old(sessions)@[i].is_active
                &&& final(sessions)@[i].updated_at >= 0
            },
{
    match find_session(sessions, session_id) {
        Some(i) => {
            let mut s = sessions.remove(i);
            s.add_message(message);
            let ghost s2 = s;
            sessions.insert(i, s);
            proof {
                assert(sessions@ =~= old(sessions)@.update(i as int, s2));
                assert(is_first_session_index(old(sessions)@, session_id@, i as int));
            }
        },
        None => {
        },
    }
}

} // verus!
