use vstd::prelude::*;

use crate::backlog::admitted;

verus! {

/// The persisted record: everything needed to rebuild the destination
/// session, together with the cursor of the last forwarded message.
/// It is rewritten as a whole — read the record, change one field,
/// write the record — so concurrently unrelated fields are never
/// corrupted.
pub struct SessionRecord {
    pub homeserver: String,
    pub db_path: String,
    pub passphrase: String,
    pub last_id: Option<i64>,
}

impl SessionRecord {
    /// The read-modify-write step of cursor persistence: a record equal
    /// to this one in every session field, with the cursor replaced.
    /// An absent cursor value changes nothing, as there is nothing to
    /// persist before the first delivery.
    pub fn with_last_id(self, last_id: Option<i64>) -> (r: SessionRecord)
        ensures
            r.homeserver == self.homeserver,
            r.db_path == self.db_path,
            r.passphrase == self.passphrase,
            last_id is Some ==> r.last_id == last_id,
            last_id is None ==> r.last_id == self.last_id,
    {
        match last_id {
            Option::Some(id) => SessionRecord { last_id: Option::Some(id), ..self },
            Option::None => self,
        }
    }
}

/// Cursor order: `a` precedes `b` when everything forwarded under `a`
/// is also behind `b`. An absent cursor precedes everything.
pub open spec fn cursor_le(a: Option<i64>, b: Option<i64>) -> bool {
    match a {
        None => true,
        Some(x) => b is Some && x <= b->0,
    }
}

/// Advancing the cursor to a message it admitted never moves it
/// backwards: once advanced, the cursor is monotonically
/// non-decreasing.
pub proof fn lemma_cursor_monotone(cursor: Option<i64>, id: i64)
    requires
        admitted(id, cursor),
    ensures
        cursor_le(cursor, Some(id)),
{
}

} // verus!
