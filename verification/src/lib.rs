//! A minimal in-memory task entity with guarded lifecycle transitions.
//!
//! A [`Todo`] carries an immutable title, a [`TodoStatus`] and a one-way
//! soft-delete flag. The transitions `skip` and `complete` are guarded:
//! both are rejected on a deleted todo, and `skip` is also rejected on a
//! completed one. `delete` always succeeds and is idempotent; it sets the
//! flag and leaves the status untouched, so a deleted todo remains
//! inspectable.

use vstd::prelude::*;
use vstd::string::StringExecFns;

verus! {

/// Lifecycle state of a [`Todo`]: exactly one of these three variants.
#[derive(Clone, Copy, Debug, PartialEq, Eq, Structural)]
pub enum TodoStatus {
    Pending,
    Skipped,
    Completed,
}

/// The error reported when a guarded transition is rejected.
///
/// The `message` names the rule that was violated; it is the only error
/// this library produces.
#[derive(Clone, Debug)]
pub struct TodoError {
    pub message: String,
}

impl TodoError {
    pub fn new(message: &str) -> (e: TodoError)
        ensures
            e.message@ == message@,
    {
        TodoError { message: String::from_str(message) }
    }

    /// A fixed human-readable label, the same for every rejected
    /// transition; the specific rule is in `message`.
    pub fn display_label(&self) -> (label: String)
        ensures
            label@ == "Invalid action for Todo"@,
    {
        String::from_str("Invalid action for Todo")
    }
}

/// One task: an immutable title, a status and a one-way deletion flag.
pub struct Todo {
    pub title: String,
    pub status: TodoStatus,
    pub is_deleted: bool,
}

impl Todo {
    /// Whether `skip` succeeds on this todo: it is neither deleted nor
    /// completed.
    pub open spec fn skip_allowed(self) -> bool {
        !self.is_deleted && self.status !is Completed
    }

    /// Whether `complete` succeeds on this todo: it is not deleted.
    pub open spec fn complete_allowed(self) -> bool {
        !self.is_deleted
    }

    /// The todo after a successful `skip`: only the status changes.
    pub open spec fn skipped(self) -> Todo {
        Todo { status: TodoStatus::Skipped, ..self }
    }

    /// The todo after a successful `complete`: only the status changes.
    pub open spec fn completed(self) -> Todo {
        Todo { status: TodoStatus::Completed, ..self }
    }

    /// The todo after `delete`: only the flag changes; the status at the
    /// moment of deletion is kept.
    pub open spec fn deleted(self) -> Todo {
        Todo { is_deleted: true, ..self }
    }

    /// A fresh todo: the title is accepted verbatim, the status starts
    /// at `Pending` and the deletion flag starts cleared.
    pub fn new(title: &str) -> (todo: Todo)
        ensures
            todo.title@ == title@,
            todo.status is Pending,
            !todo.is_deleted,
    {
        Todo { title: String::from_str(title), status: TodoStatus::Pending, is_deleted: false }
    }

    /// Marks the todo skipped, unless it is deleted or completed.
    ///
    /// A deleted todo is rejected first, a completed one second; on
    /// either failure the todo is unchanged. Skipping a pending or an
    /// already-skipped todo succeeds.
    pub fn skip(&mut self) -> (r: Result<(), TodoError>)
        ensures
            old(self).skip_allowed() ==> r is Ok && *final(self) == old(self).skipped(),
            !old(self).skip_allowed() ==> r is Err && *final(self) == *old(self),
            old(self).is_deleted ==> (r matches Err(e)
                && e.message@ == "Cannot skip a deleted todo"@),
            !old(self).is_deleted && old(self).status is Completed ==> (r matches Err(e)
                && e.message@ == "Cannot skip a completed todo"@),
    {
        if self.is_deleted {
            return Err(TodoError::new("Cannot skip a deleted todo"));
        }
        match self.status {
            TodoStatus::Completed => Err(TodoError::new("Cannot skip a completed todo")),
            _ => {
                self.status = TodoStatus::Skipped;
                Ok(())
            },
        }
    }

    /// Marks the todo completed, unless it is deleted.
    ///
    /// Succeeds from any status, converging on `Completed`; a deleted
    /// todo is rejected and left unchanged.
    pub fn complete(&mut self) -> (r: Result<(), TodoError>)
        ensures
            old(self).complete_allowed() ==> r is Ok && *final(self) == old(self).completed(),
            !old(self).complete_allowed() ==> (r matches Err(e)
                && e.message@ == "Cannot complete a deleted todo"@
                && *final(self) == *old(self)),
    {
        if self.is_deleted {
            Err(TodoError::new("Cannot complete a deleted todo"))
        } else {
            self.status = TodoStatus::Completed;
            Ok(())
        }
    }

    /// Marks the todo deleted. Never fails; the status is kept.
    pub fn delete(&mut self)
        ensures
            *final(self) == old(self).deleted(),
    {
        self.is_deleted = true;
    }
}

/// Deletion is idempotent and one-way: it always succeeds, a second
/// deletion changes nothing, and the flag never comes back off.
pub proof fn lemma_delete_idempotent(t: Todo)
    ensures
        t.deleted().is_deleted,
        t.deleted().deleted() == t.deleted(),
        t.deleted().status == t.status,
{
}

/// Completing twice in a row on a non-deleted todo succeeds both times
/// and ends with the status `Completed`.
pub proof fn lemma_complete_idempotent(t: Todo)
    requires
        !t.is_deleted,
    ensures
        t.complete_allowed(),
        t.completed().complete_allowed(),
        t.completed().completed() == t.completed(),
        t.completed().status is Completed,
{
}

/// Skipping twice in a row on a pending, non-deleted todo succeeds both
/// times and ends with the status `Skipped`.
pub proof fn lemma_skip_idempotent(t: Todo)
    requires
        !t.is_deleted,
        t.status is Pending,
    ensures
        t.skip_allowed(),
        t.skipped().skip_allowed(),
        t.skipped().skipped() == t.skipped(),
        t.skipped().status is Skipped,
{
}

} // verus!
