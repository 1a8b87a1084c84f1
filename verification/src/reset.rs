//! Reset: the run that empties the three tables.
//!
//! The rows are deleted from `image_tags`, then from `tags`, then from
//! `images`: the associations refer to the other two tables, so they go
//! first. The first deletion that fails ends the run, and nothing may then
//! be assumed of the tables. An atomic run puts the three deletions between
//! `Begin` and `Commit` and answers a failed deletion with `Rollback`.

use vstd::prelude::*;
use crate::error::{Boundary, DeleteError};
use crate::model::Table;
use crate::statement::{Reply, ReplyView, Statement, StatementView, statement_is};

verus! {

/// Where a reset stands: the statement that is in flight, or the end of the
/// run.
#[derive(Clone, Copy, Debug, PartialEq, Eq, Structural)]
pub enum ResetStage {
    /// `Begin` is in flight.
    Opening,
    /// The deletion of the rows of `table` is in flight.
    Clearing { table: Table },
    /// `Commit` is in flight.
    Closing,
    /// `Rollback` is in flight, after `error`.
    Undoing { error: DeleteError },
    /// The three tables are empty.
    Finished,
    /// The run has failed.
    Failed { error: DeleteError },
}

/// A reset run.
#[derive(Clone, Copy, Debug, PartialEq, Eq, Structural)]
pub struct ResetRun {
    /// Whether the deletions stand inside one transaction.
    pub atomic: bool,
    pub stage: ResetStage,
}

impl View for ResetRun {
    type V = ResetRun;

    open spec fn view(&self) -> ResetRun {
        *self
    }
}

/// The tables in the order in which a reset empties them.
pub open spec fn reset_order() -> Seq<Table> {
    seq![Table::ImageTags, Table::Tags, Table::Images]
}

/// The table that a reset empties after `table`, if any.
pub open spec fn table_after(table: Table) -> Option<Table> {
    match table {
        Table::ImageTags => Some(Table::Tags),
        Table::Tags => Some(Table::Images),
        Table::Images => None,
    }
}

impl ResetRun {
    /// The run before its first statement.
    pub open spec fn initial(atomic: bool) -> ResetRun {
        ResetRun {
            atomic,
            stage: if atomic {
                ResetStage::Opening
            } else {
                ResetStage::Clearing { table: Table::ImageTags }
            },
        }
    }

    /// The statement that the run waits for; `None` once the run is over.
    pub open spec fn next(self) -> Option<StatementView> {
        match self.stage {
            ResetStage::Opening => Some(StatementView::Begin),
            ResetStage::Clearing { table } => Some(StatementView::DeleteAll { table }),
            ResetStage::Closing => Some(StatementView::Commit),
            ResetStage::Undoing { .. } => Some(StatementView::Rollback),
            ResetStage::Finished | ResetStage::Failed { .. } => None,
        }
    }

    /// The run after `reply` to the statement in flight.
    ///
    /// Any reply but `Done` counts as a failure of that statement. A run that
    /// is over stays as it is.
    pub open spec fn after(self, reply: ReplyView) -> ResetRun {
        let stage = match self.stage {
            ResetStage::Opening => match reply {
                ReplyView::Done { .. } => ResetStage::Clearing { table: Table::ImageTags },
                _ => ResetStage::Failed { error: DeleteError::Transaction(Boundary::Begin) },
            },
            ResetStage::Clearing { table } => match reply {
                ReplyView::Done { .. } => match table_after(table) {
                    Some(following) => ResetStage::Clearing { table: following },
                    None => if self.atomic {
                        ResetStage::Closing
                    } else {
                        ResetStage::Finished
                    },
                },
                _ => if self.atomic {
                    ResetStage::Undoing { error: DeleteError::Table(table) }
                } else {
                    ResetStage::Failed { error: DeleteError::Table(table) }
                },
            },
            ResetStage::Closing => match reply {
                ReplyView::Done { .. } => ResetStage::Finished,
                _ => ResetStage::Failed { error: DeleteError::Transaction(Boundary::Commit) },
            },
            ResetStage::Undoing { error } => ResetStage::Failed { error },
            ResetStage::Finished => ResetStage::Finished,
            ResetStage::Failed { error } => ResetStage::Failed { error },
        };
        ResetRun { atomic: self.atomic, stage }
    }

    /// How the run ended; `None` while a statement is in flight.
    pub open spec fn outcome(self) -> Option<Result<(), DeleteError>> {
        match self.stage {
            ResetStage::Finished => Some(Ok(())),
            ResetStage::Failed { error } => Some(Err(error)),
            _ => None,
        }
    }

    /// An upper bound on the number of statements that the run will still
    /// issue.
    pub open spec fn remaining(self) -> nat {
        match self.stage {
            ResetStage::Opening => 5,
            ResetStage::Clearing { table: Table::ImageTags } => 4,
            ResetStage::Clearing { table: Table::Tags } => 3,
            ResetStage::Clearing { table: Table::Images } => 2,
            ResetStage::Closing => 1,
            ResetStage::Undoing { .. } => 1,
            ResetStage::Finished | ResetStage::Failed { .. } => 0,
        }
    }

    /// Starts a run. With `enforce_transaction` the run is atomic: it wraps
    /// the deletions in one transaction.
    pub fn start(enforce_transaction: bool) -> (r: ResetRun)
        ensures
            r == ResetRun::initial(enforce_transaction),
    {
        ResetRun {
            atomic: enforce_transaction,
            stage: if enforce_transaction {
                ResetStage::Opening
            } else {
                ResetStage::Clearing { table: Table::ImageTags }
            },
        }
    }

    /// The statement to execute next, or `None` when the run is over.
    pub fn next_statement(&self) -> (r: Option<Statement>)
        ensures
            statement_is(r, self.next()),
    {
        match self.stage {
            ResetStage::Opening => Some(Statement::Begin),
            ResetStage::Clearing { table } => Some(Statement::DeleteAll { table }),
            ResetStage::Closing => Some(Statement::Commit),
            ResetStage::Undoing { .. } => Some(Statement::Rollback),
            ResetStage::Finished | ResetStage::Failed { .. } => None,
        }
    }

    /// Takes the reply to the statement in flight and moves the run on.
    ///
    /// Each reply brings a run that is not over closer to its end.
    pub fn resume(self, reply: &Reply) -> (r: ResetRun)
        ensures
            r == self.after(reply@),
            self.next() is Some ==> r.remaining() < self.remaining(),
    {
        let done = match reply {
            Reply::Done { .. } => true,
            _ => false,
        };
        let stage = match self.stage {
            ResetStage::Opening => if done {
                ResetStage::Clearing { table: Table::ImageTags }
            } else {
                ResetStage::Failed { error: DeleteError::Transaction(Boundary::Begin) }
            },
            ResetStage::Clearing { table } => if done {
                match table {
                    Table::ImageTags => ResetStage::Clearing { table: Table::Tags },
                    Table::Tags => ResetStage::Clearing { table: Table::Images },
                    Table::Images => if self.atomic {
                        ResetStage::Closing
                    } else {
                        ResetStage::Finished
                    },
                }
            } else if self.atomic {
                ResetStage::Undoing { error: DeleteError::Table(table) }
            } else {
                ResetStage::Failed { error: DeleteError::Table(table) }
            },
            ResetStage::Closing => if done {
                ResetStage::Finished
            } else {
                ResetStage::Failed { error: DeleteError::Transaction(Boundary::Commit) }
            },
            ResetStage::Undoing { error } => ResetStage::Failed { error },
            ResetStage::Finished => ResetStage::Finished,
            ResetStage::Failed { error } => ResetStage::Failed { error },
        };
        ResetRun { atomic: self.atomic, stage }
    }

    /// Whether the run is over.
    pub fn is_over(&self) -> (r: bool)
        ensures
            r == self.outcome().is_some(),
            r == self.next().is_none(),
    {
        match self.stage {
            ResetStage::Finished | ResetStage::Failed { .. } => true,
            _ => false,
        }
    }

    /// Ends the run: success, the error, or `None` while a statement is
    /// still in flight.
    pub fn finish(self) -> (r: Option<Result<(), DeleteError>>)
        ensures
            r == self.outcome(),
    {
        match self.stage {
            ResetStage::Finished => Some(Ok(())),
            ResetStage::Failed { error } => Some(Err(error)),
            _ => None,
        }
    }
}

/// A reset that meets no failure deletes from the tables in the order of
/// [`reset_order`], whether atomic or not, and then succeeds.
pub proof fn lemma_reset_follows_order(atomic: bool, rows: Seq<usize>)
    requires
        rows.len() == 5,
    ensures
        ({
            let begun = ResetRun::initial(atomic);
            let first = if atomic {
                begun.after(ReplyView::Done { rows: rows[0] })
            } else {
                begun
            };
            let second = first.after(ReplyView::Done { rows: rows[1] });
            let third = second.after(ReplyView::Done { rows: rows[2] });
            let emptied = third.after(ReplyView::Done { rows: rows[3] });
            let ended = if atomic {
                emptied.after(ReplyView::Done { rows: rows[4] })
            } else {
                emptied
            };
            &&& first.next() == Some(StatementView::DeleteAll { table: reset_order()[0] })
            &&& second.next() == Some(StatementView::DeleteAll { table: reset_order()[1] })
            &&& third.next() == Some(StatementView::DeleteAll { table: reset_order()[2] })
            &&& ended.outcome() == Some(Ok::<(), DeleteError>(()))
        }),
{
}

} // verus!
