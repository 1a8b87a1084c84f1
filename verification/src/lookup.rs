//! Tag lookup: the run that resolves the tags of one image.
//!
//! The run first selects the `tag_id` of every association of the image, then
//! selects the tags whose identity is among those. Where the image has no
//! association the run ends after the first statement, with no tags: that is
//! a result, not an error.

use vstd::prelude::*;
use crate::error::QueryError;
use crate::model::{Table, Tag, TagView, tag_views};
use crate::statement::{Reply, ReplyView, Statement, StatementView, statement_is};

verus! {

/// A lookup run: the statement that is in flight, or the end of the run.
#[derive(Clone, Debug, PartialEq, Eq)]
pub enum LookupRun {
    /// The selection of the tag identities of `image_id` is in flight.
    Links { image_id: i32 },
    /// The selection of the tags with these identities is in flight.
    Rows { tag_ids: Vec<i32> },
    /// The tags of the image.
    Finished { tags: Vec<Tag> },
    /// The run has failed.
    Failed { error: QueryError },
}

/// What a [`LookupRun`] holds.
pub enum LookupRunView {
    Links { image_id: i32 },
    Rows { tag_ids: Seq<i32> },
    Finished { tags: Seq<TagView> },
    Failed { error: QueryError },
}

impl View for LookupRun {
    type V = LookupRunView;

    open spec fn view(&self) -> LookupRunView {
        match self {
            LookupRun::Links { image_id } => LookupRunView::Links { image_id: *image_id },
            LookupRun::Rows { tag_ids } => LookupRunView::Rows { tag_ids: tag_ids@ },
            LookupRun::Finished { tags } => LookupRunView::Finished { tags: tag_views(tags@) },
            LookupRun::Failed { error } => LookupRunView::Failed { error: *error },
        }
    }
}

/// How a finished lookup ended: the tags, or the error.
pub type LookupOutcome = Result<Seq<TagView>, QueryError>;

impl LookupRunView {
    /// The run before its first statement.
    pub open spec fn initial(image_id: i32) -> LookupRunView {
        LookupRunView::Links { image_id }
    }

    /// The statement that the run waits for; `None` once the run is over.
    pub open spec fn next(self) -> Option<StatementView> {
        match self {
            LookupRunView::Links { image_id } => Some(StatementView::SelectTagIds { image_id }),
            LookupRunView::Rows { tag_ids } => Some(StatementView::SelectTags { ids: tag_ids }),
            LookupRunView::Finished { .. } | LookupRunView::Failed { .. } => None,
        }
    }

    /// The run after `reply` to the statement in flight.
    ///
    /// A reply of another kind than the statement calls for counts as a
    /// failure to read the table that the statement selects from. A run that
    /// is over stays as it is.
    pub open spec fn after(self, reply: ReplyView) -> LookupRunView {
        match self {
            LookupRunView::Links { .. } => match reply {
                ReplyView::TagIds(ids) => if ids.len() == 0 {
                    LookupRunView::Finished { tags: Seq::empty() }
                } else {
                    LookupRunView::Rows { tag_ids: ids }
                },
                _ => LookupRunView::Failed { error: QueryError { table: Table::ImageTags } },
            },
            LookupRunView::Rows { .. } => match reply {
                ReplyView::Tags(tags) => LookupRunView::Finished { tags },
                _ => LookupRunView::Failed { error: QueryError { table: Table::Tags } },
            },
            LookupRunView::Finished { tags } => LookupRunView::Finished { tags },
            LookupRunView::Failed { error } => LookupRunView::Failed { error },
        }
    }

    /// How the run ended; `None` while a statement is in flight.
    pub open spec fn outcome(self) -> Option<LookupOutcome> {
        match self {
            LookupRunView::Finished { tags } => Some(Ok(tags)),
            LookupRunView::Failed { error } => Some(Err(error)),
            _ => None,
        }
    }

    /// An upper bound on the number of statements that the run will still
    /// issue.
    pub open spec fn remaining(self) -> nat {
        match self {
            LookupRunView::Links { .. } => 2,
            LookupRunView::Rows { .. } => 1,
            LookupRunView::Finished { .. } | LookupRunView::Failed { .. } => 0,
        }
    }
}

/// The outcome of a run and its model agree.
pub open spec fn lookup_outcome_is(
    outcome: Option<Result<Vec<Tag>, QueryError>>,
    model: Option<LookupOutcome>,
) -> bool {
    match outcome {
        Some(Ok(tags)) => model == Some(Ok::<Seq<TagView>, QueryError>(tag_views(tags@))),
        Some(Err(error)) => model == Some(Err::<Seq<TagView>, QueryError>(error)),
        None => model is None,
    }
}

/// A copy of `ids`.
fn duplicate_ids(ids: &Vec<i32>) -> (r: Vec<i32>)
    ensures
        r@ == ids@,
{
    let mut copy: Vec<i32> = Vec::new();
    let mut i: usize = 0;
    while i < ids.len()
        invariant
            i <= ids.len(),
            copy@ == ids@.take(i as int),
        decreases ids.len() - i,
    {
        copy.push(ids[i]);
        i += 1;
        assert(copy@ =~= ids@.take(i as int));
    }
    assert(ids@.take(ids.len() as int) =~= ids@);
    copy
}

impl LookupRun {
    /// Starts the lookup of the tags of the image with identity `image_id`.
    pub fn start(image_id: i32) -> (r: LookupRun)
        ensures
            r@ == LookupRunView::initial(image_id),
    {
        LookupRun::Links { image_id }
    }

    /// The statement to execute next, or `None` when the run is over.
    pub fn next_statement(&self) -> (r: Option<Statement>)
        ensures
            statement_is(r, self@.next()),
    {
        match self {
            LookupRun::Links { image_id } => Some(Statement::SelectTagIds { image_id: *image_id }),
            LookupRun::Rows { tag_ids } => Some(
                Statement::SelectTags { ids: duplicate_ids(tag_ids) },
            ),
            LookupRun::Finished { .. } | LookupRun::Failed { .. } => None,
        }
    }

    /// Takes the reply to the statement in flight and moves the run on.
    ///
    /// Each reply brings a run that is not over closer to its end.
    pub fn resume(self, reply: Reply) -> (r: LookupRun)
        ensures
            r@ == self@.after(reply@),
            self@.next() is Some ==> r@.remaining() < self@.remaining(),
    {
        match self {
            LookupRun::Links { .. } => match reply {
                Reply::TagIds(ids) => if ids.len() == 0 {
                    let run = LookupRun::Finished { tags: Vec::new() };
                    assert(run@ == self@.after(reply@)) by {
                        assert(tag_views(Seq::<Tag>::empty()) =~= Seq::<TagView>::empty());
                    }
                    run
                } else {
                    LookupRun::Rows { tag_ids: ids }
                },
                _ => LookupRun::Failed { error: QueryError { table: Table::ImageTags } },
            },
            LookupRun::Rows { .. } => match reply {
                Reply::Tags(tags) => LookupRun::Finished { tags },
                _ => LookupRun::Failed { error: QueryError { table: Table::Tags } },
            },
            LookupRun::Finished { tags } => LookupRun::Finished { tags },
            LookupRun::Failed { error } => LookupRun::Failed { error },
        }
    }

    /// Whether the run is over.
    pub fn is_over(&self) -> (r: bool)
        ensures
            r == self@.outcome().is_some(),
            r == self@.next().is_none(),
    {
        match self {
            LookupRun::Finished { .. } | LookupRun::Failed { .. } => true,
            _ => false,
        }
    }

    /// Ends the run: the tags, the error, or `None` while a statement is
    /// still in flight.
    pub fn finish(self) -> (r: Option<Result<Vec<Tag>, QueryError>>)
        ensures
            lookup_outcome_is(r, self@.outcome()),
    {
        match self {
            LookupRun::Finished { tags } => Some(Ok(tags)),
            LookupRun::Failed { error } => Some(Err(error)),
            _ => None,
        }
    }
}

} // verus!
