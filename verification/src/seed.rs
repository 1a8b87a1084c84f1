//! Seeding: the run that inserts the fixture.
//!
//! The fixture is two images with the same url, the tags `cat` and `cute`,
//! and the association of the first image with both tags; the second image
//! stays without tags. The six rows are inserted in that order, because the
//! associations carry the identities that the datastore generated for the
//! rows before them.
//!
//! A run is a value. [`SeedRun::next_statement`] names the statement that the
//! run waits for, the owner of the connection executes it, and
//! [`SeedRun::resume`] takes the reply. The first failure ends the run. Earlier
//! insertions are not undone, unless the run was started as atomic: then the
//! six insertions stand between `Begin` and `Commit`, and a failure is
//! followed by `Rollback`.

use vstd::prelude::*;
use vstd::string::StringExecFns;
use crate::error::{Boundary, Entity, InsertError};
use crate::model::{Image, ImageView};
use crate::statement::{Reply, ReplyView, Statement, StatementView, statement_is};

verus! {

/// The url of both seeded images. Urls need not be unique.
pub const IMAGE_URL: &'static str = "img1.jpg";

/// The label of the first seeded tag.
pub const CAT_LABEL: &'static str = "cat";

/// The label of the second seeded tag.
pub const CUTE_LABEL: &'static str = "cute";

/// Where a seeding run stands: the statement that is in flight, with the rows
/// that earlier replies brought, or the end of the run.
#[derive(Clone, Debug, PartialEq, Eq)]
pub enum SeedStage {
    /// `Begin` is in flight.
    Opening,
    /// The insertion of the first image is in flight.
    FirstImage,
    /// The insertion of the second image is in flight.
    SecondImage { first: Image },
    /// The insertion of `cat` is in flight.
    CatTag { first: Image, second: Image },
    /// The insertion of `cute` is in flight.
    CuteTag { first: Image, second: Image, cat_id: i32 },
    /// The association of the first image with `cat` is in flight.
    CatLink { first: Image, second: Image, cat_id: i32, cute_id: i32 },
    /// The association of the first image with `cute` is in flight.
    CuteLink { first: Image, second: Image, cute_id: i32 },
    /// `Commit` is in flight.
    Closing { first: Image, second: Image },
    /// `Rollback` is in flight, after `error`.
    Undoing { error: InsertError },
    /// The fixture is in the datastore.
    Finished { first: Image, second: Image },
    /// The run has failed.
    Failed { error: InsertError },
}

/// What a [`SeedStage`] holds.
pub enum SeedStageView {
    Opening,
    FirstImage,
    SecondImage { first: ImageView },
    CatTag { first: ImageView, second: ImageView },
    CuteTag { first: ImageView, second: ImageView, cat_id: i32 },
    CatLink { first: ImageView, second: ImageView, cat_id: i32, cute_id: i32 },
    CuteLink { first: ImageView, second: ImageView, cute_id: i32 },
    Closing { first: ImageView, second: ImageView },
    Undoing { error: InsertError },
    Finished { first: ImageView, second: ImageView },
    Failed { error: InsertError },
}

impl View for SeedStage {
    type V = SeedStageView;

    open spec fn view(&self) -> SeedStageView {
        match self {
            SeedStage::Opening => SeedStageView::Opening,
            SeedStage::FirstImage => SeedStageView::FirstImage,
            SeedStage::SecondImage { first } => SeedStageView::SecondImage { first: first@ },
            SeedStage::CatTag { first, second } => SeedStageView::CatTag {
                first: first@,
                second: second@,
            },
            SeedStage::CuteTag { first, second, cat_id } => SeedStageView::CuteTag {
                first: first@,
                second: second@,
                cat_id: *cat_id,
            },
            SeedStage::CatLink { first, second, cat_id, cute_id } => SeedStageView::CatLink {
                first: first@,
                second: second@,
                cat_id: *cat_id,
                cute_id: *cute_id,
            },
            SeedStage::CuteLink { first, second, cute_id } => SeedStageView::CuteLink {
                first: first@,
                second: second@,
                cute_id: *cute_id,
            },
            SeedStage::Closing { first, second } => SeedStageView::Closing {
                first: first@,
                second: second@,
            },
            SeedStage::Undoing { error } => SeedStageView::Undoing { error: *error },
            SeedStage::Finished { first, second } => SeedStageView::Finished {
                first: first@,
                second: second@,
            },
            SeedStage::Failed { error } => SeedStageView::Failed { error: *error },
        }
    }
}

/// A seeding run.
#[derive(Clone, Debug, PartialEq, Eq)]
pub struct SeedRun {
    /// Whether the insertions stand inside one transaction.
    pub atomic: bool,
    pub stage: SeedStage,
}

/// What a [`SeedRun`] holds.
pub struct SeedRunView {
    pub atomic: bool,
    pub stage: SeedStageView,
}

impl View for SeedRun {
    type V = SeedRunView;

    open spec fn view(&self) -> SeedRunView {
        SeedRunView { atomic: self.atomic, stage: self.stage@ }
    }
}

/// Where a run goes when the insertion of `entity` has failed: an atomic run
/// undoes the transaction first.
pub open spec fn refused(atomic: bool, entity: Entity) -> SeedStageView {
    if atomic {
        SeedStageView::Undoing { error: InsertError::Entity(entity) }
    } else {
        SeedStageView::Failed { error: InsertError::Entity(entity) }
    }
}

/// How a finished seeding ended: the two images, or the error.
pub type SeedOutcome = Result<(ImageView, ImageView), InsertError>;

impl SeedRunView {
    /// The run before its first statement.
    pub open spec fn initial(atomic: bool) -> SeedRunView {
        SeedRunView {
            atomic,
            stage: if atomic {
                SeedStageView::Opening
            } else {
                SeedStageView::FirstImage
            },
        }
    }

    /// The statement that the run waits for; `None` once the run is over.
    pub open spec fn next(self) -> Option<StatementView> {
        match self.stage {
            SeedStageView::Opening => Some(StatementView::Begin),
            SeedStageView::FirstImage => Some(StatementView::InsertImage { url: IMAGE_URL@ }),
            SeedStageView::SecondImage { .. } => Some(
                StatementView::InsertImage { url: IMAGE_URL@ },
            ),
            SeedStageView::CatTag { .. } => Some(StatementView::InsertTag { label: CAT_LABEL@ }),
            SeedStageView::CuteTag { .. } => Some(StatementView::InsertTag { label: CUTE_LABEL@ }),
            SeedStageView::CatLink { first, cat_id, .. } => Some(
                StatementView::InsertImageTag { image_id: first.id, tag_id: cat_id },
            ),
            SeedStageView::CuteLink { first, cute_id, .. } => Some(
                StatementView::InsertImageTag { image_id: first.id, tag_id: cute_id },
            ),
            SeedStageView::Closing { .. } => Some(StatementView::Commit),
            SeedStageView::Undoing { .. } => Some(StatementView::Rollback),
            SeedStageView::Finished { .. } | SeedStageView::Failed { .. } => None,
        }
    }

    /// The run after `reply` to the statement in flight.
    ///
    /// A reply of another kind than the statement calls for counts as a
    /// failure of that statement. A run that is over stays as it is.
    pub open spec fn after(self, reply: ReplyView) -> SeedRunView {
        let stage = match self.stage {
            SeedStageView::Opening => match reply {
                ReplyView::Done { .. } => SeedStageView::FirstImage,
                _ => SeedStageView::Failed { error: InsertError::Transaction(Boundary::Begin) },
            },
            SeedStageView::FirstImage => match reply {
                ReplyView::Image(first) => SeedStageView::SecondImage { first },
                _ => refused(self.atomic, Entity::FirstImage),
            },
            SeedStageView::SecondImage { first } => match reply {
                ReplyView::Image(second) => SeedStageView::CatTag { first, second },
                _ => refused(self.atomic, Entity::SecondImage),
            },
            SeedStageView::CatTag { first, second } => match reply {
                ReplyView::Tag(cat) => SeedStageView::CuteTag { first, second, cat_id: cat.id },
                _ => refused(self.atomic, Entity::CatTag),
            },
            SeedStageView::CuteTag { first, second, cat_id } => match reply {
                ReplyView::Tag(cute) => SeedStageView::CatLink {
                    first,
                    second,
                    cat_id,
                    cute_id: cute.id,
                },
                _ => refused(self.atomic, Entity::CuteTag),
            },
            SeedStageView::CatLink { first, second, cat_id, cute_id } => match reply {
                ReplyView::Done { .. } => SeedStageView::CuteLink { first, second, cute_id },
                _ => refused(self.atomic, Entity::CatLink),
            },
            SeedStageView::CuteLink { first, second, cute_id } => match reply {
                ReplyView::Done { .. } => if self.atomic {
                    SeedStageView::Closing { first, second }
                } else {
                    SeedStageView::Finished { first, second }
                },
                _ => refused(self.atomic, Entity::CuteLink),
            },
            SeedStageView::Closing { first, second } => match reply {
                ReplyView::Done { .. } => SeedStageView::Finished { first, second },
                _ => SeedStageView::Failed { error: InsertError::Transaction(Boundary::Commit) },
            },
            SeedStageView::Undoing { error } => SeedStageView::Failed { error },
            SeedStageView::Finished { first, second } => SeedStageView::Finished { first, second },
            SeedStageView::Failed { error } => SeedStageView::Failed { error },
        };
        SeedRunView { atomic: self.atomic, stage }
    }

    /// How the run ended; `None` while a statement is in flight.
    pub open spec fn outcome(self) -> Option<SeedOutcome> {
        match self.stage {
            SeedStageView::Finished { first, second } => Some(Ok((first, second))),
            SeedStageView::Failed { error } => Some(Err(error)),
            _ => None,
        }
    }

    /// An upper bound on the number of statements that the run will still
    /// issue.
    pub open spec fn remaining(self) -> nat {
        match self.stage {
            SeedStageView::Opening => 9,
            SeedStageView::FirstImage => 8,
            SeedStageView::SecondImage { .. } => 7,
            SeedStageView::CatTag { .. } => 6,
            SeedStageView::CuteTag { .. } => 5,
            SeedStageView::CatLink { .. } => 4,
            SeedStageView::CuteLink { .. } => 3,
            SeedStageView::Closing { .. } => 1,
            SeedStageView::Undoing { .. } => 1,
            SeedStageView::Finished { .. } | SeedStageView::Failed { .. } => 0,
        }
    }
}

/// The outcome of a run and its model agree.
pub open spec fn seed_outcome_is(
    outcome: Option<Result<(Image, Image), InsertError>>,
    model: Option<SeedOutcome>,
) -> bool {
    match outcome {
        Some(Ok((first, second))) => model == Some(
            Ok::<(ImageView, ImageView), InsertError>((first@, second@)),
        ),
        Some(Err(error)) => model == Some(Err::<(ImageView, ImageView), InsertError>(error)),
        None => model is None,
    }
}

impl SeedRun {
    /// Starts a run. With `enforce_transaction` the run is atomic: it wraps
    /// the insertions in one transaction.
    pub fn start(enforce_transaction: bool) -> (r: SeedRun)
        ensures
            r@ == SeedRunView::initial(enforce_transaction),
    {
        SeedRun {
            atomic: enforce_transaction,
            stage: if enforce_transaction {
                SeedStage::Opening
            } else {
                SeedStage::FirstImage
            },
        }
    }

    /// The statement to execute next, or `None` when the run is over.
    pub fn next_statement(&self) -> (r: Option<Statement>)
        ensures
            statement_is(r, self@.next()),
    {
        match &self.stage {
            SeedStage::Opening => Some(Statement::Begin),
            SeedStage::FirstImage => Some(
                Statement::InsertImage { url: String::from_str(IMAGE_URL) },
            ),
            SeedStage::SecondImage { .. } => Some(
                Statement::InsertImage { url: String::from_str(IMAGE_URL) },
            ),
            SeedStage::CatTag { .. } => Some(
                Statement::InsertTag { label: String::from_str(CAT_LABEL) },
            ),
            SeedStage::CuteTag { .. } => Some(
                Statement::InsertTag { label: String::from_str(CUTE_LABEL) },
            ),
            SeedStage::CatLink { first, cat_id, .. } => Some(
                Statement::InsertImageTag { image_id: first.id, tag_id: *cat_id },
            ),
            SeedStage::CuteLink { first, cute_id, .. } => Some(
                Statement::InsertImageTag { image_id: first.id, tag_id: *cute_id },
            ),
            SeedStage::Closing { .. } => Some(Statement::Commit),
            SeedStage::Undoing { .. } => Some(Statement::Rollback),
            SeedStage::Finished { .. } | SeedStage::Failed { .. } => None,
        }
    }

    fn refuse(atomic: bool, entity: Entity) -> (r: SeedStage)
        ensures
            r@ == refused(atomic, entity),
    {
        if atomic {
            SeedStage::Undoing { error: InsertError::Entity(entity) }
        } else {
            SeedStage::Failed { error: InsertError::Entity(entity) }
        }
    }

    /// Takes the reply to the statement in flight and moves the run on.
    ///
    /// Each reply brings a run that is not over closer to its end.
    pub fn resume(self, reply: Reply) -> (r: SeedRun)
        ensures
            r@ == self@.after(reply@),
            self@.next() is Some ==> r@.remaining() < self@.remaining(),
    {
        let atomic = self.atomic;
        let stage = match self.stage {
            SeedStage::Opening => match reply {
                Reply::Done { .. } => SeedStage::FirstImage,
                _ => SeedStage::Failed { error: InsertError::Transaction(Boundary::Begin) },
            },
            SeedStage::FirstImage => match reply {
                Reply::Image(first) => SeedStage::SecondImage { first },
                _ => Self::refuse(atomic, Entity::FirstImage),
            },
            SeedStage::SecondImage { first } => match reply {
                Reply::Image(second) => SeedStage::CatTag { first, second },
                _ => Self::refuse(atomic, Entity::SecondImage),
            },
            SeedStage::CatTag { first, second } => match reply {
                Reply::Tag(cat) => SeedStage::CuteTag { first, second, cat_id: cat.id },
                _ => Self::refuse(atomic, Entity::CatTag),
            },
            SeedStage::CuteTag { first, second, cat_id } => match reply {
                Reply::Tag(cute) => SeedStage::CatLink { first, second, cat_id, cute_id: cute.id },
                _ => Self::refuse(atomic, Entity::CuteTag),
            },
            SeedStage::CatLink { first, second, cat_id: _, cute_id } => match reply {
                Reply::Done { .. } => SeedStage::CuteLink { first, second, cute_id },
                _ => Self::refuse(atomic, Entity::CatLink),
            },
            SeedStage::CuteLink { first, second, cute_id: _ } => match reply {
                Reply::Done { .. } => if atomic {
                    SeedStage::Closing { first, second }
                } else {
                    SeedStage::Finished { first, second }
                },
                _ => Self::refuse(atomic, Entity::CuteLink),
            },
            SeedStage::Closing { first, second } => match reply {
                Reply::Done { .. } => SeedStage::Finished { first, second },
                _ => SeedStage::Failed { error: InsertError::Transaction(Boundary::Commit) },
            },
            SeedStage::Undoing { error } => SeedStage::Failed { error },
            SeedStage::Finished { first, second } => SeedStage::Finished { first, second },
            SeedStage::Failed { error } => SeedStage::Failed { error },
        };
        SeedRun { atomic, stage }
    }

    /// Whether the run is over.
    pub fn is_over(&self) -> (r: bool)
        ensures
            r == self@.outcome().is_some(),
            r == self@.next().is_none(),
    {
        match &self.stage {
            SeedStage::Finished { .. } | SeedStage::Failed { .. } => true,
            _ => false,
        }
    }

    /// Ends the run: the two inserted images, the error, or `None` while a
    /// statement is still in flight.
    pub fn finish(self) -> (r: Option<Result<(Image, Image), InsertError>>)
        ensures
            seed_outcome_is(r, self@.outcome()),
    {
        match self.stage {
            SeedStage::Finished { first, second } => Some(Ok((first, second))),
            SeedStage::Failed { error } => Some(Err(error)),
            _ => None,
        }
    }
}

} // verus!
