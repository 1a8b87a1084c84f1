//! The typed statements that the operations send to the datastore, and the
//! replies that they take back.
//!
//! The operations never touch a connection. Each of them is a run that names
//! the next statement; whoever owns the connection executes it and hands
//! the reply back to the run.

use vstd::prelude::*;
use crate::model::{Image, ImageView, Table, Tag, TagView, tag_views};

verus! {

/// A statement against the schema, with its parameters.
#[derive(Clone, Debug, PartialEq, Eq)]
pub enum Statement {
    /// Open a transaction.
    Begin,
    /// Make the open transaction durable.
    Commit,
    /// Undo the open transaction.
    Rollback,
    /// Delete every row of a table.
    DeleteAll { table: Table },
    /// Insert an image and return the row with its generated identity.
    InsertImage { url: String },
    /// Insert a tag and return the row with its generated identity.
    InsertTag { label: String },
    /// Associate an image with a tag.
    InsertImageTag { image_id: i32, tag_id: i32 },
    /// The `tag_id` of every association whose `image_id` is the given one.
    SelectTagIds { image_id: i32 },
    /// Every tag whose identity is among `ids`.
    SelectTags { ids: Vec<i32> },
}

/// What a [`Statement`] holds.
pub enum StatementView {
    Begin,
    Commit,
    Rollback,
    DeleteAll { table: Table },
    InsertImage { url: Seq<char> },
    InsertTag { label: Seq<char> },
    InsertImageTag { image_id: i32, tag_id: i32 },
    SelectTagIds { image_id: i32 },
    SelectTags { ids: Seq<i32> },
}

impl View for Statement {
    type V = StatementView;

    open spec fn view(&self) -> StatementView {
        match self {
            Statement::Begin => StatementView::Begin,
            Statement::Commit => StatementView::Commit,
            Statement::Rollback => StatementView::Rollback,
            Statement::DeleteAll { table } => StatementView::DeleteAll { table: *table },
            Statement::InsertImage { url } => StatementView::InsertImage { url: url@ },
            Statement::InsertTag { label } => StatementView::InsertTag { label: label@ },
            Statement::InsertImageTag { image_id, tag_id } => StatementView::InsertImageTag {
                image_id: *image_id,
                tag_id: *tag_id,
            },
            Statement::SelectTagIds { image_id } => StatementView::SelectTagIds {
                image_id: *image_id,
            },
            Statement::SelectTags { ids } => StatementView::SelectTags { ids: ids@ },
        }
    }
}

/// What the datastore answers to one statement.
#[derive(Clone, Debug, PartialEq, Eq)]
pub enum Reply {
    /// The statement was executed and returned no rows; `rows` is the number
    /// of rows that it changed.
    Done { rows: usize },
    /// The image that was inserted.
    Image(Image),
    /// The tag that was inserted.
    Tag(Tag),
    /// The tag identities that were selected.
    TagIds(Vec<i32>),
    /// The tags that were selected.
    Tags(Vec<Tag>),
    /// The datastore reported an error.
    Failed,
}

/// What a [`Reply`] holds.
pub enum ReplyView {
    Done { rows: usize },
    Image(ImageView),
    Tag(TagView),
    TagIds(Seq<i32>),
    Tags(Seq<TagView>),
    Failed,
}

impl View for Reply {
    type V = ReplyView;

    open spec fn view(&self) -> ReplyView {
        match self {
            Reply::Done { rows } => ReplyView::Done { rows: *rows },
            Reply::Image(row) => ReplyView::Image(row@),
            Reply::Tag(row) => ReplyView::Tag(row@),
            Reply::TagIds(ids) => ReplyView::TagIds(ids@),
            Reply::Tags(rows) => ReplyView::Tags(tag_views(rows@)),
            Reply::Failed => ReplyView::Failed,
        }
    }
}

/// The views of an optional statement and of its model agree.
pub open spec fn statement_is(statement: Option<Statement>, model: Option<StatementView>) -> bool {
    match statement {
        Some(s) => model == Some(s@),
        None => model is None,
    }
}

} // verus!
