//! What the operations on the tables report when the datastore fails them.
//!
//! Every failure ends the operation at once: nothing is retried and nothing
//! is reported as partly done. Each error names the table, the seeded entity
//! or the transaction boundary at which the datastore failed.

use vstd::prelude::*;
use crate::model::Table;

verus! {

/// The two ends of a transaction.
#[derive(Clone, Copy, Debug, PartialEq, Eq, Structural)]
pub enum Boundary {
    Begin,
    Commit,
}

/// One of the six rows that seeding inserts, in the order of insertion.
#[derive(Clone, Copy, Debug, PartialEq, Eq, Structural)]
pub enum Entity {
    /// The first image.
    FirstImage,
    /// The second image, with the url of the first.
    SecondImage,
    /// The tag `cat`.
    CatTag,
    /// The tag `cute`.
    CuteTag,
    /// The association of the first image with `cat`.
    CatLink,
    /// The association of the first image with `cute`.
    CuteLink,
}

/// A reset failed.
#[derive(Clone, Copy, Debug, PartialEq, Eq, Structural)]
pub enum DeleteError {
    /// The rows of this table could not be deleted.
    Table(Table),
    /// The transaction around the three deletions could not be begun or
    /// committed.
    Transaction(Boundary),
}

impl DeleteError {
    pub open spec fn spec_describe(&self) -> Seq<char> {
        match self {
            DeleteError::Table(Table::ImageTags) => "could not delete image_tags associations"@,
            DeleteError::Table(Table::Tags) => "could not delete tags"@,
            DeleteError::Table(Table::Images) => "could not delete images"@,
            DeleteError::Transaction(Boundary::Begin) => "could not begin the reset"@,
            DeleteError::Transaction(Boundary::Commit) => "could not commit the reset"@,
        }
    }

    /// The error in words.
    pub fn describe(&self) -> (r: &'static str)
        ensures
            r@ == self.spec_describe(),
    {
        match self {
            DeleteError::Table(Table::ImageTags) => "could not delete image_tags associations",
            DeleteError::Table(Table::Tags) => "could not delete tags",
            DeleteError::Table(Table::Images) => "could not delete images",
            DeleteError::Transaction(Boundary::Begin) => "could not begin the reset",
            DeleteError::Transaction(Boundary::Commit) => "could not commit the reset",
        }
    }
}

/// Seeding failed.
#[derive(Clone, Copy, Debug, PartialEq, Eq, Structural)]
pub enum InsertError {
    /// This entity could not be inserted.
    Entity(Entity),
    /// The transaction around the six insertions could not be begun or
    /// committed.
    Transaction(Boundary),
}

impl InsertError {
    pub open spec fn spec_describe(&self) -> Seq<char> {
        match self {
            InsertError::Entity(Entity::FirstImage) => "Error saving img1"@,
            InsertError::Entity(Entity::SecondImage) => "Error saving img2"@,
            InsertError::Entity(Entity::CatTag) => "Error saving cat tag"@,
            InsertError::Entity(Entity::CuteTag) => "Error saving cute tag"@,
            InsertError::Entity(Entity::CatLink) => "Error associating img1 with tag1"@,
            InsertError::Entity(Entity::CuteLink) => "Error associating img1 with tag2"@,
            InsertError::Transaction(Boundary::Begin) => "could not begin the seeding"@,
            InsertError::Transaction(Boundary::Commit) => "could not commit the seeding"@,
        }
    }

    /// The error in words.
    pub fn describe(&self) -> (r: &'static str)
        ensures
            r@ == self.spec_describe(),
    {
        match self {
            InsertError::Entity(Entity::FirstImage) => "Error saving img1",
            InsertError::Entity(Entity::SecondImage) => "Error saving img2",
            InsertError::Entity(Entity::CatTag) => "Error saving cat tag",
            InsertError::Entity(Entity::CuteTag) => "Error saving cute tag",
            InsertError::Entity(Entity::CatLink) => "Error associating img1 with tag1",
            InsertError::Entity(Entity::CuteLink) => "Error associating img1 with tag2",
            InsertError::Transaction(Boundary::Begin) => "could not begin the seeding",
            InsertError::Transaction(Boundary::Commit) => "could not commit the seeding",
        }
    }
}

/// A lookup failed: the rows of `table` could not be read.
#[derive(Clone, Copy, Debug, PartialEq, Eq, Structural)]
pub struct QueryError {
    pub table: Table,
}

impl QueryError {
    pub open spec fn spec_describe(&self) -> Seq<char> {
        match self.table {
            Table::ImageTags => "could not load image_tags associations"@,
            Table::Tags => "could not load tags"@,
            Table::Images => "could not load images"@,
        }
    }

    /// The error in words.
    pub fn describe(&self) -> (r: &'static str)
        ensures
            r@ == self.spec_describe(),
    {
        match self.table {
            Table::ImageTags => "could not load image_tags associations",
            Table::Tags => "could not load tags",
            Table::Images => "could not load images",
        }
    }
}

} // verus!
