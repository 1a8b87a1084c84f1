//! The whole demonstration as one run: reset, seed, then look up the tags of
//! both seeded images.
//!
//! A [`ListingRun`] strings the three kinds of run together. It hands each
//! reply to the run of the phase it is in; when that run is over it goes on
//! to the next phase with what the run brought, or fails with its error.

use vstd::prelude::*;
use vstd::pervasive::unreached;
use crate::error::{DeleteError, InsertError, QueryError};
use crate::lookup::{LookupRun, LookupRunView};
use crate::model::{Image, ImageView, Tag, TagView, tag_views};
use crate::report::{Listing, ListingView};
use crate::reset::ResetRun;
use crate::seed::{SeedRun, SeedRunView};
use crate::statement::{Reply, ReplyView, Statement, StatementView, statement_is};

verus! {

/// Why a listing failed: the error of the phase that failed.
#[derive(Clone, Copy, Debug, PartialEq, Eq, Structural)]
pub enum Failure {
    Delete(DeleteError),
    Insert(InsertError),
    Query(QueryError),
}

/// A listing run: the phase it is in with the run of that phase, or its end.
#[derive(Clone, Debug, PartialEq, Eq)]
pub enum ListingRun {
    /// The tables are being emptied.
    Resetting { atomic: bool, reset: ResetRun },
    /// The fixture is being inserted.
    Seeding { seed: SeedRun },
    /// The tags of the first image are being looked up.
    FirstLookup { second: Image, lookup: LookupRun },
    /// The tags of the second image are being looked up.
    SecondLookup { first: Vec<Tag>, lookup: LookupRun },
    /// The tags of both images.
    Finished { listing: Listing },
    /// The run has failed.
    Failed { error: Failure },
}

/// What a [`ListingRun`] holds.
pub enum ListingRunView {
    Resetting { atomic: bool, reset: ResetRun },
    Seeding { seed: SeedRunView },
    FirstLookup { second: ImageView, lookup: LookupRunView },
    SecondLookup { first: Seq<TagView>, lookup: LookupRunView },
    Finished { listing: ListingView },
    Failed { error: Failure },
}

impl View for ListingRun {
    type V = ListingRunView;

    open spec fn view(&self) -> ListingRunView {
        match self {
            ListingRun::Resetting { atomic, reset } => ListingRunView::Resetting {
                atomic: *atomic,
                reset: *reset,
            },
            ListingRun::Seeding { seed } => ListingRunView::Seeding { seed: seed@ },
            ListingRun::FirstLookup { second, lookup } => ListingRunView::FirstLookup {
                second: second@,
                lookup: lookup@,
            },
            ListingRun::SecondLookup { first, lookup } => ListingRunView::SecondLookup {
                first: tag_views(first@),
                lookup: lookup@,
            },
            ListingRun::Finished { listing } => ListingRunView::Finished { listing: listing@ },
            ListingRun::Failed { error } => ListingRunView::Failed { error: *error },
        }
    }
}

/// How a finished listing ended: the tags of both images, or the failure.
pub type ListingOutcome = Result<ListingView, Failure>;

impl ListingRunView {
    /// The run before its first statement.
    pub open spec fn initial(atomic: bool) -> ListingRunView {
        ListingRunView::Resetting { atomic, reset: ResetRun::initial(atomic) }
    }

    /// The statement that the run waits for: that of the run of its phase.
    pub open spec fn next(self) -> Option<StatementView> {
        match self {
            ListingRunView::Resetting { reset, .. } => reset.next(),
            ListingRunView::Seeding { seed } => seed.next(),
            ListingRunView::FirstLookup { lookup, .. } => lookup.next(),
            ListingRunView::SecondLookup { lookup, .. } => lookup.next(),
            ListingRunView::Finished { .. } | ListingRunView::Failed { .. } => None,
        }
    }

    /// The run, moved on to the next phase where the run of its phase is
    /// over.
    ///
    /// A reset and a seeding share the choice between atomic and not. The
    /// first lookup is for the first image that the seeding returned, the
    /// second for the second.
    pub open spec fn settled(self) -> ListingRunView {
        match self {
            ListingRunView::Resetting { atomic, reset } => match reset.outcome() {
                None => self,
                Some(Ok(_)) => ListingRunView::Seeding { seed: SeedRunView::initial(atomic) },
                Some(Err(error)) => ListingRunView::Failed { error: Failure::Delete(error) },
            },
            ListingRunView::Seeding { seed } => match seed.outcome() {
                None => self,
                Some(Ok((first, second))) => ListingRunView::FirstLookup {
                    second,
                    lookup: LookupRunView::initial(first.id),
                },
                Some(Err(error)) => ListingRunView::Failed { error: Failure::Insert(error) },
            },
            ListingRunView::FirstLookup { second, lookup } => match lookup.outcome() {
                None => self,
                Some(Ok(first)) => ListingRunView::SecondLookup {
                    first,
                    lookup: LookupRunView::initial(second.id),
                },
                Some(Err(error)) => ListingRunView::Failed { error: Failure::Query(error) },
            },
            ListingRunView::SecondLookup { first, lookup } => match lookup.outcome() {
                None => self,
                Some(Ok(second)) => ListingRunView::Finished {
                    listing: ListingView { first, second },
                },
                Some(Err(error)) => ListingRunView::Failed { error: Failure::Query(error) },
            },
            ListingRunView::Finished { .. } | ListingRunView::Failed { .. } => self,
        }
    }

    /// The run after `reply` to the statement in flight: the reply goes to
    /// the run of the phase, and the listing settles.
    pub open spec fn after(self, reply: ReplyView) -> ListingRunView {
        match self {
            ListingRunView::Resetting { atomic, reset } => (ListingRunView::Resetting {
                atomic,
                reset: reset.after(reply),
            }).settled(),
            ListingRunView::Seeding { seed } => (ListingRunView::Seeding {
                seed: seed.after(reply),
            }).settled(),
            ListingRunView::FirstLookup { second, lookup } => (ListingRunView::FirstLookup {
                second,
                lookup: lookup.after(reply),
            }).settled(),
            ListingRunView::SecondLookup { first, lookup } => (ListingRunView::SecondLookup {
                first,
                lookup: lookup.after(reply),
            }).settled(),
            ListingRunView::Finished { .. } | ListingRunView::Failed { .. } => self,
        }
    }

    /// How the run ended; `None` while it is not over.
    pub open spec fn outcome(self) -> Option<ListingOutcome> {
        match self {
            ListingRunView::Finished { listing } => Some(Ok(listing)),
            ListingRunView::Failed { error } => Some(Err(error)),
            _ => None,
        }
    }

    /// An upper bound on the number of statements that the run will still
    /// issue.
    pub open spec fn remaining(self) -> nat {
        match self {
            ListingRunView::Resetting { reset, .. } => reset.remaining() + 16,
            ListingRunView::Seeding { seed } => seed.remaining() + 6,
            ListingRunView::FirstLookup { lookup, .. } => lookup.remaining() + 3,
            ListingRunView::SecondLookup { lookup, .. } => lookup.remaining(),
            ListingRunView::Finished { .. } | ListingRunView::Failed { .. } => 0,
        }
    }
}

/// The outcome of a run and its model agree.
pub open spec fn listing_outcome_is(
    outcome: Option<Result<Listing, Failure>>,
    model: Option<ListingOutcome>,
) -> bool {
    match outcome {
        Some(Ok(listing)) => model == Some(Ok::<ListingView, Failure>(listing@)),
        Some(Err(error)) => model == Some(Err::<ListingView, Failure>(error)),
        None => model is None,
    }
}

impl ListingRun {
    /// Starts a run. With `enforce_transaction` the reset and the seeding are
    /// atomic, each in a transaction of its own.
    pub fn start(enforce_transaction: bool) -> (r: ListingRun)
        ensures
            r@ == ListingRunView::initial(enforce_transaction),
            r@.next() is Some,
    {
        ListingRun::Resetting {
            atomic: enforce_transaction,
            reset: ResetRun::start(enforce_transaction),
        }
    }

    /// The statement to execute next, or `None` when no statement is due.
    pub fn next_statement(&self) -> (r: Option<Statement>)
        ensures
            statement_is(r, self@.next()),
    {
        match self {
            ListingRun::Resetting { reset, .. } => reset.next_statement(),
            ListingRun::Seeding { seed } => seed.next_statement(),
            ListingRun::FirstLookup { lookup, .. } => lookup.next_statement(),
            ListingRun::SecondLookup { lookup, .. } => lookup.next_statement(),
            ListingRun::Finished { .. } | ListingRun::Failed { .. } => None,
        }
    }

    /// Takes the reply to the statement in flight and moves the run on.
    ///
    /// Each reply to a statement that was due brings the run closer to its
    /// end, and the run that comes back is over or has a statement due.
    pub fn resume(self, reply: Reply) -> (r: ListingRun)
        ensures
            r@ == self@.after(reply@),
            self@.next() is Some ==> r@.remaining() < self@.remaining(),
            r@.outcome() is Some || r@.next() is Some,
    {
        match self {
            ListingRun::Resetting { atomic, reset } => {
                let reset = reset.resume(&reply);
                match reset.finish() {
                    None => ListingRun::Resetting { atomic, reset },
                    Some(Ok(_)) => ListingRun::Seeding { seed: SeedRun::start(atomic) },
                    Some(Err(error)) => ListingRun::Failed { error: Failure::Delete(error) },
                }
            },
            ListingRun::Seeding { seed } => {
                let seed = seed.resume(reply);
                if seed.is_over() {
                    match seed.finish() {
                        Some(Ok((first, second))) => ListingRun::FirstLookup {
                            second,
                            lookup: LookupRun::start(first.id),
                        },
                        Some(Err(error)) => ListingRun::Failed { error: Failure::Insert(error) },
                        None => unreached(),
                    }
                } else {
                    ListingRun::Seeding { seed }
                }
            },
            ListingRun::FirstLookup { second, lookup } => {
                let lookup = lookup.resume(reply);
                if lookup.is_over() {
                    match lookup.finish() {
                        Some(Ok(first)) => {
                            let lookup = LookupRun::start(second.id);
                            ListingRun::SecondLookup { first, lookup }
                        },
                        Some(Err(error)) => ListingRun::Failed { error: Failure::Query(error) },
                        None => unreached(),
                    }
                } else {
                    ListingRun::FirstLookup { second, lookup }
                }
            },
            ListingRun::SecondLookup { first, lookup } => {
                let lookup = lookup.resume(reply);
                if lookup.is_over() {
                    match lookup.finish() {
                        Some(Ok(second)) => ListingRun::Finished {
                            listing: Listing { first, second },
                        },
                        Some(Err(error)) => ListingRun::Failed { error: Failure::Query(error) },
                        None => unreached(),
                    }
                } else {
                    ListingRun::SecondLookup { first, lookup }
                }
            },
            ListingRun::Finished { listing } => ListingRun::Finished { listing },
            ListingRun::Failed { error } => ListingRun::Failed { error },
        }
    }

    /// Whether the run is over.
    pub fn is_over(&self) -> (r: bool)
        ensures
            r == self@.outcome().is_some(),
    {
        match self {
            ListingRun::Finished { .. } | ListingRun::Failed { .. } => true,
            _ => false,
        }
    }

    /// Ends the run: the listing, the failure, or `None` while the run is
    /// not over.
    pub fn finish(self) -> (r: Option<Result<Listing, Failure>>)
        ensures
            listing_outcome_is(r, self@.outcome()),
    {
        match self {
            ListingRun::Finished { listing } => Some(Ok(listing)),
            ListingRun::Failed { error } => Some(Err(error)),
            _ => None,
        }
    }
}

} // verus!
