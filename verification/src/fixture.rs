//! The operations on a datastore in memory: reset, seeding and tag lookup.
//!
//! Each operation drives its run against a [`MemoryStore`]: it executes the
//! statement that the run names, hands the reply back, and goes on until the
//! run is over. What an operation returns and what it leaves in the store is
//! stated in terms of the rows alone.

use vstd::prelude::*;
use vstd::pervasive::unreached;
use crate::error::{Boundary, DeleteError, Entity, InsertError, QueryError};
use crate::listing::{Failure, ListingRun, ListingRunView};
use crate::lookup::{LookupRun, LookupRunView};
use crate::model::{Image, ImageTag, ImageView, Tag, TagView, tag_views};
use crate::relation::{among, tag_ids_of, tags_among, tags_of};
use crate::report::{Listing, ListingView};
use crate::reset::{ResetRun, ResetStage};
use crate::seed::{CAT_LABEL, CUTE_LABEL, IMAGE_URL, SeedRun, SeedRunView, SeedStageView};
use crate::statement::StatementView;
use crate::store::{
    Identities, MemoryStore, StoreView, Tables, lemma_apply_keeps_wf, lemma_push_keeps_rows,
};

verus! {

/// The store and the run at the end of a reset that starts at `run` on
/// `store`.
pub open spec fn reset_run(store: StoreView, run: ResetRun) -> (StoreView, ResetRun)
    decreases run.remaining(),
{
    match run.next() {
        Some(statement) => {
            let (next_store, reply) = store.apply(statement);
            reset_run(next_store, run.after(reply))
        },
        None => (store, run),
    }
}

/// A reset of a well-formed store empties the three tables and succeeds. The
/// one exception is an atomic reset inside an open transaction: it fails at
/// `Begin` and leaves the store as it was.
pub proof fn lemma_reset_run(store: StoreView, atomic: bool)
    requires
        store.wf(),
    ensures
        atomic && store.saved is Some ==> reset_run(store, ResetRun::initial(atomic)) == (
            store,
            ResetRun {
                atomic,
                stage: ResetStage::Failed { error: DeleteError::Transaction(Boundary::Begin) },
            },
        ),
        !(atomic && store.saved is Some) ==> reset_run(store, ResetRun::initial(atomic)) == (
            store.cleared(),
            ResetRun { atomic, stage: ResetStage::Finished },
        ),
{
    reveal_with_fuel(reset_run, 6);
}

/// Deletes every row of the three tables: the associations first, then the
/// tags, then the images.
///
/// With `enforce_transaction` the three deletions are one transaction.
pub fn reset_db(store: &mut MemoryStore, enforce_transaction: bool) -> (r: Result<(), DeleteError>)
    ensures
        final(store).wf(),
        enforce_transaction && old(store)@.saved is Some ==> r == Err::<(), DeleteError>(
            DeleteError::Transaction(Boundary::Begin),
        ) && final(store)@ == old(store)@,
        !(enforce_transaction && old(store)@.saved is Some) ==> r == Ok::<(), DeleteError>(())
            && final(store)@ == old(store)@.cleared(),
{
    let ghost before = store@;
    proof {
        use_type_invariant(&*store);
    }
    let mut run = ResetRun::start(enforce_transaction);
    while !run.is_over()
        invariant
            store.wf(),
            reset_run(store@, run) == reset_run(before, ResetRun::initial(enforce_transaction)),
        decreases run.remaining(),
    {
        match run.next_statement() {
            Some(statement) => {
                let reply = store.execute(&statement);
                run = run.resume(&reply);
            },
            None => {},
        }
    }
    proof {
        lemma_reset_run(before, enforce_transaction);
    }
    match run.finish() {
        Some(outcome) => outcome,
        None => unreached(),
    }
}

/// The store and the run at the end of a seeding that starts at `run` on
/// `store`.
pub open spec fn seed_run(store: StoreView, run: SeedRunView) -> (StoreView, SeedRunView)
    decreases run.remaining(),
{
    match run.next() {
        Some(statement) => {
            let (next_store, reply) = store.apply(statement);
            seed_run(next_store, run.after(reply))
        },
        None => (store, run),
    }
}

/// The first image of the fixture, as `store` would insert it.
pub open spec fn first_seeded(store: StoreView) -> ImageView {
    ImageView { id: (store.last.image + 1) as i32, url: IMAGE_URL@ }
}

/// The second image of the fixture, as `store` would insert it.
pub open spec fn second_seeded(store: StoreView) -> ImageView {
    ImageView { id: (store.last.image + 2) as i32, url: IMAGE_URL@ }
}

/// The tag `cat`, as `store` would insert it.
pub open spec fn cat_seeded(store: StoreView) -> TagView {
    TagView { id: (store.last.tag + 1) as i32, label: CAT_LABEL@ }
}

/// The tag `cute`, as `store` would insert it.
pub open spec fn cute_seeded(store: StoreView) -> TagView {
    TagView { id: (store.last.tag + 2) as i32, label: CUTE_LABEL@ }
}

/// The first entity of the fixture for which `store` has no identity left,
/// if there is one.
pub open spec fn seed_refused(store: StoreView) -> Option<Entity> {
    if store.last.image == i32::MAX {
        Some(Entity::FirstImage)
    } else if store.last.image == i32::MAX - 1 {
        Some(Entity::SecondImage)
    } else if store.last.tag == i32::MAX {
        Some(Entity::CatTag)
    } else if store.last.tag == i32::MAX - 1 {
        Some(Entity::CuteTag)
    } else if store.last.image_tag == i32::MAX {
        Some(Entity::CatLink)
    } else if store.last.image_tag == i32::MAX - 1 {
        Some(Entity::CuteLink)
    } else {
        None
    }
}

/// The store after the insertion of the entities of the fixture that come
/// before `entity`.
pub open spec fn seeded_before(store: StoreView, entity: Entity) -> StoreView {
    let with_first = store.insert_image(IMAGE_URL@).0;
    let with_second = with_first.insert_image(IMAGE_URL@).0;
    let with_cat = with_second.insert_tag(CAT_LABEL@).0;
    let with_cute = with_cat.insert_tag(CUTE_LABEL@).0;
    let with_cat_link = with_cute.insert_image_tag(first_seeded(store).id, cat_seeded(store).id).0;
    match entity {
        Entity::FirstImage => store,
        Entity::SecondImage => with_first,
        Entity::CatTag => with_second,
        Entity::CuteTag => with_cat,
        Entity::CatLink => with_cute,
        Entity::CuteLink => with_cat_link,
    }
}

/// The store after the insertion of the whole fixture.
pub open spec fn seeded(store: StoreView) -> StoreView {
    seeded_before(store, Entity::CuteLink).insert_image_tag(
        first_seeded(store).id,
        cute_seeded(store).id,
    ).0
}

/// Where every table has two identities left, the fixture is appended to
/// the rows that were there: the two images, the two tags, and the two
/// associations of the first image. Nothing else changes.
pub proof fn lemma_seeded_rows(store: StoreView)
    requires
        store.wf(),
        seed_refused(store) is None,
    ensures
        seeded(store).wf(),
        seeded(store).saved == store.saved,
        seeded(store).tables.images == store.tables.images.push(first_seeded(store)).push(
            second_seeded(store),
        ),
        seeded(store).tables.tags == store.tables.tags.push(cat_seeded(store)).push(
            cute_seeded(store),
        ),
        seeded(store).tables.image_tags == store.tables.image_tags.push(
            ImageTag {
                id: (store.last.image_tag + 1) as i32,
                image_id: first_seeded(store).id,
                tag_id: cat_seeded(store).id,
            },
        ).push(
            ImageTag {
                id: (store.last.image_tag + 2) as i32,
                image_id: first_seeded(store).id,
                tag_id: cute_seeded(store).id,
            },
        ),
        seeded(store).last == (Identities {
            image: second_seeded(store).id,
            tag: cute_seeded(store).id,
            image_tag: (store.last.image_tag + 2) as i32,
        }),
{
    let first = first_seeded(store);
    let second = second_seeded(store);
    let cat = cat_seeded(store);
    let cute = cute_seeded(store);
    lemma_push_keeps_rows(store.tables, first, cat);
    lemma_push_keeps_rows(
        Tables {
            images: store.tables.images.push(first),
            tags: store.tables.tags.push(cat),
            image_tags: store.tables.image_tags,
        },
        second,
        cute,
    );
    let with_first = store.insert_image(IMAGE_URL@).0;
    lemma_apply_keeps_wf(store, StatementView::InsertImage { url: IMAGE_URL@ });
    let with_second = with_first.insert_image(IMAGE_URL@).0;
    lemma_apply_keeps_wf(with_first, StatementView::InsertImage { url: IMAGE_URL@ });
    let with_cat = with_second.insert_tag(CAT_LABEL@).0;
    lemma_apply_keeps_wf(with_second, StatementView::InsertTag { label: CAT_LABEL@ });
    let with_cute = with_cat.insert_tag(CUTE_LABEL@).0;
    lemma_apply_keeps_wf(with_cat, StatementView::InsertTag { label: CUTE_LABEL@ });
    let with_cat_link = with_cute.insert_image_tag(first.id, cat.id).0;
    lemma_apply_keeps_wf(
        with_cute,
        StatementView::InsertImageTag { image_id: first.id, tag_id: cat.id },
    );
    lemma_apply_keeps_wf(
        with_cat_link,
        StatementView::InsertImageTag { image_id: first.id, tag_id: cute.id },
    );
}

/// What a seeding that does not fail at `Begin` leaves in the store, and how
/// it ends.
///
/// Where every table has two identities left, the fixture is in the store
/// and the run holds the two images. Else the run fails at the first entity
/// that lacks an identity; the entities before it stay in the store, unless
/// the run is atomic: then the rows are those from before the run, and only
/// the identities stay used.
pub open spec fn seeding_of(store: StoreView, atomic: bool) -> (StoreView, SeedRunView) {
    match seed_refused(store) {
        None => (
            seeded(store),
            SeedRunView {
                atomic,
                stage: SeedStageView::Finished {
                    first: first_seeded(store),
                    second: second_seeded(store),
                },
            },
        ),
        Some(entity) => (
            if atomic {
                StoreView { last: seeded_before(store, entity).last, ..store }
            } else {
                seeded_before(store, entity)
            },
            SeedRunView {
                atomic,
                stage: SeedStageView::Failed { error: InsertError::Entity(entity) },
            },
        ),
    }
}

/// A seeding of a well-formed store ends as [`seeding_of`] says. The one
/// exception is an atomic seeding inside an open transaction: it fails at
/// `Begin` and leaves the store as it was.
pub proof fn lemma_seed_run(store: StoreView, atomic: bool)
    requires
        store.wf(),
    ensures
        atomic && store.saved is Some ==> seed_run(store, SeedRunView::initial(atomic)) == (
            store,
            SeedRunView {
                atomic,
                stage: SeedStageView::Failed { error: InsertError::Transaction(Boundary::Begin) },
            },
        ),
        !(atomic && store.saved is Some) ==> seed_run(store, SeedRunView::initial(atomic))
            == seeding_of(store, atomic),
{
    reveal_with_fuel(seed_run, 10);
    if !(atomic && store.saved is Some) {
        let first = first_seeded(store);
        let second = second_seeded(store);
        let cat = cat_seeded(store);
        let cute = cute_seeded(store);
        lemma_push_keeps_rows(store.tables, first, cat);
        lemma_push_keeps_rows(
            Tables {
                images: store.tables.images.push(first),
                tags: store.tables.tags.push(cat),
                image_tags: store.tables.image_tags,
            },
            second,
            cute,
        );
    }
}

/// Inserts the fixture: two images with the url [`IMAGE_URL`], the tags
/// [`CAT_LABEL`] and [`CUTE_LABEL`], and the association of the first image
/// with both tags. Returns the two images with their generated identities.
///
/// With `enforce_transaction` the six insertions are one transaction, and a
/// failure leaves the rows as they were. Without it the rows inserted before
/// a failure stay.
pub fn insert_test_data(store: &mut MemoryStore, enforce_transaction: bool) -> (r: Result<
    (Image, Image),
    InsertError,
>)
    ensures
        final(store).wf(),
        enforce_transaction && old(store)@.saved is Some ==> r == Err::<(Image, Image), InsertError>(
            InsertError::Transaction(Boundary::Begin),
        ) && final(store)@ == old(store)@,
        !(enforce_transaction && old(store)@.saved is Some) ==> final(store)@ == seeding_of(
            old(store)@,
            enforce_transaction,
        ).0,
        !(enforce_transaction && old(store)@.saved is Some) ==> match seed_refused(old(store)@) {
            None => r matches Ok((first, second)) && first@ == first_seeded(old(store)@)
                && second@ == second_seeded(old(store)@),
            Some(entity) => r == Err::<(Image, Image), InsertError>(InsertError::Entity(entity)),
        },
{
    let ghost before = store@;
    proof {
        use_type_invariant(&*store);
    }
    let mut run = SeedRun::start(enforce_transaction);
    while !run.is_over()
        invariant
            store.wf(),
            seed_run(store@, run@) == seed_run(before, SeedRunView::initial(enforce_transaction)),
        decreases run@.remaining(),
    {
        match run.next_statement() {
            Some(statement) => {
                let reply = store.execute(&statement);
                run = run.resume(reply);
            },
            None => {},
        }
    }
    proof {
        lemma_seed_run(before, enforce_transaction);
    }
    match run.finish() {
        Some(outcome) => outcome,
        None => unreached(),
    }
}

/// The store and the run at the end of a lookup that starts at `run` on
/// `store`.
pub open spec fn lookup_run(store: StoreView, run: LookupRunView) -> (StoreView, LookupRunView)
    decreases run.remaining(),
{
    match run.next() {
        Some(statement) => {
            let (next_store, reply) = store.apply(statement);
            lookup_run(next_store, run.after(reply))
        },
        None => (store, run),
    }
}

/// No tag has its identity among no identities.
pub proof fn lemma_none_among_nothing(tags: Seq<TagView>)
    ensures
        tags_among(tags, Seq::empty()) == Seq::<TagView>::empty(),
{
    let found = tags_among(tags, Seq::empty());
    if found.len() > 0 {
        Seq::lemma_filter_pred(tags, among(Seq::empty()), 0);
        assert(Seq::<i32>::empty().contains(found[0].id));
    }
    assert(found =~= Seq::empty());
}

/// A lookup changes nothing in the store and ends with the tags of the
/// image, in the order of `tags`.
pub proof fn lemma_lookup_run(store: StoreView, image_id: i32)
    ensures
        lookup_run(store, LookupRunView::initial(image_id)) == (
            store,
            LookupRunView::Finished {
                tags: tags_of(store.tables.tags, store.tables.image_tags, image_id),
            },
        ),
{
    reveal_with_fuel(lookup_run, 3);
    let ids = tag_ids_of(store.tables.image_tags, image_id);
    if ids.len() == 0 {
        assert(ids =~= Seq::empty());
        lemma_none_among_nothing(store.tables.tags);
    }
}

/// The tags of `image`: the tags that an association joins to it.
///
/// The tags come in the order of their identities, each once. An image
/// without associations, or one that the store does not hold, has no tags.
pub fn get_tags_for_image(image: &Image, store: &mut MemoryStore) -> (r: Result<
    Vec<Tag>,
    QueryError,
>)
    ensures
        final(store)@ == old(store)@,
        r matches Ok(tags) && tag_views(tags@) == tags_of(
            old(store)@.tables.tags,
            old(store)@.tables.image_tags,
            image.id,
        ),
{
    let ghost before = store@;
    proof {
        use_type_invariant(&*store);
    }
    let mut run = LookupRun::start(image.id);
    while !run.is_over()
        invariant
            store.wf(),
            lookup_run(store@, run@) == lookup_run(before, LookupRunView::initial(image.id)),
        decreases run@.remaining(),
    {
        match run.next_statement() {
            Some(statement) => {
                let reply = store.execute(&statement);
                run = run.resume(reply);
            },
            None => {},
        }
    }
    proof {
        lemma_lookup_run(before, image.id);
    }
    match run.finish() {
        Some(outcome) => outcome,
        None => unreached(),
    }
}

/// The store and the run at the end of a listing that starts at `run` on
/// `store`.
pub open spec fn listing_run(store: StoreView, run: ListingRunView) -> (StoreView, ListingRunView)
    decreases run.remaining(),
{
    match run.next() {
        Some(statement) => {
            let (next_store, reply) = store.apply(statement);
            listing_run(next_store, run.after(reply))
        },
        None => (store, run),
    }
}

/// A listing in its first phase goes the way of the reset, then settles.
proof fn lemma_listing_resets(store: StoreView, atomic: bool, run: ResetRun)
    requires
        run.next() is Some,
    ensures
        listing_run(store, ListingRunView::Resetting { atomic, reset: run }) == listing_run(
            reset_run(store, run).0,
            (ListingRunView::Resetting { atomic, reset: reset_run(store, run).1 }).settled(),
        ),
    decreases run.remaining(),
{
    let phase = ListingRunView::Resetting { atomic, reset: run };
    let (next_store, reply) = store.apply(run.next().unwrap());
    let moved = run.after(reply);
    assert(listing_run(store, phase) == listing_run(next_store, phase.after(reply)));
    assert(reset_run(store, run) == reset_run(next_store, moved));
    if moved.next() is Some {
        lemma_listing_resets(next_store, atomic, moved);
    } else {
        assert(reset_run(next_store, moved) == (next_store, moved));
    }
}

/// A listing in its second phase goes the way of the seeding, then settles.
proof fn lemma_listing_seeds(store: StoreView, run: SeedRunView)
    requires
        run.next() is Some,
    ensures
        listing_run(store, ListingRunView::Seeding { seed: run }) == listing_run(
            seed_run(store, run).0,
            (ListingRunView::Seeding { seed: seed_run(store, run).1 }).settled(),
        ),
    decreases run.remaining(),
{
    let phase = ListingRunView::Seeding { seed: run };
    let (next_store, reply) = store.apply(run.next().unwrap());
    let moved = run.after(reply);
    assert(listing_run(store, phase) == listing_run(next_store, phase.after(reply)));
    assert(seed_run(store, run) == seed_run(next_store, moved));
    if moved.next() is Some {
        lemma_listing_seeds(next_store, moved);
    } else {
        assert(seed_run(next_store, moved) == (next_store, moved));
    }
}

/// A listing in its third phase goes the way of the lookup, then settles.
proof fn lemma_listing_looks_up_first(store: StoreView, second: ImageView, run: LookupRunView)
    requires
        run.next() is Some,
    ensures
        listing_run(store, ListingRunView::FirstLookup { second, lookup: run }) == listing_run(
            lookup_run(store, run).0,
            (ListingRunView::FirstLookup { second, lookup: lookup_run(store, run).1 }).settled(),
        ),
    decreases run.remaining(),
{
    let phase = ListingRunView::FirstLookup { second, lookup: run };
    let (next_store, reply) = store.apply(run.next().unwrap());
    let moved = run.after(reply);
    assert(listing_run(store, phase) == listing_run(next_store, phase.after(reply)));
    assert(lookup_run(store, run) == lookup_run(next_store, moved));
    if moved.next() is Some {
        lemma_listing_looks_up_first(next_store, second, moved);
    } else {
        assert(lookup_run(next_store, moved) == (next_store, moved));
    }
}

/// A listing in its last phase goes the way of the lookup, then settles.
proof fn lemma_listing_looks_up_second(store: StoreView, first: Seq<TagView>, run: LookupRunView)
    requires
        run.next() is Some,
    ensures
        listing_run(store, ListingRunView::SecondLookup { first, lookup: run }) == listing_run(
            lookup_run(store, run).0,
            (ListingRunView::SecondLookup { first, lookup: lookup_run(store, run).1 }).settled(),
        ),
    decreases run.remaining(),
{
    let phase = ListingRunView::SecondLookup { first, lookup: run };
    let (next_store, reply) = store.apply(run.next().unwrap());
    let moved = run.after(reply);
    assert(listing_run(store, phase) == listing_run(next_store, phase.after(reply)));
    assert(lookup_run(store, run) == lookup_run(next_store, moved));
    if moved.next() is Some {
        lemma_listing_looks_up_second(next_store, first, moved);
    } else {
        assert(lookup_run(next_store, moved) == (next_store, moved));
    }
}

/// What a listing leaves in the store, and how it ends.
///
/// An atomic listing inside an open transaction fails at the `Begin` of the
/// reset. Any other listing empties the tables and seeds them. Where the
/// seeding succeeds, the first image has the tags `cat` and `cute` and the
/// second has none; where it fails, so does the listing.
pub open spec fn listing_of(store: StoreView, atomic: bool) -> (StoreView, ListingRunView) {
    if atomic && store.saved is Some {
        (
            store,
            ListingRunView::Failed {
                error: Failure::Delete(DeleteError::Transaction(Boundary::Begin)),
            },
        )
    } else {
        let emptied = store.cleared();
        match seed_refused(emptied) {
            None => (
                seeded(emptied),
                ListingRunView::Finished {
                    listing: ListingView {
                        first: seq![cat_seeded(emptied), cute_seeded(emptied)],
                        second: Seq::empty(),
                    },
                },
            ),
            Some(entity) => (
                seeding_of(emptied, atomic).0,
                ListingRunView::Failed { error: Failure::Insert(InsertError::Entity(entity)) },
            ),
        }
    }
}

/// A listing on a well-formed store ends as [`listing_of`] says.
pub proof fn lemma_listing_run(store: StoreView, atomic: bool)
    requires
        store.wf(),
    ensures
        listing_run(store, ListingRunView::initial(atomic)) == listing_of(store, atomic),
{
    lemma_listing_resets(store, atomic, ResetRun::initial(atomic));
    lemma_reset_run(store, atomic);
    if !(atomic && store.saved is Some) {
        let emptied = store.cleared();
        lemma_listing_seeds(emptied, SeedRunView::initial(atomic));
        lemma_seed_run(emptied, atomic);
        if seed_refused(emptied) is None {
            let full = seeded(emptied);
            let first = first_seeded(emptied);
            let second = second_seeded(emptied);
            lemma_seeded_rows(emptied);
            crate::laws::lemma_seeded_lookup(emptied);
            lemma_listing_looks_up_first(full, second, LookupRunView::initial(first.id));
            lemma_lookup_run(full, first.id);
            lemma_listing_looks_up_second(
                full,
                tags_of(full.tables.tags, full.tables.image_tags, first.id),
                LookupRunView::initial(second.id),
            );
            lemma_lookup_run(full, second.id);
        }
    }
}

/// The demonstration: empties the tables, inserts the fixture and looks up
/// the tags of both images.
///
/// With `enforce_transaction` the reset and the seeding are atomic, each in
/// a transaction of its own.
pub fn list_tags(store: &mut MemoryStore, enforce_transaction: bool) -> (r: Result<
    Listing,
    Failure,
>)
    ensures
        final(store).wf(),
        final(store)@ == listing_of(old(store)@, enforce_transaction).0,
        match r {
            Ok(listing) => listing_of(old(store)@, enforce_transaction).1
                == (ListingRunView::Finished { listing: listing@ }),
            Err(error) => listing_of(old(store)@, enforce_transaction).1
                == (ListingRunView::Failed { error }),
        },
{
    let ghost before = store@;
    proof {
        use_type_invariant(&*store);
    }
    let mut run = ListingRun::start(enforce_transaction);
    while !run.is_over()
        invariant
            store.wf(),
            run@.outcome() is Some || run@.next() is Some,
            listing_run(store@, run@) == listing_run(
                before,
                ListingRunView::initial(enforce_transaction),
            ),
        decreases run@.remaining(),
    {
        match run.next_statement() {
            Some(statement) => {
                let reply = store.execute(&statement);
                run = run.resume(reply);
            },
            None => {},
        }
    }
    proof {
        lemma_listing_run(before, enforce_transaction);
    }
    match run.finish() {
        Some(outcome) => outcome,
        None => unreached(),
    }
}

} // verus!
