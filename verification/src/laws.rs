//! What holds of the operations on every store.
//!
//! Each statement here is proved for every well-formed store, over the same
//! models in which the operations state what they do: [`StoreView`] for the
//! store, [`tags_of`] for a lookup, [`reset_run`] and [`seeded`] for a reset
//! and a seeding.

use vstd::prelude::*;
use crate::error::DeleteError;
use crate::fixture::{
    cat_seeded, cute_seeded, first_seeded, lemma_none_among_nothing, lemma_reset_run,
    lemma_seeded_rows, reset_run, second_seeded, seed_refused, seeded,
};
use crate::model::{ImageTag, ImageView, TagView};
use crate::relation::{among, has_image, image_with, of_image, tag_ids_of, tags_among, tags_of};
use crate::reset::ResetRun;
use crate::statement::ReplyView;
use crate::store::StoreView;

verus! {

/// A filter that no row passes leaves nothing.
pub proof fn lemma_filter_nothing<A>(rows: Seq<A>, test: spec_fn(A) -> bool)
    requires
        forall|i: int| 0 <= i < rows.len() ==> !test(#[trigger] rows[i]),
    ensures
        rows.filter(test) == Seq::<A>::empty(),
{
    let found = rows.filter(test);
    if found.len() > 0 {
        Seq::lemma_filter_pred(rows, test, 0);
        assert(found.contains(found[0]));
        Seq::lemma_filter_contains_rev(rows, test, found[0]);
    }
    assert(found =~= Seq::empty());
}

/// An image that was inserted with a url is read back, by the identity that
/// the store gave it, with that url.
pub proof fn lemma_insert_then_read(store: StoreView, url: Seq<char>)
    requires
        store.wf(),
    ensures
        store.insert_image(url).1 is Image <==> store.last.image < i32::MAX,
        store.insert_image(url).1 matches ReplyView::Image(row) ==> row.url == url
            && store.insert_image(url).0.image(row.id) == Some(row),
{
    if store.last.image < i32::MAX {
        let row = ImageView { id: (store.last.image + 1) as i32, url };
        let images = store.tables.images;
        lemma_filter_nothing(images, image_with(row.id));
        Seq::lemma_filter_push(images, row, image_with(row.id));
        assert(images.push(row).filter(image_with(row.id)) =~= seq![row]);
    }
}

/// Two images can be inserted with the same url: both insertions succeed
/// while the store has identities left, and the two rows have distinct
/// identities under which each is read back.
pub proof fn lemma_same_url_twice(store: StoreView, url: Seq<char>)
    requires
        store.wf(),
        store.last.image < i32::MAX - 1,
    ensures
        ({
            let (once, first) = store.insert_image(url);
            let (twice, second) = once.insert_image(url);
            &&& first matches ReplyView::Image(a)
            &&& second matches ReplyView::Image(b)
            &&& a.url == url
            &&& b.url == url
            &&& a.id != b.id
            &&& twice.image(a.id) == Some(a)
            &&& twice.image(b.id) == Some(b)
            &&& twice.tables.images.len() == store.tables.images.len() + 2
        }),
{
    let a = ImageView { id: (store.last.image + 1) as i32, url };
    let b = ImageView { id: (store.last.image + 2) as i32, url };
    let images = store.tables.images;
    lemma_filter_nothing(images, image_with(a.id));
    lemma_filter_nothing(images, image_with(b.id));
    Seq::lemma_filter_push(images, a, image_with(a.id));
    Seq::lemma_filter_push(images.push(a), b, image_with(a.id));
    Seq::lemma_filter_push(images, a, image_with(b.id));
    Seq::lemma_filter_push(images.push(a), b, image_with(b.id));
    assert(images.push(a).push(b).filter(image_with(a.id)) =~= seq![a]);
    assert(images.push(a).push(b).filter(image_with(b.id)) =~= seq![b]);
}

/// After a reset nothing of what was there is found: no image is read back
/// and no image has tags, whatever identity is asked for.
pub proof fn lemma_reset_isolates(store: StoreView, atomic: bool, image_id: i32)
    requires
        store.wf(),
    ensures
        ({
            let (after, run) = reset_run(store, ResetRun::initial(atomic));
            run.outcome() == Some(Ok::<(), DeleteError>(())) ==> {
                &&& after == store.cleared()
                &&& after.image(image_id) is None
                &&& tags_of(after.tables.tags, after.tables.image_tags, image_id) == Seq::<
                    TagView,
                >::empty()
            }
        }),
{
    lemma_reset_run(store, atomic);
    let after = store.cleared();
    lemma_filter_nothing(after.tables.images, image_with(image_id));
    lemma_filter_nothing(after.tables.tags, among(tag_ids_of(after.tables.image_tags, image_id)));
}

/// A reset after a reset succeeds as the first did and leaves the same
/// store: one without rows.
pub proof fn lemma_reset_twice(store: StoreView, atomic: bool, again: bool)
    requires
        store.wf(),
        !(atomic && store.saved is Some),
        !(again && store.saved is Some),
    ensures
        ({
            let (once, first) = reset_run(store, ResetRun::initial(atomic));
            let (twice, second) = reset_run(once, ResetRun::initial(again));
            &&& first.outcome() == Some(Ok::<(), DeleteError>(()))
            &&& second.outcome() == Some(Ok::<(), DeleteError>(()))
            &&& once == store.cleared()
            &&& twice == once
        }),
{
    lemma_reset_run(store, atomic);
    lemma_reset_run(store.cleared(), again);
}

/// The tags of an image are exactly the tags that an association joins to
/// it: a row of `tags` is among them if and only if some association of the
/// image names its identity.
pub proof fn lemma_tags_are_the_linked_tags(
    tags: Seq<TagView>,
    links: Seq<ImageTag>,
    image_id: i32,
    tag: TagView,
)
    ensures
        tags_of(tags, links, image_id).contains(tag) <==> tags.contains(tag) && exists|k: int|
            0 <= k < links.len() && (#[trigger] links[k]).image_id == image_id && links[k].tag_id
                == tag.id,
{
    let linked = links.filter(of_image(image_id));
    let ids = tag_ids_of(links, image_id);
    let found = tags_of(tags, links, image_id);
    if found.contains(tag) {
        let at = choose|i: int| 0 <= i < found.len() && found[i] == tag;
        Seq::lemma_filter_pred(tags, among(ids), at);
        Seq::lemma_filter_contains_rev(tags, among(ids), tag);
        let j = choose|j: int| 0 <= j < ids.len() && ids[j] == tag.id;
        Seq::lemma_filter_pred(links, of_image(image_id), j);
        assert(linked.contains(linked[j]));
        Seq::lemma_filter_contains_rev(links, of_image(image_id), linked[j]);
        let k = choose|k: int| 0 <= k < links.len() && links[k] == linked[j];
        assert(links[k].image_id == image_id && links[k].tag_id == tag.id);
    }
    if tags.contains(tag) && exists|k: int|
        0 <= k < links.len() && (#[trigger] links[k]).image_id == image_id && links[k].tag_id
            == tag.id {
        let k = choose|k: int|
            0 <= k < links.len() && (#[trigger] links[k]).image_id == image_id && links[k].tag_id
                == tag.id;
        Seq::lemma_filter_contains(links, of_image(image_id), k);
        let j = choose|j: int| 0 <= j < linked.len() && linked[j] == links[k];
        assert(ids[j] == tag.id);
        assert(ids.contains(tag.id));
        let at = choose|i: int| 0 <= i < tags.len() && tags[i] == tag;
        Seq::lemma_filter_contains(tags, among(ids), at);
    }
}

/// The identities of `tags` ascend strictly.
pub open spec fn ascending(tags: Seq<TagView>) -> bool {
    forall|i: int, j: int|
        0 <= i < j < tags.len() ==> (#[trigger] tags[i]).id < (#[trigger] tags[j]).id
}

/// A filter keeps the order of the rows that it lets pass.
pub proof fn lemma_filter_keeps_order(tags: Seq<TagView>, test: spec_fn(TagView) -> bool)
    requires
        ascending(tags),
    ensures
        ascending(tags.filter(test)),
    decreases tags.len(),
{
    if tags.len() > 0 {
        let front = tags.drop_last();
        let last = tags.last();
        assert(tags =~= front.push(last));
        assert(ascending(front)) by {
            assert forall|i: int, j: int| 0 <= i < j < front.len() implies (#[trigger] front[i]).id
                < (#[trigger] front[j]).id by {
                assert(tags[i].id < tags[j].id);
            }
        }
        lemma_filter_keeps_order(front, test);
        Seq::lemma_filter_push(front, last, test);
        let found = front.filter(test);
        assert forall|i: int| 0 <= i < found.len() implies (#[trigger] found[i]).id < last.id by {
            assert(found.contains(found[i]));
            Seq::lemma_filter_contains_rev(front, test, found[i]);
            let k = choose|k: int| 0 <= k < front.len() && front[k] == found[i];
            assert(tags[k].id < tags[tags.len() - 1].id);
        }
    } else {
        Seq::lemma_filter_len(tags, test);
    }
}

/// The tags of an image come in the order of their identities, and none
/// comes twice, however many associations name it.
pub proof fn lemma_tags_ascend(store: StoreView, image_id: i32)
    requires
        store.wf(),
    ensures
        ascending(tags_of(store.tables.tags, store.tables.image_tags, image_id)),
{
    assert(ascending(store.tables.tags));
    lemma_filter_keeps_order(
        store.tables.tags,
        among(tag_ids_of(store.tables.image_tags, image_id)),
    );
}

/// An image that no association names has no tags.
pub proof fn lemma_unlinked_image_has_no_tags(
    tags: Seq<TagView>,
    links: Seq<ImageTag>,
    image_id: i32,
)
    requires
        forall|k: int| 0 <= k < links.len() ==> (#[trigger] links[k]).image_id != image_id,
    ensures
        tags_of(tags, links, image_id) == Seq::<TagView>::empty(),
{
    lemma_filter_nothing(links, of_image(image_id));
    assert(tag_ids_of(links, image_id) =~= Seq::empty());
    lemma_none_among_nothing(tags);
}

/// After a seeding, whatever the store held before: the tags of the first
/// image are `cat` and `cute`, in this order and nothing else, and the
/// second image has no tags.
pub proof fn lemma_seeded_lookup(store: StoreView)
    requires
        store.wf(),
        seed_refused(store) is None,
    ensures
        ({
            let after = seeded(store);
            &&& tags_of(after.tables.tags, after.tables.image_tags, first_seeded(store).id)
                == seq![cat_seeded(store), cute_seeded(store)]
            &&& tags_of(after.tables.tags, after.tables.image_tags, second_seeded(store).id)
                == Seq::<TagView>::empty()
        }),
{
    lemma_seeded_rows(store);
    let after = seeded(store);
    let first = first_seeded(store);
    let second = second_seeded(store);
    let cat = cat_seeded(store);
    let cute = cute_seeded(store);
    let old_links = store.tables.image_tags;
    let old_tags = store.tables.tags;
    let cat_link = ImageTag {
        id: (store.last.image_tag + 1) as i32,
        image_id: first.id,
        tag_id: cat.id,
    };
    let cute_link = ImageTag {
        id: (store.last.image_tag + 2) as i32,
        image_id: first.id,
        tag_id: cute.id,
    };
    // No earlier association names an image that did not exist yet.
    assert forall|k: int| 0 <= k < old_links.len() implies (#[trigger] old_links[k]).image_id
        <= store.last.image by {
        assert(has_image(store.tables.images, old_links[k].image_id));
    }
    // The first image: its associations are the two new ones.
    lemma_filter_nothing(old_links, of_image(first.id));
    Seq::lemma_filter_push(old_links, cat_link, of_image(first.id));
    Seq::lemma_filter_push(old_links.push(cat_link), cute_link, of_image(first.id));
    let ids = tag_ids_of(after.tables.image_tags, first.id);
    assert(ids =~= seq![cat.id, cute.id]);
    assert(ids[0] == cat.id && ids[1] == cute.id);
    assert forall|i: int| 0 <= i < old_tags.len() implies !among(ids)(#[trigger] old_tags[i]) by {
        if ids.contains(old_tags[i].id) {
            let j = choose|j: int| 0 <= j < ids.len() && ids[j] == old_tags[i].id;
            assert(j == 0 || j == 1);
        }
    }
    lemma_filter_nothing(old_tags, among(ids));
    Seq::lemma_filter_push(old_tags, cat, among(ids));
    Seq::lemma_filter_push(old_tags.push(cat), cute, among(ids));
    assert(tags_among(after.tables.tags, ids) =~= seq![cat, cute]);
    // The second image: no association names it.
    lemma_unlinked_image_has_no_tags(after.tables.tags, after.tables.image_tags, second.id);
}

} // verus!
