//! The many-to-many relation between images and tags, on rows in memory.
//!
//! The tags of an image are the rows of `tags` whose identity occurs as the
//! `tag_id` of an association of that image: the inner join of the three
//! tables, filtered on the image. The result keeps the order of `tags` and
//! holds a tag once, however many associations name it.

use vstd::prelude::*;
use crate::model::{Image, ImageTag, ImageView, Tag, TagView, image_views, tag_views};

verus! {

/// The test "this association belongs to the image `image_id`".
pub open spec fn of_image(image_id: i32) -> spec_fn(ImageTag) -> bool {
    |link: ImageTag| link.image_id == image_id
}

/// The tag that an association names.
pub open spec fn tag_named() -> spec_fn(ImageTag) -> i32 {
    |link: ImageTag| link.tag_id
}

/// The test "the identity of this tag is among `ids`".
pub open spec fn among(ids: Seq<i32>) -> spec_fn(TagView) -> bool {
    |tag: TagView| ids.contains(tag.id)
}

/// The test "this image has the identity `id`".
pub open spec fn image_with(id: i32) -> spec_fn(ImageView) -> bool {
    |image: ImageView| image.id == id
}

/// The `tag_id` of every association of the image `image_id`, in the order
/// of the associations.
pub open spec fn tag_ids_of(links: Seq<ImageTag>, image_id: i32) -> Seq<i32> {
    links.filter(of_image(image_id)).map_values(tag_named())
}

/// The tags whose identity is among `ids`, in the order of `tags`.
pub open spec fn tags_among(tags: Seq<TagView>, ids: Seq<i32>) -> Seq<TagView> {
    tags.filter(among(ids))
}

/// The tags of the image `image_id`.
pub open spec fn tags_of(tags: Seq<TagView>, links: Seq<ImageTag>, image_id: i32) -> Seq<TagView> {
    tags_among(tags, tag_ids_of(links, image_id))
}

/// Whether some row of `images` has the identity `id`.
pub open spec fn has_image(images: Seq<ImageView>, id: i32) -> bool {
    exists|i: int| 0 <= i < images.len() && (#[trigger] images[i]).id == id
}

/// Whether some row of `tags` has the identity `id`.
pub open spec fn has_tag(tags: Seq<TagView>, id: i32) -> bool {
    exists|i: int| 0 <= i < tags.len() && (#[trigger] tags[i]).id == id
}

/// The first image with the identity `id`, if there is one.
pub open spec fn image_by_id(images: Seq<ImageView>, id: i32) -> Option<ImageView> {
    let found = images.filter(image_with(id));
    if found.len() > 0 {
        Some(found[0])
    } else {
        None
    }
}

/// Whether `id` occurs in `ids`.
pub fn contains_id(ids: &Vec<i32>, id: i32) -> (r: bool)
    ensures
        r == ids@.contains(id),
{
    let mut i: usize = 0;
    while i < ids.len()
        invariant
            i <= ids.len(),
            forall|k: int| 0 <= k < i ==> ids[k] != id,
        decreases ids.len() - i,
    {
        if ids[i] == id {
            return true;
        }
        i += 1;
    }
    false
}

/// Whether some row of `images` has the identity `id`.
pub fn image_exists(images: &Vec<Image>, id: i32) -> (r: bool)
    ensures
        r == has_image(image_views(images@), id),
{
    let mut i: usize = 0;
    while i < images.len()
        invariant
            i <= images.len(),
            forall|k: int| 0 <= k < i ==> (#[trigger] image_views(images@)[k]).id != id,
        decreases images.len() - i,
    {
        if images[i].id == id {
            assert(image_views(images@)[i as int].id == id);
            return true;
        }
        i += 1;
    }
    false
}

/// Whether some row of `tags` has the identity `id`.
pub fn tag_exists(tags: &Vec<Tag>, id: i32) -> (r: bool)
    ensures
        r == has_tag(tag_views(tags@), id),
{
    let mut i: usize = 0;
    while i < tags.len()
        invariant
            i <= tags.len(),
            forall|k: int| 0 <= k < i ==> (#[trigger] tag_views(tags@)[k]).id != id,
        decreases tags.len() - i,
    {
        if tags[i].id == id {
            assert(tag_views(tags@)[i as int].id == id);
            return true;
        }
        i += 1;
    }
    false
}

/// The first image with the identity `id`, if there is one.
pub fn find_image(images: &Vec<Image>, id: i32) -> (r: Option<Image>)
    ensures
        match r {
            Some(image) => image_by_id(image_views(images@), id) == Some(image@),
            None => image_by_id(image_views(images@), id) is None,
        },
{
    let ghost rows = image_views(images@);
    let mut i: usize = 0;
    while i < images.len()
        invariant
            i <= images.len(),
            rows == image_views(images@),
            rows.take(i as int).filter(image_with(id)).len() == 0,
        decreases images.len() - i,
    {
        proof {
            assert(rows.take(i as int + 1) =~= rows.take(i as int).push(rows[i as int]));
            Seq::lemma_filter_push(rows.take(i as int), rows[i as int], image_with(id));
        }
        if images[i].id == id {
            proof {
                let head = rows.take(i as int + 1);
                let tail = rows.skip(i as int + 1);
                assert(rows =~= head + tail);
                Seq::filter_distributes_over_add(head, tail, image_with(id));
                assert(head.filter(image_with(id)) =~= seq![rows[i as int]]);
            }
            return Some(images[i].duplicate());
        }
        i += 1;
    }
    assert(rows.take(images.len() as int) =~= rows);
    None
}

/// The `tag_id` of every association of the image `image_id`.
pub fn select_tag_ids(links: &Vec<ImageTag>, image_id: i32) -> (r: Vec<i32>)
    ensures
        r@ == tag_ids_of(links@, image_id),
{
    let mut ids: Vec<i32> = Vec::new();
    let mut i: usize = 0;
    assert(links@.take(0).filter(of_image(image_id)) =~= Seq::empty()) by {
        Seq::lemma_filter_len(links@.take(0), of_image(image_id));
    }
    while i < links.len()
        invariant
            i <= links.len(),
            ids@ == tag_ids_of(links@.take(i as int), image_id),
        decreases links.len() - i,
    {
        proof {
            let seen = links@.take(i as int);
            assert(links@.take(i as int + 1) =~= seen.push(links[i as int]));
            Seq::lemma_filter_push(seen, links[i as int], of_image(image_id));
            Seq::lemma_push_map_commute(
                seen.filter(of_image(image_id)),
                tag_named(),
                links[i as int],
            );
        }
        if links[i].image_id == image_id {
            ids.push(links[i].tag_id);
        }
        i += 1;
    }
    assert(links@.take(links.len() as int) =~= links@);
    ids
}

/// The tags whose identity is among `ids`, in the order of `tags`.
pub fn select_tags(tags: &Vec<Tag>, ids: &Vec<i32>) -> (r: Vec<Tag>)
    ensures
        tag_views(r@) == tags_among(tag_views(tags@), ids@),
{
    let ghost rows = tag_views(tags@);
    let mut found: Vec<Tag> = Vec::new();
    let mut i: usize = 0;
    assert(rows.take(0).filter(among(ids@)) =~= Seq::empty()) by {
        Seq::lemma_filter_len(rows.take(0), among(ids@));
    }
    assert(tag_views(found@) =~= Seq::empty());
    while i < tags.len()
        invariant
            i <= tags.len(),
            rows == tag_views(tags@),
            tag_views(found@) == tags_among(rows.take(i as int), ids@),
        decreases tags.len() - i,
    {
        proof {
            let seen = rows.take(i as int);
            assert(rows.take(i as int + 1) =~= seen.push(rows[i as int]));
            Seq::lemma_filter_push(seen, rows[i as int], among(ids@));
        }
        if contains_id(ids, tags[i].id) {
            let ghost before = found@;
            let row = tags[i].duplicate();
            found.push(row);
            assert(tag_views(found@) =~= tag_views(before).push(rows[i as int]));
        }
        i += 1;
    }
    assert(rows.take(tags.len() as int) =~= rows);
    found
}

/// The tags of the image `image_id`: the join of `tags` and `links`,
/// filtered on the image.
pub fn join_tags(tags: &Vec<Tag>, links: &Vec<ImageTag>, image_id: i32) -> (r: Vec<Tag>)
    ensures
        tag_views(r@) == tags_of(tag_views(tags@), links@, image_id),
{
    let ids = select_tag_ids(links, image_id);
    select_tags(tags, &ids)
}

} // verus!
