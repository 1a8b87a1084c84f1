//! The rows of the three tables and their mathematical views.
//!
//! The schema is `images(id, url)`, `tags(id, label)` and
//! `image_tags(id, image_id, tag_id)`; the last table associates images and
//! tags many-to-many. Identities are generated by the datastore.

use vstd::prelude::*;

verus! {

/// One of the three tables of the schema.
#[derive(Clone, Copy, Debug, PartialEq, Eq, Structural)]
pub enum Table {
    Images,
    Tags,
    ImageTags,
}

/// A row of `images`.
#[derive(Clone, Debug, PartialEq, Eq)]
pub struct Image {
    pub id: i32,
    pub url: String,
}

/// What an [`Image`] row holds.
pub struct ImageView {
    pub id: i32,
    pub url: Seq<char>,
}

impl View for Image {
    type V = ImageView;

    open spec fn view(&self) -> ImageView {
        ImageView { id: self.id, url: self.url@ }
    }
}

impl Image {
    /// A second row with the same identity and url.
    pub fn duplicate(&self) -> (r: Image)
        ensures
            r@ == self@,
    {
        Image { id: self.id, url: self.url.clone() }
    }
}

/// A row of `tags`.
#[derive(Clone, Debug, PartialEq, Eq)]
pub struct Tag {
    pub id: i32,
    pub label: String,
}

/// What a [`Tag`] row holds.
pub struct TagView {
    pub id: i32,
    pub label: Seq<char>,
}

impl View for Tag {
    type V = TagView;

    open spec fn view(&self) -> TagView {
        TagView { id: self.id, label: self.label@ }
    }
}

impl Tag {
    /// A second row with the same identity and label.
    pub fn duplicate(&self) -> (r: Tag)
        ensures
            r@ == self@,
    {
        Tag { id: self.id, label: self.label.clone() }
    }
}

/// A row of `image_tags`: the image `image_id` carries the tag `tag_id`.
#[derive(Clone, Copy, Debug, PartialEq, Eq, Structural)]
pub struct ImageTag {
    pub id: i32,
    pub image_id: i32,
    pub tag_id: i32,
}

/// The views of a sequence of image rows, in the same order.
pub open spec fn image_views(rows: Seq<Image>) -> Seq<ImageView> {
    rows.map_values(|row: Image| row@)
}

/// The views of a sequence of tag rows, in the same order.
pub open spec fn tag_views(rows: Seq<Tag>) -> Seq<TagView> {
    rows.map_values(|row: Tag| row@)
}

/// A copy of `rows`, row by row.
pub fn duplicate_tags(rows: &Vec<Tag>) -> (r: Vec<Tag>)
    ensures
        tag_views(r@) == tag_views(rows@),
{
    let mut copy: Vec<Tag> = Vec::new();
    let mut i: usize = 0;
    while i < rows.len()
        invariant
            i <= rows.len(),
            copy.len() == i,
            forall|k: int| 0 <= k < i ==> copy[k]@ == rows[k]@,
        decreases rows.len() - i,
    {
        copy.push(rows[i].duplicate());
        i += 1;
    }
    assert(tag_views(copy@) =~= tag_views(rows@));
    copy
}

/// A copy of `rows`, row by row.
pub fn duplicate_images(rows: &Vec<Image>) -> (r: Vec<Image>)
    ensures
        image_views(r@) == image_views(rows@),
{
    let mut copy: Vec<Image> = Vec::new();
    let mut i: usize = 0;
    while i < rows.len()
        invariant
            i <= rows.len(),
            copy.len() == i,
            forall|k: int| 0 <= k < i ==> copy[k]@ == rows[k]@,
        decreases rows.len() - i,
    {
        copy.push(rows[i].duplicate());
        i += 1;
    }
    assert(image_views(copy@) =~= image_views(rows@));
    copy
}

} // verus!
