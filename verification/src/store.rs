//! A datastore in memory, with the three tables of the schema.
//!
//! [`MemoryStore`] answers every [`Statement`] the way the operations expect
//! of a relational datastore. It is what the fixture is seeded into when no
//! database is at hand, and it is the model over which the laws of the
//! operations are stated.
//!
//! The store keeps what a relational datastore keeps:
//! - identities are generated per table, counting up from 1, and an identity
//!   is never given out twice, not even after a deletion or a rollback;
//! - an association can only be inserted for an image and a tag that exist,
//!   and neither `images` nor `tags` can be emptied while associations
//!   exist;
//! - selected rows come in the order of their identities.

use vstd::prelude::*;
use crate::model::{
    Image, ImageTag, ImageView, Table, Tag, TagView, duplicate_images, duplicate_tags, image_views,
    tag_views,
};
use crate::relation::{
    find_image, has_image, has_tag, image_by_id, image_exists, select_tag_ids, select_tags,
    tag_exists, tag_ids_of, tags_among,
};
use crate::statement::{Reply, ReplyView, Statement, StatementView};

verus! {

/// The last identity that each table has given out; 0 before the first.
pub struct Identities {
    pub image: i32,
    pub tag: i32,
    pub image_tag: i32,
}

/// The rows of the three tables.
pub struct Tables {
    pub images: Seq<ImageView>,
    pub tags: Seq<TagView>,
    pub image_tags: Seq<ImageTag>,
}

impl Tables {
    /// Three tables without rows.
    pub open spec fn empty() -> Tables {
        Tables { images: Seq::empty(), tags: Seq::empty(), image_tags: Seq::empty() }
    }

    /// The identities of each table are positive, ascend strictly, and are
    /// among those given out; every association refers to an image and a tag
    /// that exist.
    pub open spec fn wf(self, last: Identities) -> bool {
        &&& forall|i: int|
            0 <= i < self.images.len() ==> 1 <= (#[trigger] self.images[i]).id <= last.image
        &&& forall|i: int, j: int|
            0 <= i < j < self.images.len() ==> (#[trigger] self.images[i]).id < (
            #[trigger] self.images[j]).id
        &&& forall|i: int| 0 <= i < self.tags.len() ==> 1 <= (#[trigger] self.tags[i]).id <= last.tag
        &&& forall|i: int, j: int|
            0 <= i < j < self.tags.len() ==> (#[trigger] self.tags[i]).id < (
            #[trigger] self.tags[j]).id
        &&& forall|i: int|
            0 <= i < self.image_tags.len() ==> 1 <= (#[trigger] self.image_tags[i]).id
                <= last.image_tag
        &&& forall|i: int, j: int|
            0 <= i < j < self.image_tags.len() ==> (#[trigger] self.image_tags[i]).id < (
            #[trigger] self.image_tags[j]).id
        &&& forall|i: int|
            0 <= i < self.image_tags.len() ==> has_image(
                self.images,
                (#[trigger] self.image_tags[i]).image_id,
            )
        &&& forall|i: int|
            0 <= i < self.image_tags.len() ==> has_tag(
                self.tags,
                (#[trigger] self.image_tags[i]).tag_id,
            )
    }
}

/// What a [`MemoryStore`] holds.
pub struct StoreView {
    /// The rows as they are now.
    pub tables: Tables,
    /// While a transaction is open: the rows as they were when it began.
    pub saved: Option<Tables>,
    /// The identities given out so far.
    pub last: Identities,
}

impl StoreView {
    /// A store without rows, which has given out no identity.
    pub open spec fn empty() -> StoreView {
        StoreView {
            tables: Tables::empty(),
            saved: None,
            last: Identities { image: 0, tag: 0, image_tag: 0 },
        }
    }

    /// The rows, and the rows that an open transaction would restore, are
    /// well formed.
    pub open spec fn wf(self) -> bool {
        &&& 0 <= self.last.image
        &&& 0 <= self.last.tag
        &&& 0 <= self.last.image_tag
        &&& self.tables.wf(self.last)
        &&& self.saved matches Some(saved) ==> saved.wf(self.last)
    }

    /// The store with no rows in any table; identities and an open
    /// transaction stay as they are.
    pub open spec fn cleared(self) -> StoreView {
        StoreView { tables: Tables::empty(), ..self }
    }

    /// `Begin`: fails inside a transaction; else the rows are saved.
    pub open spec fn begin(self) -> (StoreView, ReplyView) {
        if self.saved is Some {
            (self, ReplyView::Failed)
        } else {
            (StoreView { saved: Some(self.tables), ..self }, ReplyView::Done { rows: 0 })
        }
    }

    /// `Commit`: fails outside a transaction; else the saved rows are
    /// dropped.
    pub open spec fn commit(self) -> (StoreView, ReplyView) {
        if self.saved is None {
            (self, ReplyView::Failed)
        } else {
            (StoreView { saved: None, ..self }, ReplyView::Done { rows: 0 })
        }
    }

    /// `Rollback`: fails outside a transaction; else the saved rows come
    /// back. The identities given out meanwhile stay given out.
    pub open spec fn rollback(self) -> (StoreView, ReplyView) {
        match self.saved {
            None => (self, ReplyView::Failed),
            Some(saved) => (
                StoreView { tables: saved, saved: None, ..self },
                ReplyView::Done { rows: 0 },
            ),
        }
    }

    /// `DeleteAll`: empties `table` and reports how many rows it held.
    /// `images` and `tags` cannot be emptied while associations exist.
    pub open spec fn delete_all(self, table: Table) -> (StoreView, ReplyView) {
        match table {
            Table::ImageTags => (
                StoreView { tables: Tables { image_tags: Seq::empty(), ..self.tables }, ..self },
                ReplyView::Done { rows: self.tables.image_tags.len() as usize },
            ),
            Table::Tags => if self.tables.image_tags.len() > 0 {
                (self, ReplyView::Failed)
            } else {
                (
                    StoreView { tables: Tables { tags: Seq::empty(), ..self.tables }, ..self },
                    ReplyView::Done { rows: self.tables.tags.len() as usize },
                )
            },
            Table::Images => if self.tables.image_tags.len() > 0 {
                (self, ReplyView::Failed)
            } else {
                (
                    StoreView { tables: Tables { images: Seq::empty(), ..self.tables }, ..self },
                    ReplyView::Done { rows: self.tables.images.len() as usize },
                )
            },
        }
    }

    /// `InsertImage`: appends a row with the next identity and returns it.
    /// Fails once the identities are used up.
    pub open spec fn insert_image(self, url: Seq<char>) -> (StoreView, ReplyView) {
        if self.last.image == i32::MAX {
            (self, ReplyView::Failed)
        } else {
            let row = ImageView { id: (self.last.image + 1) as i32, url };
            (
                StoreView {
                    tables: Tables { images: self.tables.images.push(row), ..self.tables },
                    last: Identities { image: row.id, ..self.last },
                    ..self
                },
                ReplyView::Image(row),
            )
        }
    }

    /// `InsertTag`: appends a row with the next identity and returns it.
    /// Fails once the identities are used up.
    pub open spec fn insert_tag(self, label: Seq<char>) -> (StoreView, ReplyView) {
        if self.last.tag == i32::MAX {
            (self, ReplyView::Failed)
        } else {
            let row = TagView { id: (self.last.tag + 1) as i32, label };
            (
                StoreView {
                    tables: Tables { tags: self.tables.tags.push(row), ..self.tables },
                    last: Identities { tag: row.id, ..self.last },
                    ..self
                },
                ReplyView::Tag(row),
            )
        }
    }

    /// `InsertImageTag`: appends an association with the next identity.
    /// Fails where the image or the tag does not exist, and once the
    /// identities are used up.
    pub open spec fn insert_image_tag(self, image_id: i32, tag_id: i32) -> (StoreView, ReplyView) {
        if !has_image(self.tables.images, image_id) || !has_tag(self.tables.tags, tag_id)
            || self.last.image_tag == i32::MAX {
            (self, ReplyView::Failed)
        } else {
            let row = ImageTag { id: (self.last.image_tag + 1) as i32, image_id, tag_id };
            (
                StoreView {
                    tables: Tables { image_tags: self.tables.image_tags.push(row), ..self.tables },
                    last: Identities { image_tag: row.id, ..self.last },
                    ..self
                },
                ReplyView::Done { rows: 1 },
            )
        }
    }

    /// What the store becomes when it executes `statement`, and what it
    /// replies.
    pub open spec fn apply(self, statement: StatementView) -> (StoreView, ReplyView) {
        match statement {
            StatementView::Begin => self.begin(),
            StatementView::Commit => self.commit(),
            StatementView::Rollback => self.rollback(),
            StatementView::DeleteAll { table } => self.delete_all(table),
            StatementView::InsertImage { url } => self.insert_image(url),
            StatementView::InsertTag { label } => self.insert_tag(label),
            StatementView::InsertImageTag { image_id, tag_id } => self.insert_image_tag(
                image_id,
                tag_id,
            ),
            StatementView::SelectTagIds { image_id } => (
                self,
                ReplyView::TagIds(tag_ids_of(self.tables.image_tags, image_id)),
            ),
            StatementView::SelectTags { ids } => (
                self,
                ReplyView::Tags(tags_among(self.tables.tags, ids)),
            ),
        }
    }

    /// The image with the identity `id`, if the store holds one.
    pub open spec fn image(self, id: i32) -> Option<ImageView> {
        image_by_id(self.tables.images, id)
    }
}

/// An image or a tag that exists still exists after a row is appended.
pub proof fn lemma_push_keeps_rows(tables: Tables, image: ImageView, tag: TagView)
    ensures
        forall|id: i32|
            has_image(tables.images, id) ==> #[trigger] has_image(tables.images.push(image), id),
        forall|id: i32| has_tag(tables.tags, id) ==> #[trigger] has_tag(tables.tags.push(tag), id),
        has_image(tables.images.push(image), image.id),
        has_tag(tables.tags.push(tag), tag.id),
{
    assert forall|id: i32| has_image(tables.images, id) implies #[trigger] has_image(
        tables.images.push(image),
        id,
    ) by {
        let i = choose|i: int| 0 <= i < tables.images.len() && (#[trigger] tables.images[i]).id == id;
        assert(tables.images.push(image)[i].id == id);
    }
    assert forall|id: i32| has_tag(tables.tags, id) implies #[trigger] has_tag(
        tables.tags.push(tag),
        id,
    ) by {
        let i = choose|i: int| 0 <= i < tables.tags.len() && (#[trigger] tables.tags[i]).id == id;
        assert(tables.tags.push(tag)[i].id == id);
    }
    assert(tables.images.push(image)[tables.images.len() as int].id == image.id);
    assert(tables.tags.push(tag)[tables.tags.len() as int].id == tag.id);
}

/// Whatever statement a well-formed store executes, it stays well formed.
pub proof fn lemma_apply_keeps_wf(store: StoreView, statement: StatementView)
    requires
        store.wf(),
    ensures
        store.apply(statement).0.wf(),
{
    let after = store.apply(statement).0;
    match statement {
        StatementView::InsertImage { url } => {
            if store.last.image != i32::MAX {
                let row = ImageView { id: (store.last.image + 1) as i32, url };
                lemma_push_keeps_rows(store.tables, row, TagView { id: 0, label: Seq::empty() });
                assert(after.tables.wf(after.last));
            }
        },
        StatementView::InsertTag { label } => {
            if store.last.tag != i32::MAX {
                let row = TagView { id: (store.last.tag + 1) as i32, label };
                lemma_push_keeps_rows(store.tables, ImageView { id: 0, url: Seq::empty() }, row);
                assert(after.tables.wf(after.last));
            }
        },
        StatementView::InsertImageTag { image_id, tag_id } => {
            assert(after.tables.wf(after.last));
        },
        _ => {},
    }
}

/// The rows of the three tables, as the store keeps them.
struct Rows {
    images: Vec<Image>,
    tags: Vec<Tag>,
    image_tags: Vec<ImageTag>,
}

impl View for Rows {
    type V = Tables;

    closed spec fn view(&self) -> Tables {
        Tables {
            images: image_views(self.images@),
            tags: tag_views(self.tags@),
            image_tags: self.image_tags@,
        }
    }
}

impl Rows {
    fn new() -> (r: Rows)
        ensures
            r@ == Tables::empty(),
    {
        let rows = Rows { images: Vec::new(), tags: Vec::new(), image_tags: Vec::new() };
        assert(image_views(rows.images@) =~= Seq::empty());
        assert(tag_views(rows.tags@) =~= Seq::empty());
        rows
    }

    fn duplicate(&self) -> (r: Rows)
        ensures
            r@ == self@,
    {
        let mut image_tags: Vec<ImageTag> = Vec::new();
        let mut i: usize = 0;
        while i < self.image_tags.len()
            invariant
                i <= self.image_tags.len(),
                image_tags@ == self.image_tags@.take(i as int),
            decreases self.image_tags.len() - i,
        {
            image_tags.push(self.image_tags[i]);
            i += 1;
            assert(image_tags@ =~= self.image_tags@.take(i as int));
        }
        assert(self.image_tags@.take(self.image_tags.len() as int) =~= self.image_tags@);
        Rows {
            images: duplicate_images(&self.images),
            tags: duplicate_tags(&self.tags),
            image_tags,
        }
    }
}

/// A datastore in memory.
pub struct MemoryStore {
    rows: Rows,
    saved: Option<Rows>,
    last_image_id: i32,
    last_tag_id: i32,
    last_image_tag_id: i32,
}

impl View for MemoryStore {
    type V = StoreView;

    closed spec fn view(&self) -> StoreView {
        StoreView {
            tables: self.rows@,
            saved: match self.saved {
                Some(rows) => Some(rows@),
                None => None,
            },
            last: Identities {
                image: self.last_image_id,
                tag: self.last_tag_id,
                image_tag: self.last_image_tag_id,
            },
        }
    }
}

impl MemoryStore {
    /// The invariant of the store: see [`StoreView::wf`]. It holds of every
    /// store, at all times.
    #[verifier::type_invariant]
    pub open spec fn wf(&self) -> bool {
        self@.wf()
    }

    /// A store without rows.
    pub fn new() -> (r: MemoryStore)
        ensures
            r.wf(),
            r@ == StoreView::empty(),
    {
        let rows = Rows::new();
        MemoryStore { rows, saved: None, last_image_id: 0, last_tag_id: 0, last_image_tag_id: 0 }
    }

    /// A store without rows whose tables have given out the identities up
    /// to `image`, `tag` and `image_tag`; `None` where one of them is
    /// negative.
    pub fn starting_after(image: i32, tag: i32, image_tag: i32) -> (r: Option<MemoryStore>)
        ensures
            r is Some <==> image >= 0 && tag >= 0 && image_tag >= 0,
            r matches Some(store) ==> store.wf() && store@ == (StoreView {
                last: Identities { image, tag, image_tag },
                ..StoreView::empty()
            }),
    {
        if image < 0 || tag < 0 || image_tag < 0 {
            None
        } else {
            let rows = Rows::new();
            Some(
                MemoryStore {
                    rows,
                    saved: None,
                    last_image_id: image,
                    last_tag_id: tag,
                    last_image_tag_id: image_tag,
                },
            )
        }
    }

    fn begin(&mut self) -> (r: Reply)
        ensures
            final(self)@ == old(self)@.begin().0,
            r@ == old(self)@.begin().1,
    {
        proof {
            use_type_invariant(&*self);
        }
        if self.saved.is_some() {
            Reply::Failed
        } else {
            let saved = self.rows.duplicate();
            self.saved = Some(saved);
            Reply::Done { rows: 0 }
        }
    }

    fn commit(&mut self) -> (r: Reply)
        ensures
            final(self)@ == old(self)@.commit().0,
            r@ == old(self)@.commit().1,
    {
        proof {
            use_type_invariant(&*self);
        }
        if self.saved.is_none() {
            Reply::Failed
        } else {
            self.saved = None;
            Reply::Done { rows: 0 }
        }
    }

    fn rollback(&mut self) -> (r: Reply)
        ensures
            final(self)@ == old(self)@.rollback().0,
            r@ == old(self)@.rollback().1,
    {
        proof {
            use_type_invariant(&*self);
        }
        let mut saved: Option<Rows> = None;
        std::mem::swap(&mut saved, &mut self.saved);
        match saved {
            None => Reply::Failed,
            Some(rows) => {
                self.rows = rows;
                Reply::Done { rows: 0 }
            },
        }
    }

    fn delete_all(&mut self, table: Table) -> (r: Reply)
        ensures
            final(self)@ == old(self)@.delete_all(table).0,
            r@ == old(self)@.delete_all(table).1,
    {
        proof {
            use_type_invariant(&*self);
        }
        let mut rows = Rows::new();
        std::mem::swap(&mut rows, &mut self.rows);
        let reply = match table {
            Table::ImageTags => {
                let count = rows.image_tags.len();
                rows.image_tags = Vec::new();
                Reply::Done { rows: count }
            },
            Table::Tags => {
                if rows.image_tags.len() > 0 {
                    Reply::Failed
                } else {
                    let count = rows.tags.len();
                    rows.tags = Vec::new();
                    assert(tag_views(rows.tags@) =~= Seq::empty());
                    Reply::Done { rows: count }
                }
            },
            Table::Images => {
                if rows.image_tags.len() > 0 {
                    Reply::Failed
                } else {
                    let count = rows.images.len();
                    rows.images = Vec::new();
                    assert(image_views(rows.images@) =~= Seq::empty());
                    Reply::Done { rows: count }
                }
            },
        };
        self.rows = rows;
        reply
    }

    fn insert_image(&mut self, url: &String) -> (r: Reply)
        ensures
            final(self)@ == old(self)@.insert_image(url@).0,
            r@ == old(self)@.insert_image(url@).1,
    {
        proof {
            use_type_invariant(&*self);
            lemma_apply_keeps_wf(self@, StatementView::InsertImage { url: url@ });
        }
        if self.last_image_id == i32::MAX {
            Reply::Failed
        } else {
            let id: i32 = self.last_image_id + 1;
            let mut rows = Rows::new();
            std::mem::swap(&mut rows, &mut self.rows);
            let ghost before = rows.images@;
            rows.images.push(Image { id, url: url.clone() });
            assert(image_views(rows.images@) =~= image_views(before).push(
                ImageView { id, url: url@ },
            ));
            self.last_image_id = id;
            self.rows = rows;
            Reply::Image(Image { id, url: url.clone() })
        }
    }

    fn insert_tag(&mut self, label: &String) -> (r: Reply)
        ensures
            final(self)@ == old(self)@.insert_tag(label@).0,
            r@ == old(self)@.insert_tag(label@).1,
    {
        proof {
            use_type_invariant(&*self);
            lemma_apply_keeps_wf(self@, StatementView::InsertTag { label: label@ });
        }
        if self.last_tag_id == i32::MAX {
            Reply::Failed
        } else {
            let id: i32 = self.last_tag_id + 1;
            let mut rows = Rows::new();
            std::mem::swap(&mut rows, &mut self.rows);
            let ghost before = rows.tags@;
            rows.tags.push(Tag { id, label: label.clone() });
            assert(tag_views(rows.tags@) =~= tag_views(before).push(
                TagView { id, label: label@ },
            ));
            self.last_tag_id = id;
            self.rows = rows;
            Reply::Tag(Tag { id, label: label.clone() })
        }
    }

    fn insert_image_tag(&mut self, image_id: i32, tag_id: i32) -> (r: Reply)
        ensures
            final(self)@ == old(self)@.insert_image_tag(image_id, tag_id).0,
            r@ == old(self)@.insert_image_tag(image_id, tag_id).1,
    {
        proof {
            use_type_invariant(&*self);
            lemma_apply_keeps_wf(self@, StatementView::InsertImageTag { image_id, tag_id });
        }
        if !image_exists(&self.rows.images, image_id) || !tag_exists(&self.rows.tags, tag_id)
            || self.last_image_tag_id == i32::MAX {
            Reply::Failed
        } else {
            let id: i32 = self.last_image_tag_id + 1;
            let mut rows = Rows::new();
            std::mem::swap(&mut rows, &mut self.rows);
            rows.image_tags.push(ImageTag { id, image_id, tag_id });
            self.last_image_tag_id = id;
            self.rows = rows;
            Reply::Done { rows: 1 }
        }
    }

    /// Executes one statement and replies to it.
    pub fn execute(&mut self, statement: &Statement) -> (r: Reply)
        ensures
            final(self).wf(),
            final(self)@ == old(self)@.apply(statement@).0,
            r@ == old(self)@.apply(statement@).1,
    {
        let reply = match statement {
            Statement::Begin => self.begin(),
            Statement::Commit => self.commit(),
            Statement::Rollback => self.rollback(),
            Statement::DeleteAll { table } => self.delete_all(*table),
            Statement::InsertImage { url } => self.insert_image(url),
            Statement::InsertTag { label } => self.insert_tag(label),
            Statement::InsertImageTag { image_id, tag_id } => self.insert_image_tag(
                *image_id,
                *tag_id,
            ),
            Statement::SelectTagIds { image_id } => Reply::TagIds(
                select_tag_ids(&self.rows.image_tags, *image_id),
            ),
            Statement::SelectTags { ids } => Reply::Tags(select_tags(&self.rows.tags, ids)),
        };
        proof {
            use_type_invariant(&*self);
        }
        reply
    }

    /// The image with the identity `id`, if the store holds one.
    pub fn image(&self, id: i32) -> (r: Option<Image>)
        ensures
            match r {
                Some(image) => self@.image(id) == Some(image@),
                None => self@.image(id) is None,
            },
    {
        find_image(&self.rows.images, id)
    }

    /// The rows of `images`, in the order of their identities.
    pub fn images(&self) -> (r: Vec<Image>)
        ensures
            image_views(r@) == self@.tables.images,
    {
        duplicate_images(&self.rows.images)
    }

    /// The rows of `tags`, in the order of their identities.
    pub fn tags(&self) -> (r: Vec<Tag>)
        ensures
            tag_views(r@) == self@.tables.tags,
    {
        duplicate_tags(&self.rows.tags)
    }

    /// The rows of `image_tags`, in the order of their identities.
    pub fn image_tags(&self) -> (r: Vec<ImageTag>)
        ensures
            r@ == self@.tables.image_tags,
    {
        self.rows.duplicate().image_tags
    }

    /// Whether a transaction is open.
    pub fn in_transaction(&self) -> (r: bool)
        ensures
            r == self@.saved.is_some(),
    {
        self.saved.is_some()
    }
}

} // verus!
