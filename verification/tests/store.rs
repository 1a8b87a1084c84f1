use tag_fixture::model::{Image, ImageTag, Table, Tag};
use tag_fixture::relation::{
    contains_id, find_image, image_exists, join_tags, select_tag_ids, select_tags, tag_exists,
};
use tag_fixture::statement::{Reply, Statement};
use tag_fixture::store::MemoryStore;

fn tag(id: i32, label: &str) -> Tag {
    Tag { id, label: label.to_string() }
}

fn link(id: i32, image_id: i32, tag_id: i32) -> ImageTag {
    ImageTag { id, image_id, tag_id }
}

fn insert_image(store: &mut MemoryStore, url: &str) -> Reply {
    store.execute(&Statement::InsertImage { url: url.to_string() })
}

fn insert_tag(store: &mut MemoryStore, label: &str) -> Reply {
    store.execute(&Statement::InsertTag { label: label.to_string() })
}

fn insert_link(store: &mut MemoryStore, image_id: i32, tag_id: i32) -> Reply {
    store.execute(&Statement::InsertImageTag { image_id, tag_id })
}

#[test]
fn a_new_store_is_empty() {
    let store = MemoryStore::new();
    assert!(store.images().is_empty());
    assert!(store.tags().is_empty());
    assert!(store.image_tags().is_empty());
    assert!(!store.in_transaction());
    assert_eq!(store.image(1), None);
}

#[test]
fn inserts_return_the_rows_with_identities_counted_from_one() {
    let mut store = MemoryStore::new();
    assert_eq!(
        insert_image(&mut store, "a.jpg"),
        Reply::Image(Image { id: 1, url: "a.jpg".to_string() })
    );
    assert_eq!(
        insert_image(&mut store, "b.jpg"),
        Reply::Image(Image { id: 2, url: "b.jpg".to_string() })
    );
    assert_eq!(insert_tag(&mut store, "x"), Reply::Tag(tag(1, "x")));
    assert_eq!(insert_link(&mut store, 2, 1), Reply::Done { rows: 1 });
    assert_eq!(store.image_tags(), vec![link(1, 2, 1)]);
}

#[test]
fn an_association_needs_its_image_and_its_tag() {
    let mut store = MemoryStore::new();
    insert_image(&mut store, "a.jpg");
    insert_tag(&mut store, "x");
    assert_eq!(insert_link(&mut store, 2, 1), Reply::Failed);
    assert_eq!(insert_link(&mut store, 1, 2), Reply::Failed);
    assert_eq!(insert_link(&mut store, 0, 0), Reply::Failed);
    assert!(store.image_tags().is_empty());
    assert_eq!(insert_link(&mut store, 1, 1), Reply::Done { rows: 1 });
    // The same pair may be associated more than once.
    assert_eq!(insert_link(&mut store, 1, 1), Reply::Done { rows: 1 });
    assert_eq!(store.image_tags(), vec![link(1, 1, 1), link(2, 1, 1)]);
}

#[test]
fn inserts_fail_once_the_identities_are_used_up() {
    let mut store = MemoryStore::starting_after(i32::MAX - 1, i32::MAX, 0).unwrap();
    assert_eq!(
        insert_image(&mut store, "last.jpg"),
        Reply::Image(Image { id: i32::MAX, url: "last.jpg".to_string() })
    );
    assert_eq!(insert_image(&mut store, "none.jpg"), Reply::Failed);
    assert_eq!(insert_tag(&mut store, "none"), Reply::Failed);
    assert_eq!(store.images().len(), 1);
    assert!(store.tags().is_empty());

    let mut store = MemoryStore::starting_after(0, 0, i32::MAX).unwrap();
    insert_image(&mut store, "a.jpg");
    insert_tag(&mut store, "x");
    assert_eq!(insert_link(&mut store, 1, 1), Reply::Failed);
}

#[test]
fn parents_cannot_be_emptied_while_associations_exist() {
    let mut store = MemoryStore::new();
    insert_image(&mut store, "a.jpg");
    insert_tag(&mut store, "x");
    insert_tag(&mut store, "y");
    insert_link(&mut store, 1, 2);
    assert_eq!(store.execute(&Statement::DeleteAll { table: Table::Tags }), Reply::Failed);
    assert_eq!(store.execute(&Statement::DeleteAll { table: Table::Images }), Reply::Failed);
    assert_eq!(store.tags().len(), 2);
    assert_eq!(store.images().len(), 1);
    assert_eq!(
        store.execute(&Statement::DeleteAll { table: Table::ImageTags }),
        Reply::Done { rows: 1 }
    );
    assert_eq!(
        store.execute(&Statement::DeleteAll { table: Table::Tags }),
        Reply::Done { rows: 2 }
    );
    assert_eq!(
        store.execute(&Statement::DeleteAll { table: Table::Images }),
        Reply::Done { rows: 1 }
    );
    assert_eq!(
        store.execute(&Statement::DeleteAll { table: Table::Images }),
        Reply::Done { rows: 0 }
    );
}

#[test]
fn selects_answer_from_the_rows() {
    let mut store = MemoryStore::new();
    insert_image(&mut store, "a.jpg");
    insert_image(&mut store, "b.jpg");
    insert_tag(&mut store, "x");
    insert_tag(&mut store, "y");
    insert_tag(&mut store, "z");
    insert_link(&mut store, 1, 3);
    insert_link(&mut store, 2, 2);
    insert_link(&mut store, 1, 1);
    insert_link(&mut store, 1, 3);
    assert_eq!(
        store.execute(&Statement::SelectTagIds { image_id: 1 }),
        Reply::TagIds(vec![3, 1, 3])
    );
    assert_eq!(store.execute(&Statement::SelectTagIds { image_id: 2 }), Reply::TagIds(vec![2]));
    assert_eq!(store.execute(&Statement::SelectTagIds { image_id: 3 }), Reply::TagIds(vec![]));
    assert_eq!(
        store.execute(&Statement::SelectTags { ids: vec![3, 1, 3] }),
        Reply::Tags(vec![tag(1, "x"), tag(3, "z")])
    );
    assert_eq!(store.execute(&Statement::SelectTags { ids: vec![] }), Reply::Tags(vec![]));
    assert_eq!(store.execute(&Statement::SelectTags { ids: vec![4, 0] }), Reply::Tags(vec![]));
}

#[test]
fn rollback_restores_the_rows_but_not_the_identities() {
    let mut store = MemoryStore::new();
    insert_image(&mut store, "kept.jpg");
    assert_eq!(store.execute(&Statement::Begin), Reply::Done { rows: 0 });
    assert!(store.in_transaction());
    insert_image(&mut store, "undone.jpg");
    insert_tag(&mut store, "undone");
    insert_link(&mut store, 2, 1);
    assert_eq!(store.images().len(), 2);
    assert_eq!(store.execute(&Statement::Rollback), Reply::Done { rows: 0 });
    assert!(!store.in_transaction());
    assert_eq!(store.images(), vec![Image { id: 1, url: "kept.jpg".to_string() }]);
    assert!(store.tags().is_empty());
    assert!(store.image_tags().is_empty());
    assert_eq!(
        insert_image(&mut store, "later.jpg"),
        Reply::Image(Image { id: 3, url: "later.jpg".to_string() })
    );
}

#[test]
fn commit_keeps_the_rows() {
    let mut store = MemoryStore::new();
    store.execute(&Statement::Begin);
    insert_image(&mut store, "a.jpg");
    assert_eq!(store.execute(&Statement::Commit), Reply::Done { rows: 0 });
    assert!(!store.in_transaction());
    assert_eq!(store.images().len(), 1);
    assert_eq!(store.execute(&Statement::Rollback), Reply::Failed);
    assert_eq!(store.images().len(), 1);
}

#[test]
fn transactions_do_not_nest_and_need_a_begin() {
    let mut store = MemoryStore::new();
    assert_eq!(store.execute(&Statement::Commit), Reply::Failed);
    assert_eq!(store.execute(&Statement::Rollback), Reply::Failed);
    assert_eq!(store.execute(&Statement::Begin), Reply::Done { rows: 0 });
    assert_eq!(store.execute(&Statement::Begin), Reply::Failed);
    assert!(store.in_transaction());
}

#[test]
fn join_gives_each_linked_tag_once_in_the_order_of_the_tags() {
    let tags = vec![tag(1, "a"), tag(2, "b"), tag(3, "c"), tag(4, "d")];
    let links = vec![link(1, 7, 4), link(2, 8, 2), link(3, 7, 1), link(4, 7, 4), link(5, 7, 9)];
    assert_eq!(select_tag_ids(&links, 7), vec![4, 1, 4, 9]);
    assert_eq!(join_tags(&tags, &links, 7), vec![tag(1, "a"), tag(4, "d")]);
    assert_eq!(join_tags(&tags, &links, 8), vec![tag(2, "b")]);
    assert_eq!(join_tags(&tags, &links, 9), vec![]);
    assert_eq!(join_tags(&vec![], &links, 7), vec![]);
    assert_eq!(select_tags(&tags, &vec![3, 3, 2]), vec![tag(2, "b"), tag(3, "c")]);
}

#[test]
fn searches_by_identity() {
    let images = vec![
        Image { id: 5, url: "five".to_string() },
        Image { id: 6, url: "six".to_string() },
        Image { id: 5, url: "five again".to_string() },
    ];
    assert!(image_exists(&images, 6));
    assert!(!image_exists(&images, 7));
    assert_eq!(find_image(&images, 5), Some(Image { id: 5, url: "five".to_string() }));
    assert_eq!(find_image(&images, 6), Some(Image { id: 6, url: "six".to_string() }));
    assert_eq!(find_image(&images, 4), None);
    let tags = vec![tag(1, "a")];
    assert!(tag_exists(&tags, 1));
    assert!(!tag_exists(&tags, 0));
    assert!(contains_id(&vec![3, 1], 1));
    assert!(!contains_id(&vec![3, 1], 2));
    assert!(!contains_id(&vec![], 0));
}

#[test]
fn duplicates_equal_their_originals() {
    let image = Image { id: 5, url: "five".to_string() };
    assert_eq!(image.duplicate(), image);
    let t = tag(2, "b");
    assert_eq!(t.duplicate(), t);
}
