use tag_fixture::error::{Boundary, DeleteError, Entity, InsertError};
use tag_fixture::fixture::{get_tags_for_image, insert_test_data, list_tags, reset_db};
use tag_fixture::listing::Failure;
use tag_fixture::model::{Image, ImageTag, Tag};
use tag_fixture::statement::{Reply, Statement};
use tag_fixture::store::MemoryStore;

fn labels(tags: &[Tag]) -> Vec<String> {
    tags.iter().map(|tag| tag.label.clone()).collect()
}

#[test]
fn seed_then_lookup_gives_cat_and_cute_for_the_first_image_only() {
    let mut store = MemoryStore::new();
    reset_db(&mut store, false).unwrap();
    let (img1, img2) = insert_test_data(&mut store, false).unwrap();
    assert_eq!(img1, Image { id: 1, url: "img1.jpg".to_string() });
    assert_eq!(img2, Image { id: 2, url: "img1.jpg".to_string() });

    let first = get_tags_for_image(&img1, &mut store).unwrap();
    assert_eq!(first.len(), 2);
    assert_eq!(
        first,
        vec![
            Tag { id: 1, label: "cat".to_string() },
            Tag { id: 2, label: "cute".to_string() },
        ]
    );
    let second = get_tags_for_image(&img2, &mut store).unwrap();
    assert_eq!(second.len(), 0);
}

#[test]
fn seed_fills_the_three_tables() {
    let mut store = MemoryStore::new();
    insert_test_data(&mut store, false).unwrap();
    assert_eq!(
        store.images(),
        vec![
            Image { id: 1, url: "img1.jpg".to_string() },
            Image { id: 2, url: "img1.jpg".to_string() },
        ]
    );
    assert_eq!(labels(&store.tags()), vec!["cat".to_string(), "cute".to_string()]);
    assert_eq!(
        store.image_tags(),
        vec![
            ImageTag { id: 1, image_id: 1, tag_id: 1 },
            ImageTag { id: 2, image_id: 1, tag_id: 2 },
        ]
    );
}

#[test]
fn atomic_seed_gives_the_same_rows_and_closes_its_transaction() {
    let mut plain = MemoryStore::new();
    let mut atomic = MemoryStore::new();
    let expected = insert_test_data(&mut plain, false).unwrap();
    let got = insert_test_data(&mut atomic, true).unwrap();
    assert_eq!(got, expected);
    assert_eq!(atomic.images(), plain.images());
    assert_eq!(atomic.tags(), plain.tags());
    assert_eq!(atomic.image_tags(), plain.image_tags());
    assert!(!atomic.in_transaction());
}

#[test]
fn inserted_image_is_read_back_with_its_url() {
    let mut store = MemoryStore::new();
    let reply = store.execute(&Statement::InsertImage { url: "a/b.png".to_string() });
    let row = match reply {
        Reply::Image(row) => row,
        other => panic!("unexpected reply {:?}", other),
    };
    assert_eq!(row.url, "a/b.png");
    assert_eq!(store.image(row.id), Some(Image { id: row.id, url: "a/b.png".to_string() }));
    assert_eq!(store.image(row.id + 1), None);
}

#[test]
fn two_images_with_one_url_get_distinct_identities() {
    let mut store = MemoryStore::new();
    let first = store.execute(&Statement::InsertImage { url: "same.jpg".to_string() });
    let second = store.execute(&Statement::InsertImage { url: "same.jpg".to_string() });
    match (first, second) {
        (Reply::Image(a), Reply::Image(b)) => {
            assert_eq!(a.url, b.url);
            assert_ne!(a.id, b.id);
            assert_eq!(store.image(a.id), Some(a));
            assert_eq!(store.image(b.id), Some(b));
        }
        other => panic!("unexpected replies {:?}", other),
    }
    assert_eq!(store.images().len(), 2);
}

#[test]
fn reset_leaves_no_tags_and_no_images_behind() {
    let mut store = MemoryStore::new();
    let (img1, img2) = insert_test_data(&mut store, false).unwrap();
    assert_eq!(reset_db(&mut store, false), Ok(()));
    assert_eq!(get_tags_for_image(&img1, &mut store).unwrap(), vec![]);
    assert_eq!(get_tags_for_image(&img2, &mut store).unwrap(), vec![]);
    assert_eq!(store.image(img1.id), None);
    assert_eq!(store.image(img2.id), None);
    assert!(store.images().is_empty());
    assert!(store.tags().is_empty());
    assert!(store.image_tags().is_empty());
}

#[test]
fn reset_twice_succeeds_twice_on_the_same_empty_store() {
    let mut store = MemoryStore::new();
    insert_test_data(&mut store, false).unwrap();
    assert_eq!(reset_db(&mut store, false), Ok(()));
    let images = store.images();
    let tags = store.tags();
    let links = store.image_tags();
    assert_eq!(reset_db(&mut store, true), Ok(()));
    assert_eq!(store.images(), images);
    assert_eq!(store.tags(), tags);
    assert_eq!(store.image_tags(), links);
    assert!(store.images().is_empty());
    assert!(!store.in_transaction());
}

#[test]
fn reset_of_an_empty_store_succeeds() {
    let mut store = MemoryStore::new();
    assert_eq!(reset_db(&mut store, false), Ok(()));
    assert_eq!(reset_db(&mut store, true), Ok(()));
}

#[test]
fn identities_are_not_given_out_again_after_a_reset() {
    let mut store = MemoryStore::new();
    insert_test_data(&mut store, false).unwrap();
    reset_db(&mut store, false).unwrap();
    let (img1, img2) = insert_test_data(&mut store, false).unwrap();
    assert_eq!((img1.id, img2.id), (3, 4));
    let tags = get_tags_for_image(&img1, &mut store).unwrap();
    assert_eq!(
        tags,
        vec![
            Tag { id: 3, label: "cat".to_string() },
            Tag { id: 4, label: "cute".to_string() },
        ]
    );
    assert_eq!(
        store.image_tags(),
        vec![
            ImageTag { id: 3, image_id: 3, tag_id: 3 },
            ImageTag { id: 4, image_id: 3, tag_id: 4 },
        ]
    );
}

#[test]
fn seeding_twice_keeps_the_tags_of_each_first_image_apart() {
    let mut store = MemoryStore::new();
    let (a1, a2) = insert_test_data(&mut store, false).unwrap();
    let (b1, b2) = insert_test_data(&mut store, true).unwrap();
    let ids = |tags: Vec<Tag>| tags.iter().map(|tag| tag.id).collect::<Vec<i32>>();
    assert_eq!(ids(get_tags_for_image(&a1, &mut store).unwrap()), vec![1, 2]);
    assert_eq!(ids(get_tags_for_image(&b1, &mut store).unwrap()), vec![3, 4]);
    assert!(get_tags_for_image(&a2, &mut store).unwrap().is_empty());
    assert!(get_tags_for_image(&b2, &mut store).unwrap().is_empty());
}

#[test]
fn lookup_of_an_unknown_image_gives_no_tags() {
    let mut store = MemoryStore::new();
    insert_test_data(&mut store, false).unwrap();
    let stranger = Image { id: 77, url: "nowhere.jpg".to_string() };
    assert_eq!(get_tags_for_image(&stranger, &mut store), Ok(vec![]));
}

#[test]
fn lookup_leaves_the_store_as_it_was() {
    let mut store = MemoryStore::new();
    let (img1, _) = insert_test_data(&mut store, false).unwrap();
    let images = store.images();
    let tags = store.tags();
    let links = store.image_tags();
    get_tags_for_image(&img1, &mut store).unwrap();
    assert_eq!(store.images(), images);
    assert_eq!(store.tags(), tags);
    assert_eq!(store.image_tags(), links);
}

#[test]
fn seed_fails_at_the_first_entity_without_an_identity() {
    let cases = [
        ((i32::MAX, 0, 0), Entity::FirstImage, 0, 0, 0),
        ((i32::MAX - 1, 0, 0), Entity::SecondImage, 1, 0, 0),
        ((0, i32::MAX, 0), Entity::CatTag, 2, 0, 0),
        ((0, i32::MAX - 1, 0), Entity::CuteTag, 2, 1, 0),
        ((0, 0, i32::MAX), Entity::CatLink, 2, 2, 0),
        ((0, 0, i32::MAX - 1), Entity::CuteLink, 2, 2, 1),
    ];
    for ((image, tag, link), entity, images, tags, links) in cases {
        let mut store = MemoryStore::starting_after(image, tag, link).unwrap();
        assert_eq!(insert_test_data(&mut store, false), Err(InsertError::Entity(entity)));
        assert_eq!(store.images().len(), images);
        assert_eq!(store.tags().len(), tags);
        assert_eq!(store.image_tags().len(), links);
    }
}

#[test]
fn atomic_seed_that_fails_leaves_the_rows_as_they_were() {
    let mut store = MemoryStore::starting_after(10, 20, i32::MAX - 1).unwrap();
    store.execute(&Statement::InsertImage { url: "kept.jpg".to_string() });
    let images = store.images();
    assert_eq!(images, vec![Image { id: 11, url: "kept.jpg".to_string() }]);

    assert_eq!(insert_test_data(&mut store, true), Err(InsertError::Entity(Entity::CuteLink)));
    assert_eq!(store.images(), images);
    assert!(store.tags().is_empty());
    assert!(store.image_tags().is_empty());
    assert!(!store.in_transaction());

    // The identities that the failed run used stay used.
    let reply = store.execute(&Statement::InsertImage { url: "next.jpg".to_string() });
    assert_eq!(reply, Reply::Image(Image { id: 14, url: "next.jpg".to_string() }));
}

#[test]
fn atomic_operations_fail_at_begin_inside_a_transaction() {
    let mut store = MemoryStore::new();
    insert_test_data(&mut store, false).unwrap();
    assert_eq!(store.execute(&Statement::Begin), Reply::Done { rows: 0 });
    assert_eq!(reset_db(&mut store, true), Err(DeleteError::Transaction(Boundary::Begin)));
    assert_eq!(
        insert_test_data(&mut store, true),
        Err(InsertError::Transaction(Boundary::Begin))
    );
    assert_eq!(
        list_tags(&mut store, true),
        Err(Failure::Delete(DeleteError::Transaction(Boundary::Begin)))
    );
    assert_eq!(store.images().len(), 2);
    assert_eq!(store.image_tags().len(), 2);
    assert!(store.in_transaction());
}

#[test]
fn starting_after_refuses_negative_identities() {
    assert!(MemoryStore::starting_after(-1, 0, 0).is_none());
    assert!(MemoryStore::starting_after(0, -1, 0).is_none());
    assert!(MemoryStore::starting_after(0, 0, i32::MIN).is_none());
    assert!(MemoryStore::starting_after(0, 0, 0).is_some());
}

#[test]
fn list_tags_resets_seeds_and_lists_both_images() {
    let mut store = MemoryStore::new();
    store.execute(&Statement::InsertTag { label: "stale".to_string() });
    let listing = list_tags(&mut store, false).unwrap();
    assert_eq!(
        listing.first,
        vec![
            Tag { id: 2, label: "cat".to_string() },
            Tag { id: 3, label: "cute".to_string() },
        ]
    );
    assert_eq!(listing.second, vec![]);
    assert_eq!(
        listing.lines(),
        vec![
            "Image 1 has 2 tags.".to_string(),
            "2: cat".to_string(),
            "3: cute".to_string(),
            "Image 2 has 0 tags.".to_string(),
        ]
    );
    assert_eq!(labels(&store.tags()), vec!["cat".to_string(), "cute".to_string()]);
}

#[test]
fn list_tags_twice_gives_the_same_tags_under_new_identities() {
    let mut store = MemoryStore::new();
    let once = list_tags(&mut store, true).unwrap();
    let twice = list_tags(&mut store, true).unwrap();
    assert_eq!(labels(&once.first), labels(&twice.first));
    assert_eq!(once.first[0].id, 1);
    assert_eq!(twice.first[0].id, 3);
    assert_eq!(store.images().len(), 2);
}

#[test]
fn list_tags_fails_where_the_seeding_fails() {
    let mut store = MemoryStore::starting_after(0, i32::MAX, 0).unwrap();
    assert_eq!(
        list_tags(&mut store, false),
        Err(Failure::Insert(InsertError::Entity(Entity::CatTag)))
    );
    assert_eq!(store.images().len(), 2);
    let mut store = MemoryStore::starting_after(0, i32::MAX, 0).unwrap();
    assert_eq!(
        list_tags(&mut store, true),
        Err(Failure::Insert(InsertError::Entity(Entity::CatTag)))
    );
    assert!(store.images().is_empty());
}
