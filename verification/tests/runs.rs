use tag_fixture::error::{Boundary, DeleteError, Entity, InsertError, QueryError};
use tag_fixture::listing::{Failure, ListingRun};
use tag_fixture::lookup::LookupRun;
use tag_fixture::model::{Image, Table, Tag};
use tag_fixture::report::Listing;
use tag_fixture::reset::{ResetRun, ResetStage};
use tag_fixture::seed::{SeedRun, SeedStage, CAT_LABEL, CUTE_LABEL, IMAGE_URL};
use tag_fixture::statement::{Reply, Statement};

fn image(id: i32) -> Image {
    Image { id, url: "img1.jpg".to_string() }
}

fn tag(id: i32, label: &str) -> Tag {
    Tag { id, label: label.to_string() }
}

const DONE: Reply = Reply::Done { rows: 1 };

#[test]
fn fixture_constants() {
    assert_eq!(IMAGE_URL, "img1.jpg");
    assert_eq!(CAT_LABEL, "cat");
    assert_eq!(CUTE_LABEL, "cute");
}

#[test]
fn reset_deletes_children_before_parents() {
    let mut run = ResetRun::start(false);
    let mut issued = Vec::new();
    while let Some(statement) = run.next_statement() {
        issued.push(statement);
        run = run.resume(&Reply::Done { rows: 0 });
    }
    assert_eq!(
        issued,
        vec![
            Statement::DeleteAll { table: Table::ImageTags },
            Statement::DeleteAll { table: Table::Tags },
            Statement::DeleteAll { table: Table::Images },
        ]
    );
    assert!(run.is_over());
    assert_eq!(run.finish(), Some(Ok(())));
}

#[test]
fn atomic_reset_wraps_the_deletions_in_a_transaction() {
    let mut run = ResetRun::start(true);
    let mut issued = Vec::new();
    while let Some(statement) = run.next_statement() {
        issued.push(statement);
        run = run.resume(&DONE);
    }
    assert_eq!(
        issued,
        vec![
            Statement::Begin,
            Statement::DeleteAll { table: Table::ImageTags },
            Statement::DeleteAll { table: Table::Tags },
            Statement::DeleteAll { table: Table::Images },
            Statement::Commit,
        ]
    );
    assert_eq!(run.finish(), Some(Ok(())));
}

#[test]
fn reset_names_the_table_whose_deletion_failed() {
    for (done, table) in [(0, Table::ImageTags), (1, Table::Tags), (2, Table::Images)] {
        let mut run = ResetRun::start(false);
        for _ in 0..done {
            run = run.resume(&DONE);
        }
        assert_eq!(run.next_statement(), Some(Statement::DeleteAll { table }));
        run = run.resume(&Reply::Failed);
        assert_eq!(run.next_statement(), None);
        assert_eq!(run.finish(), Some(Err(DeleteError::Table(table))));
    }
}

#[test]
fn atomic_reset_rolls_back_after_a_failed_deletion() {
    let mut run = ResetRun::start(true);
    run = run.resume(&DONE);
    run = run.resume(&DONE);
    run = run.resume(&Reply::Failed);
    assert_eq!(run.stage, ResetStage::Undoing { error: DeleteError::Table(Table::Tags) });
    assert_eq!(run.finish(), None);
    assert_eq!(run.next_statement(), Some(Statement::Rollback));
    // The error stays that of the deletion, whatever the rollback replies.
    assert_eq!(run.resume(&Reply::Failed).finish(), Some(Err(DeleteError::Table(Table::Tags))));
    assert_eq!(run.resume(&DONE).finish(), Some(Err(DeleteError::Table(Table::Tags))));
}

#[test]
fn atomic_reset_reports_a_failed_begin_or_commit() {
    let run = ResetRun::start(true).resume(&Reply::Failed);
    assert_eq!(run.finish(), Some(Err(DeleteError::Transaction(Boundary::Begin))));

    let mut run = ResetRun::start(true);
    for _ in 0..4 {
        run = run.resume(&DONE);
    }
    assert_eq!(run.next_statement(), Some(Statement::Commit));
    let run = run.resume(&Reply::Failed);
    assert_eq!(run.finish(), Some(Err(DeleteError::Transaction(Boundary::Commit))));
}

#[test]
fn reset_takes_a_reply_of_another_kind_as_a_failure() {
    let run = ResetRun::start(false).resume(&Reply::TagIds(vec![]));
    assert_eq!(run.finish(), Some(Err(DeleteError::Table(Table::ImageTags))));
}

#[test]
fn a_finished_reset_stays_finished() {
    let mut run = ResetRun::start(false);
    for _ in 0..3 {
        run = run.resume(&DONE);
    }
    assert!(run.is_over());
    assert_eq!(run.resume(&Reply::Failed), run);
    assert_eq!(run.resume(&DONE).finish(), Some(Ok(())));
}

fn seed_replies() -> Vec<Reply> {
    vec![
        Reply::Image(image(10)),
        Reply::Image(image(11)),
        Reply::Tag(tag(20, "cat")),
        Reply::Tag(tag(21, "cute")),
        DONE,
        DONE,
    ]
}

#[test]
fn seed_inserts_the_six_rows_in_order_with_the_generated_identities() {
    let mut run = SeedRun::start(false);
    let mut issued = Vec::new();
    for reply in seed_replies() {
        issued.push(run.next_statement().unwrap());
        run = run.resume(reply);
    }
    assert_eq!(
        issued,
        vec![
            Statement::InsertImage { url: "img1.jpg".to_string() },
            Statement::InsertImage { url: "img1.jpg".to_string() },
            Statement::InsertTag { label: "cat".to_string() },
            Statement::InsertTag { label: "cute".to_string() },
            Statement::InsertImageTag { image_id: 10, tag_id: 20 },
            Statement::InsertImageTag { image_id: 10, tag_id: 21 },
        ]
    );
    assert_eq!(run.next_statement(), None);
    assert!(run.is_over());
    assert_eq!(run.finish(), Some(Ok((image(10), image(11)))));
}

#[test]
fn atomic_seed_wraps_the_insertions_in_a_transaction() {
    let mut run = SeedRun::start(true);
    assert_eq!(run.next_statement(), Some(Statement::Begin));
    run = run.resume(Reply::Done { rows: 0 });
    for reply in seed_replies() {
        assert!(!run.is_over());
        run = run.resume(reply);
    }
    assert_eq!(run.next_statement(), Some(Statement::Commit));
    assert_eq!(run.clone().finish(), None);
    let run = run.resume(Reply::Done { rows: 0 });
    assert_eq!(run.finish(), Some(Ok((image(10), image(11)))));
}

#[test]
fn seed_names_the_entity_whose_insertion_failed() {
    let entities = [
        Entity::FirstImage,
        Entity::SecondImage,
        Entity::CatTag,
        Entity::CuteTag,
        Entity::CatLink,
        Entity::CuteLink,
    ];
    for (at, entity) in entities.iter().enumerate() {
        let mut run = SeedRun::start(false);
        for reply in seed_replies().into_iter().take(at) {
            run = run.resume(reply);
        }
        assert!(run.next_statement().is_some());
        run = run.resume(Reply::Failed);
        assert_eq!(run.next_statement(), None);
        assert_eq!(run.finish(), Some(Err(InsertError::Entity(*entity))));
    }
}

#[test]
fn atomic_seed_rolls_back_after_a_failed_insertion() {
    let mut run = SeedRun::start(true).resume(DONE);
    for reply in seed_replies().into_iter().take(3) {
        run = run.resume(reply);
    }
    run = run.resume(Reply::Failed);
    assert_eq!(
        run.stage,
        SeedStage::Undoing { error: InsertError::Entity(Entity::CuteTag) }
    );
    assert_eq!(run.next_statement(), Some(Statement::Rollback));
    let run = run.resume(Reply::Failed);
    assert_eq!(run.finish(), Some(Err(InsertError::Entity(Entity::CuteTag))));
}

#[test]
fn atomic_seed_reports_a_failed_begin_or_commit() {
    let run = SeedRun::start(true).resume(Reply::Failed);
    assert_eq!(run.finish(), Some(Err(InsertError::Transaction(Boundary::Begin))));

    let mut run = SeedRun::start(true).resume(DONE);
    for reply in seed_replies() {
        run = run.resume(reply);
    }
    let run = run.resume(Reply::Failed);
    assert_eq!(run.finish(), Some(Err(InsertError::Transaction(Boundary::Commit))));
}

#[test]
fn seed_takes_a_reply_of_another_kind_as_a_failure() {
    let run = SeedRun::start(false).resume(Reply::Tag(tag(1, "cat")));
    assert_eq!(run.finish(), Some(Err(InsertError::Entity(Entity::FirstImage))));
    let run = SeedRun::start(false).resume(Reply::Image(image(1))).resume(Reply::Image(image(2)));
    let run = run.resume(Reply::Image(image(3)));
    assert_eq!(run.finish(), Some(Err(InsertError::Entity(Entity::CatTag))));
}

#[test]
fn seed_hands_back_the_rows_that_the_store_returned() {
    let mut run = SeedRun::start(false);
    run = run.resume(Reply::Image(Image { id: -5, url: "other.jpg".to_string() }));
    run = run.resume(Reply::Image(Image { id: -5, url: "again.jpg".to_string() }));
    run = run.resume(Reply::Tag(tag(7, "x")));
    run = run.resume(Reply::Tag(tag(7, "y")));
    assert_eq!(
        run.next_statement(),
        Some(Statement::InsertImageTag { image_id: -5, tag_id: 7 })
    );
    run = run.resume(DONE).resume(DONE);
    assert_eq!(
        run.finish(),
        Some(Ok((
            Image { id: -5, url: "other.jpg".to_string() },
            Image { id: -5, url: "again.jpg".to_string() },
        )))
    );
}

#[test]
fn lookup_selects_the_tag_ids_and_then_the_tags() {
    let run = LookupRun::start(4);
    assert_eq!(run.next_statement(), Some(Statement::SelectTagIds { image_id: 4 }));
    let run = run.resume(Reply::TagIds(vec![9, 8, 9]));
    assert_eq!(run.next_statement(), Some(Statement::SelectTags { ids: vec![9, 8, 9] }));
    assert!(!run.is_over());
    let run = run.resume(Reply::Tags(vec![tag(8, "b"), tag(9, "a")]));
    assert_eq!(run.next_statement(), None);
    assert_eq!(run.finish(), Some(Ok(vec![tag(8, "b"), tag(9, "a")])));
}

#[test]
fn lookup_without_associations_ends_with_no_tags_and_no_second_statement() {
    let run = LookupRun::start(4).resume(Reply::TagIds(vec![]));
    assert!(run.is_over());
    assert_eq!(run.next_statement(), None);
    assert_eq!(run.finish(), Some(Ok(vec![])));
}

#[test]
fn lookup_names_the_table_that_could_not_be_read() {
    let run = LookupRun::start(4).resume(Reply::Failed);
    assert_eq!(run.finish(), Some(Err(QueryError { table: Table::ImageTags })));
    let run = LookupRun::start(4).resume(Reply::TagIds(vec![1])).resume(Reply::Failed);
    assert_eq!(run.finish(), Some(Err(QueryError { table: Table::Tags })));
    let run = LookupRun::start(4).resume(Reply::Tags(vec![]));
    assert_eq!(run.finish(), Some(Err(QueryError { table: Table::ImageTags })));
    let run = LookupRun::start(4).resume(Reply::TagIds(vec![1])).resume(Reply::TagIds(vec![1]));
    assert_eq!(run.finish(), Some(Err(QueryError { table: Table::Tags })));
}

#[test]
fn a_finished_lookup_stays_finished() {
    let run = LookupRun::start(4).resume(Reply::TagIds(vec![]));
    let run = run.resume(Reply::Failed);
    assert_eq!(run.finish(), Some(Ok(vec![])));
}

fn drive(mut run: ListingRun, replies: Vec<Reply>) -> (ListingRun, Vec<Statement>) {
    let mut issued = Vec::new();
    for reply in replies {
        match run.next_statement() {
            Some(statement) => issued.push(statement),
            None => break,
        }
        run = run.resume(reply);
    }
    (run, issued)
}

#[test]
fn listing_resets_seeds_and_looks_up_both_images() {
    let mut replies = vec![DONE, DONE, DONE];
    replies.extend(seed_replies());
    replies.push(Reply::TagIds(vec![20, 21]));
    replies.push(Reply::Tags(vec![tag(20, "cat"), tag(21, "cute")]));
    replies.push(Reply::TagIds(vec![]));
    let (run, issued) = drive(ListingRun::start(false), replies);
    assert_eq!(issued.len(), 12);
    assert_eq!(issued[0], Statement::DeleteAll { table: Table::ImageTags });
    assert_eq!(issued[3], Statement::InsertImage { url: "img1.jpg".to_string() });
    assert_eq!(issued[9], Statement::SelectTagIds { image_id: 10 });
    assert_eq!(issued[10], Statement::SelectTags { ids: vec![20, 21] });
    assert_eq!(issued[11], Statement::SelectTagIds { image_id: 11 });
    assert!(run.is_over());
    assert_eq!(run.next_statement(), None);
    assert_eq!(
        run.finish(),
        Some(Ok(Listing { first: vec![tag(20, "cat"), tag(21, "cute")], second: vec![] }))
    );
}

#[test]
fn atomic_listing_uses_one_transaction_for_the_reset_and_one_for_the_seeding() {
    let mut replies = vec![DONE; 5];
    replies.push(DONE);
    replies.extend(seed_replies());
    replies.push(DONE);
    replies.push(Reply::TagIds(vec![]));
    replies.push(Reply::TagIds(vec![]));
    let (run, issued) = drive(ListingRun::start(true), replies);
    let boundaries: Vec<usize> = issued
        .iter()
        .enumerate()
        .filter(|(_, statement)| matches!(statement, Statement::Begin | Statement::Commit))
        .map(|(at, _)| at)
        .collect();
    assert_eq!(boundaries, vec![0, 4, 5, 12]);
    assert_eq!(issued[0], Statement::Begin);
    assert_eq!(issued[4], Statement::Commit);
    assert_eq!(issued[5], Statement::Begin);
    assert_eq!(issued[12], Statement::Commit);
    assert_eq!(run.finish(), Some(Ok(Listing { first: vec![], second: vec![] })));
}

#[test]
fn listing_fails_with_the_error_of_the_phase_that_failed() {
    let (run, issued) = drive(ListingRun::start(false), vec![DONE, Reply::Failed]);
    assert_eq!(issued.len(), 2);
    assert_eq!(run.next_statement(), None);
    assert_eq!(run.finish(), Some(Err(Failure::Delete(DeleteError::Table(Table::Tags)))));

    let (run, _) = drive(
        ListingRun::start(false),
        vec![DONE, DONE, DONE, Reply::Image(image(1)), Reply::Failed],
    );
    assert_eq!(
        run.finish(),
        Some(Err(Failure::Insert(InsertError::Entity(Entity::SecondImage))))
    );

    let mut replies = vec![DONE, DONE, DONE];
    replies.extend(seed_replies());
    replies.push(Reply::TagIds(vec![20]));
    replies.push(Reply::Failed);
    let (run, _) = drive(ListingRun::start(false), replies);
    assert_eq!(run.finish(), Some(Err(Failure::Query(QueryError { table: Table::Tags }))));

    let mut replies = vec![DONE, DONE, DONE];
    replies.extend(seed_replies());
    replies.push(Reply::TagIds(vec![]));
    replies.push(Reply::Failed);
    let (run, _) = drive(ListingRun::start(false), replies);
    assert_eq!(run.finish(), Some(Err(Failure::Query(QueryError { table: Table::ImageTags }))));
}

#[test]
fn listing_is_not_over_while_a_statement_is_due() {
    let run = ListingRun::start(false);
    assert!(!run.is_over());
    assert_eq!(run.clone().finish(), None);
    let run = run.resume(DONE);
    assert!(!run.is_over());
    assert_eq!(run.next_statement(), Some(Statement::DeleteAll { table: Table::Tags }));
}
