use file_classification::{
    associate_file_with_group, associate_tags_with_group, create_group, create_tags,
    get_last_insert_rowid, get_tag_id, search_files_by_group_name, search_files_by_tag,
    search_files_by_tag_id, search_group_by_name, search_tag, update_tag_name, upload_file,
    File, StoreError,
};
use rusqlite::Connection;

fn catalog() -> Connection {
    let conn = Connection::open_in_memory().unwrap();
    conn.execute_batch(
        "PRAGMA foreign_keys = ON;
         CREATE TABLE files (id INTEGER PRIMARY KEY AUTOINCREMENT, type TEXT NOT NULL, location TEXT NOT NULL);
         CREATE TABLE groups (id INTEGER PRIMARY KEY AUTOINCREMENT, name TEXT NOT NULL, is_primary BOOLEAN NOT NULL,
                              create_time TEXT NOT NULL, modify_time TEXT NOT NULL);
         CREATE TABLE tags (id INTEGER PRIMARY KEY AUTOINCREMENT, name TEXT NOT NULL);
         CREATE TABLE file_groups (file_id INTEGER NOT NULL REFERENCES files(id),
                                   group_id INTEGER NOT NULL REFERENCES groups(id));
         CREATE TABLE group_tags (group_id INTEGER NOT NULL REFERENCES groups(id),
                                  tag_id INTEGER NOT NULL REFERENCES tags(id));",
    )
    .unwrap();
    conn
}

fn register(conn: &Connection, file_type: &str, location: &str) -> File {
    upload_file(conn, file_type, location).unwrap().unwrap()
}

#[test]
fn upload_file_echoes_input_and_gives_fresh_ids() {
    let conn = catalog();
    let a = register(&conn, "pdf", "/docs/a.pdf");
    let b = register(&conn, "png", "/img/b.png");
    let c = register(&conn, "pdf", "/docs/a.pdf");
    assert_eq!(a.file_type, "pdf");
    assert_eq!(a.location, "/docs/a.pdf");
    assert_eq!(b.file_type, "png");
    assert_eq!(b.location, "/img/b.png");
    assert_ne!(a.id, b.id);
    assert_ne!(a.id, c.id);
    assert_ne!(b.id, c.id);
    assert_eq!(get_last_insert_rowid(&conn).unwrap(), c.id);
}

#[test]
fn create_group_is_found_by_name() {
    let conn = catalog();
    let g = create_group(&conn, "holidays", true).unwrap().unwrap();
    assert_eq!(g.name, "holidays");
    assert!(g.is_primary);
    assert!(!g.create_time.is_empty());
    assert!(!g.modify_time.is_empty());
    let h = create_group(&conn, "work", false).unwrap().unwrap();
    let found = search_group_by_name(&conn, "holidays").unwrap();
    assert_eq!(found.len(), 1);
    assert_eq!(found[0].id, g.id);
    assert_eq!(found[0].name, "holidays");
    assert!(found[0].is_primary);
    assert!(!found[0].create_time.is_empty());
    assert_eq!(found[0].create_time, found[0].modify_time);
    let found = search_group_by_name(&conn, "work").unwrap();
    assert_eq!(found.len(), 1);
    assert_eq!(found[0].id, h.id);
    assert!(!found[0].is_primary);
}

#[test]
fn groups_sharing_a_name_are_all_found() {
    let conn = catalog();
    create_group(&conn, "same", true).unwrap();
    create_group(&conn, "same", false).unwrap();
    let found = search_group_by_name(&conn, "same").unwrap();
    assert_eq!(found.len(), 2);
    assert!(search_group_by_name(&conn, "other").unwrap().is_empty());
}

#[test]
fn create_tags_keeps_order_and_gives_distinct_ids() {
    let conn = catalog();
    let tags = create_tags(&conn, vec!["a", "b", "c"]).unwrap();
    assert_eq!(tags.len(), 3);
    assert_eq!(tags[0].name, "a");
    assert_eq!(tags[1].name, "b");
    assert_eq!(tags[2].name, "c");
    assert!(tags[0].id < tags[1].id);
    assert!(tags[1].id < tags[2].id);
    assert_eq!(get_tag_id(&conn, "b").unwrap(), Some(tags[1].id));
}

#[test]
fn create_tags_of_nothing_is_empty() {
    let conn = catalog();
    assert!(create_tags(&conn, Vec::new()).unwrap().is_empty());
}

#[test]
fn get_tag_id_of_unknown_name_is_none() {
    let conn = catalog();
    create_tags(&conn, vec!["x"]).unwrap();
    assert_eq!(get_tag_id(&conn, "y").unwrap(), None);
}

#[test]
fn search_tag_lists_every_tag_of_that_name() {
    let conn = catalog();
    let tags = create_tags(&conn, vec!["dup", "other", "dup"]).unwrap();
    assert_eq!(search_tag(&conn, "dup").unwrap(), vec![tags[0].id, tags[2].id]);
    assert!(search_tag(&conn, "none").unwrap().is_empty());
}

#[test]
fn tagged_group_makes_its_file_findable() {
    let conn = catalog();
    let file = register(&conn, "txt", "/notes/n.txt");
    let group = create_group(&conn, "notes", false).unwrap().unwrap();
    let tags = create_tags(&conn, vec!["personal"]).unwrap();
    associate_file_with_group(&conn, file.id, group.id).unwrap();
    associate_tags_with_group(&conn, group.id, &[tags[0].id]).unwrap();

    let by_id = search_files_by_tag_id(&conn, tags[0].id).unwrap();
    assert_eq!(by_id, vec![file.clone()]);
    let by_name = search_files_by_tag(&conn, "personal").unwrap();
    assert_eq!(by_name, vec![file.clone()]);
    let by_group = search_files_by_group_name(&conn, "notes").unwrap();
    assert_eq!(by_group, vec![file]);
}

#[test]
fn unknown_group_name_gives_no_files() {
    let conn = catalog();
    let file = register(&conn, "txt", "/a.txt");
    let group = create_group(&conn, "g", false).unwrap().unwrap();
    associate_file_with_group(&conn, file.id, group.id).unwrap();
    assert!(search_files_by_group_name(&conn, "missing").unwrap().is_empty());
}

#[test]
fn renaming_a_missing_tag_is_an_error() {
    let conn = catalog();
    let r = update_tag_name(&conn, 42, "new");
    assert!(matches!(r, Err(StoreError::NoSuchTag(42))));
}

#[test]
fn renaming_a_tag_changes_its_name() {
    let conn = catalog();
    let tags = create_tags(&conn, vec!["old"]).unwrap();
    update_tag_name(&conn, tags[0].id, "new").unwrap();
    assert_eq!(get_tag_id(&conn, "old").unwrap(), None);
    assert_eq!(get_tag_id(&conn, "new").unwrap(), Some(tags[0].id));
}

#[test]
fn linking_twice_repeats_the_file() {
    let conn = catalog();
    let file = register(&conn, "jpg", "/p.jpg");
    let group = create_group(&conn, "photos", true).unwrap().unwrap();
    let tags = create_tags(&conn, vec!["summer"]).unwrap();
    associate_file_with_group(&conn, file.id, group.id).unwrap();
    associate_file_with_group(&conn, file.id, group.id).unwrap();
    associate_tags_with_group(&conn, group.id, &[tags[0].id]).unwrap();
    let found = search_files_by_tag_id(&conn, tags[0].id).unwrap();
    assert_eq!(found, vec![file.clone(), file]);
}

#[test]
fn file_in_two_tagged_groups_comes_twice() {
    let conn = catalog();
    let file = register(&conn, "mp3", "/m.mp3");
    let g1 = create_group(&conn, "one", true).unwrap().unwrap();
    let g2 = create_group(&conn, "two", false).unwrap().unwrap();
    let tags = create_tags(&conn, vec!["music"]).unwrap();
    associate_file_with_group(&conn, file.id, g1.id).unwrap();
    associate_file_with_group(&conn, file.id, g2.id).unwrap();
    associate_tags_with_group(&conn, g1.id, &[tags[0].id]).unwrap();
    associate_tags_with_group(&conn, g2.id, &[tags[0].id]).unwrap();
    assert_eq!(search_files_by_tag_id(&conn, tags[0].id).unwrap().len(), 2);
    assert_eq!(search_files_by_tag(&conn, "music").unwrap().len(), 2);
}

#[test]
fn linking_a_missing_file_is_a_store_error() {
    let conn = catalog();
    let group = create_group(&conn, "g", false).unwrap().unwrap();
    let r = associate_file_with_group(&conn, 999, group.id);
    assert!(matches!(r, Err(StoreError::Sqlite(_))));
}

#[test]
fn tag_links_stop_at_the_first_failure() {
    let conn = catalog();
    let group = create_group(&conn, "g", false).unwrap().unwrap();
    let tags = create_tags(&conn, vec!["t1", "t2"]).unwrap();
    let r = associate_tags_with_group(&conn, group.id, &[tags[0].id, 999, tags[1].id]);
    assert!(matches!(r, Err(StoreError::Sqlite(_))));
    let n: i64 = conn
        .query_row("SELECT COUNT(*) FROM group_tags", [], |row| row.get(0))
        .unwrap();
    assert_eq!(n, 1);
}

#[test]
fn operations_without_tables_are_store_errors() {
    let conn = Connection::open_in_memory().unwrap();
    assert!(matches!(upload_file(&conn, "a", "b"), Err(StoreError::Sqlite(_))));
    assert!(matches!(create_group(&conn, "a", true), Err(StoreError::Sqlite(_))));
    assert!(matches!(create_tags(&conn, vec!["a"]), Err(StoreError::Sqlite(_))));
    assert!(matches!(search_files_by_tag_id(&conn, 1), Err(StoreError::Sqlite(_))));
    assert!(matches!(get_tag_id(&conn, "a"), Err(StoreError::Sqlite(_))));
}

#[test]
fn file_with_wrong_column_kind_is_a_column_error() {
    let conn = catalog();
    conn.execute_batch(
        "PRAGMA foreign_keys = OFF;
         DROP TABLE files;
         CREATE TABLE files (id INTEGER PRIMARY KEY, type, location);
         INSERT INTO files (id, type, location) VALUES (1, 7, '/x');
         INSERT INTO file_groups VALUES (1, 1);
         INSERT INTO groups (id, name, is_primary, create_time, modify_time) VALUES (1, 'g', 0, 't', 't');",
    )
    .unwrap();
    let r = search_files_by_group_name(&conn, "g");
    assert!(matches!(r, Err(StoreError::ColumnType(1))));
}

#[test]
fn empty_tag_list_links_nothing() {
    let conn = catalog();
    let group = create_group(&conn, "g", false).unwrap().unwrap();
    associate_tags_with_group(&conn, group.id, &[]).unwrap();
    let n: i64 = conn
        .query_row("SELECT COUNT(*) FROM group_tags", [], |row| row.get(0))
        .unwrap();
    assert_eq!(n, 0);
}
