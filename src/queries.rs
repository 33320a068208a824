//! The catalog's operations. Each runs the statements that `statement`
//! builds on the connection it is given, one after the other; which rows a
//! statement reads or changes is up to the database, and what the catalog
//! makes of those rows is proved in `model`.

use crate::model::{
    add_created_tag, batch_step, files_from_rows, first_id, groups_from_rows, ids_from_rows, rename_outcome, Cell, File,
    Group, StoreError, Tag,
};
use crate::sqlite::{cell_of, execute, query_rows, since_epoch, utc_text};
use rusqlite::types::Value;
use crate::statement::{
    file_group_statement, files_by_group_name_statement, files_by_tag_id_statement,
    files_by_tag_name_statement, group_tag_statement, groups_by_name_statement,
    insert_file_statement, insert_group_statement, insert_tag_statement, rename_tag_statement,
    tag_id_statement, tag_ids_statement, Statement,
};
use rusqlite::Connection;
use vstd::prelude::*;

verus! {

/// Turns every value of every row into a cell, keeping the shape.
fn cells_of_rows(values: &Vec<Vec<Value>>) -> (r: Vec<Vec<Cell>>)
    ensures
        r.len() == values.len(),
        forall|i: int| 0 <= i < r.len() ==> (#[trigger] r@[i]).len() == values@[i].len(),
{
    let mut rows: Vec<Vec<Cell>> = Vec::new();
    let mut k: usize = 0;
    while k < values.len()
        invariant
            k <= values.len(),
            rows.len() == k,
            forall|i: int| 0 <= i < k ==> (#[trigger] rows@[i]).len() == values@[i].len(),
        decreases values.len() - k,
    {
        let row = &values[k];
        let mut cells: Vec<Cell> = Vec::new();
        let mut c: usize = 0;
        while c < row.len()
            invariant
                c <= row.len(),
                cells.len() == c,
            decreases row.len() - c,
        {
            cells.push(cell_of(&row[c]));
            c = c + 1;
        }
        rows.push(cells);
        k = k + 1;
    }
    rows
}

/// Runs the query `st` and gives its rows as cells, `width` to a row.
fn run_query(conn: &Connection, st: &Statement, width: usize) -> (r: Result<
    Vec<Vec<Cell>>,
    StoreError,
>)
    ensures
        r is Ok ==> forall|i: int|
            0 <= i < r->Ok_0.len() ==> (#[trigger] r->Ok_0@[i]).len() == width,
        r is Err ==> r->Err_0 is Sqlite,
{
    match query_rows(conn, st, width) {
        Ok(values) => Ok(cells_of_rows(&values)),
        Err(e) => Err(StoreError::Sqlite(e)),
    }
}

/// Runs the statement `st` and gives the number of rows that it changed.
fn run_statement(conn: &Connection, st: &Statement) -> (r: Result<usize, StoreError>)
    ensures
        r is Err ==> r->Err_0 is Sqlite,
{
    match execute(conn, st) {
        Ok(n) => Ok(n),
        Err(e) => Err(StoreError::Sqlite(e)),
    }
}

/// The files in every group that carries tag `tag_id`: a file comes once for
/// each of its groups that carries the tag, and once more for each repeated
/// link.
pub fn search_files_by_tag_id(conn: &Connection, tag_id: i64) -> (r: Result<
    Vec<File>,
    StoreError,
>)
    ensures
        r is Err ==> r->Err_0 is Sqlite || r->Err_0 is ColumnType,
{
    let rows = run_query(conn, &files_by_tag_id_statement(tag_id), 3);
    match rows {
        Ok(rows) => files_from_rows(&rows),
        Err(e) => Err(e),
    }
}

/// The id that the database gave the row most recently inserted on this
/// connection.
pub fn get_last_insert_rowid(conn: &Connection) -> (r: Result<i64, StoreError>)
    ensures
        r is Ok,
{
    Ok(conn.last_insert_rowid())
}

/// Registers a file of kind `file_type` stored at `location`, and gives it
/// back with the id that the database assigned.
pub fn upload_file(conn: &Connection, file_type: &str, location: &str) -> (r: Result<
    Option<File>,
    StoreError,
>)
    ensures
        r is Ok ==> r->Ok_0 is Some,
        r is Ok ==> r->Ok_0->Some_0.file_type@ == file_type@,
        r is Ok ==> r->Ok_0->Some_0.location@ == location@,
        r is Err ==> r->Err_0 is Sqlite,
{
    let inserted = run_statement(conn, &insert_file_statement(file_type, location));
    if let Err(e) = inserted {
        return Err(e);
    }
    let file_id = match get_last_insert_rowid(conn) {
        Ok(id) => id,
        Err(e) => return Err(e),
    };
    Ok(Some(File { id: file_id, file_type: file_type.to_string(), location: location.to_string() }))
}

/// Puts file `file_id` into group `group_id`. A link that is already there
/// is added once more.
pub fn associate_file_with_group(conn: &Connection, file_id: i64, group_id: i64) -> (r: Result<
    (),
    StoreError,
>)
    ensures
        r is Err ==> r->Err_0 is Sqlite,
{
    match run_statement(conn, &file_group_statement(file_id, group_id)) {
        Ok(_) => Ok(()),
        Err(e) => Err(e),
    }
}

/// Labels group `group_id` with each tag of `tag_ids`, in order, one
/// statement each. The first failure stops the rest; the links made before
/// it stay.
pub fn associate_tags_with_group(conn: &Connection, group_id: i64, tag_ids: &[i64]) -> (r: Result<
    (),
    StoreError,
>)
    ensures
        tag_ids.len() == 0 ==> r is Ok,
        r is Err ==> r->Err_0 is Sqlite,
{
    let mut k: usize = 0;
    while k < tag_ids.len()
        invariant
            k <= tag_ids.len(),
        decreases tag_ids.len() - k,
    {
        let linked = run_statement(conn, &group_tag_statement(group_id, tag_ids[k]));
        if let Err(e) = batch_step(linked) {
            return Err(e);
        }
        k = k + 1;
    }
    Ok(())
}

/// The files in every group that carries a tag named `tag_name`, with the
/// same repetitions as `search_files_by_tag_id`.
pub fn search_files_by_tag(conn: &Connection, tag_name: &str) -> (r: Result<
    Vec<File>,
    StoreError,
>)
    ensures
        r is Err ==> r->Err_0 is Sqlite || r->Err_0 is ColumnType,
{
    let rows = run_query(conn, &files_by_tag_name_statement(tag_name), 3);
    match rows {
        Ok(rows) => files_from_rows(&rows),
        Err(e) => Err(e),
    }
}

/// The files in every group named `group_name`. No such group gives no
/// files, not an error.
pub fn search_files_by_group_name(conn: &Connection, group_name: &str) -> (r: Result<
    Vec<File>,
    StoreError,
>)
    ensures
        r is Err ==> r->Err_0 is Sqlite || r->Err_0 is ColumnType,
{
    let rows = run_query(conn, &files_by_group_name_statement(group_name), 3);
    match rows {
        Ok(rows) => files_from_rows(&rows),
        Err(e) => Err(e),
    }
}

/// The id of the first tag named `tag_name`, or `None` where there is none.
pub fn get_tag_id(conn: &Connection, tag_name: &str) -> (r: Result<Option<i64>, StoreError>)
    ensures
        r is Err ==> r->Err_0 is Sqlite || r->Err_0 == StoreError::ColumnType(0),
{
    let rows = run_query(conn, &tag_id_statement(tag_name), 1);
    match rows {
        Ok(rows) => first_id(&rows),
        Err(e) => Err(e),
    }
}

/// Renames tag `tag_id` to `new_name`. Where no tag has that id nothing is
/// changed and the error says so.
pub fn update_tag_name(conn: &Connection, tag_id: i64, new_name: &str) -> (r: Result<
    (),
    StoreError,
>)
    ensures
        r is Err ==> r->Err_0 is Sqlite || r->Err_0 == StoreError::NoSuchTag(tag_id),
{
    let changed = run_statement(conn, &rename_tag_statement(tag_id, new_name));
    match changed {
        Ok(n) => rename_outcome(tag_id, n),
        Err(e) => Err(e),
    }
}

/// The ids of every tag named `tag_name`.
pub fn search_tag(conn: &Connection, tag_name: &str) -> (r: Result<Vec<i64>, StoreError>)
    ensures
        r is Err ==> r->Err_0 is Sqlite || r->Err_0 is ColumnType,
{
    let rows = run_query(conn, &tag_ids_statement(tag_name), 1);
    match rows {
        Ok(rows) => ids_from_rows(&rows),
        Err(e) => Err(e),
    }
}

/// Every group named `group_name`, with its times as the database holds
/// them.
pub fn search_group_by_name(conn: &Connection, group_name: &str) -> (r: Result<
    Vec<Group>,
    StoreError,
>)
    ensures
        r is Err ==> r->Err_0 is Sqlite || r->Err_0 is ColumnType,
{
    let rows = run_query(conn, &groups_by_name_statement(group_name), 5);
    match rows {
        Ok(rows) => groups_from_rows(&rows),
        Err(e) => Err(e),
    }
}

/// The current UTC time as text, or `None` where the clock reads a time
/// before the Unix epoch or one that cannot be written down.
fn current_utc_text() -> (r: Option<String>)
    ensures
        r is Some ==> r->Some_0@.len() > 0,
{
    match since_epoch() {
        Some((secs, nanos)) => {
            if secs <= i64::MAX as u64 {
                utc_text(secs as i64, nanos)
            } else {
                None
            }
        },
        None => None,
    }
}

/// Creates a group named `name`. The database records its creation and
/// modification times by its own clock; the group handed back carries the
/// current UTC time read here instead. Where the clock cannot give that
/// time, nothing is inserted and the error says so.
pub fn create_group(conn: &Connection, name: &str, is_primary: bool) -> (r: Result<
    Option<Group>,
    StoreError,
>)
    ensures
        r is Ok ==> r->Ok_0 is Some,
        r is Ok ==> r->Ok_0->Some_0.name@ == name@,
        r is Ok ==> r->Ok_0->Some_0.is_primary == is_primary,
        r is Ok ==> r->Ok_0->Some_0.create_time@.len() > 0,
        r is Ok ==> r->Ok_0->Some_0.modify_time@.len() > 0,
        r is Err ==> r->Err_0 is Sqlite || r->Err_0 is Clock,
{
    let now = match current_utc_text() {
        Some(t) => t,
        None => return Err(StoreError::Clock),
    };
    let inserted = run_statement(conn, &insert_group_statement(name, is_primary));
    if let Err(e) = inserted {
        return Err(e);
    }
    let group_id = match get_last_insert_rowid(conn) {
        Ok(id) => id,
        Err(e) => return Err(e),
    };
    Ok(
        Some(
            Group {
                id: group_id,
                name: name.to_string(),
                is_primary,
                create_time: now.clone(),
                modify_time: now,
            },
        ),
    )
}

/// Creates one tag for each of `names`, in order, and gives them back in
/// that order with their ids. The first failure stops the rest; the tags
/// made before it stay.
pub fn create_tags(conn: &Connection, names: Vec<&str>) -> (r: Result<Vec<Tag>, StoreError>)
    ensures
        names.len() == 0 ==> r is Ok && r->Ok_0.len() == 0,
        r is Ok ==> r->Ok_0.len() == names.len(),
        r is Ok ==> forall|i: int|
            0 <= i < names.len() ==> (#[trigger] r->Ok_0@[i]).name@ == names@[i]@,
        r is Err ==> r->Err_0 is Sqlite,
{
    let mut tags: Vec<Tag> = Vec::new();
    let mut k: usize = 0;
    while k < names.len()
        invariant
            k <= names.len(),
            tags.len() == k,
            forall|i: int| 0 <= i < k ==> (#[trigger] tags@[i]).name@ == names@[i]@,
        decreases names.len() - k,
    {
        let name = names[k];
        let inserted = match run_statement(conn, &insert_tag_statement(name)) {
            Ok(_) => get_last_insert_rowid(conn),
            Err(e) => Err(e),
        };
        let ghost before = tags@;
        if let Err(e) = add_created_tag(&mut tags, name, inserted) {
            return Err(e);
        }
        assert forall|i: int| 0 <= i < k implies (#[trigger] tags@[i]).name@ == names@[i]@ by {
            assert(tags@.take(k as int)[i] == before[i]);
        }
        k = k + 1;
    }
    Ok(tags)
}

} // verus!
