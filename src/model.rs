//! The catalog's records, and the verified decoding of result rows into them.

use vstd::prelude::*;

verus! {

/// A registered file: its generated id, its kind and where it is stored.
#[derive(Debug, Clone, PartialEq, Eq)]
pub struct File {
    pub id: i64,
    pub file_type: String,
    pub location: String,
}

/// A named group of files.
#[derive(Debug, Clone, PartialEq, Eq)]
pub struct Group {
    pub id: i64,
    pub name: String,
    pub is_primary: bool,
    pub create_time: String,
    pub modify_time: String,
}

/// A tag that can label groups.
#[derive(Debug, Clone, PartialEq, Eq)]
pub struct Tag {
    pub id: i64,
    pub name: String,
}

/// A row of the file-to-group association.
#[derive(Debug, Clone, PartialEq, Eq)]
pub struct GroupFile {
    pub file_id: i64,
    pub group_id: i64,
}

/// A row of the group-to-tag association.
#[derive(Debug, Clone, PartialEq, Eq)]
pub struct GroupTag {
    pub group_id: i64,
    pub tag_id: i64,
}

/// One column of a result row, by SQLite storage class. A floating-point
/// value is only recorded as being one.
#[derive(Debug, Clone, PartialEq, Eq)]
pub enum Cell {
    Null,
    Integer(i64),
    Real,
    Text(String),
    Blob(Vec<u8>),
}

/// Why a catalog operation failed.
#[derive(Debug)]
pub enum StoreError {
    /// The database refused or could not run a statement.
    Sqlite(rusqlite::Error),
    /// A result row held a value of the wrong kind in the given column,
    /// or had too few columns.
    ColumnType(usize),
    /// No tag has the given id.
    NoSuchTag(i64),
    /// The clock reads a time that cannot be written down: before the Unix
    /// epoch, or past what a date can hold.
    Clock,
}

pub open spec fn int_of(c: Cell) -> Option<i64> {
    match c {
        Cell::Integer(i) => Some(i),
        _ => None,
    }
}

pub open spec fn text_of(c: Cell) -> Option<Seq<char>> {
    match c {
        Cell::Text(s) => Some(s@),
        _ => None,
    }
}

/// The integer in column `col` of `row`, if there is such a column and it
/// holds one.
pub open spec fn int_at(row: Seq<Cell>, col: int) -> Option<i64> {
    if 0 <= col < row.len() {
        int_of(row[col])
    } else {
        None
    }
}

/// The text in column `col` of `row`, if there is such a column and it holds
/// text.
pub open spec fn text_at(row: Seq<Cell>, col: int) -> Option<Seq<char>> {
    if 0 <= col < row.len() {
        text_of(row[col])
    } else {
        None
    }
}

/// A flag is stored as an integer, and is set when that integer is not zero.
pub open spec fn flag_at(row: Seq<Cell>, col: int) -> Option<bool> {
    match int_at(row, col) {
        Some(i) => Some(i != 0),
        None => None,
    }
}

/// The first column of a file row `(id, type, location)` that does not hold
/// what it should, if any.
pub open spec fn file_bad_column(row: Seq<Cell>) -> Option<int> {
    if int_at(row, 0) is None {
        Some(0)
    } else if text_at(row, 1) is None {
        Some(1)
    } else if text_at(row, 2) is None {
        Some(2)
    } else {
        None
    }
}

/// `f` is the file that the row `(id, type, location)` describes.
pub open spec fn file_of_row(f: File, row: Seq<Cell>) -> bool {
    &&& int_at(row, 0) == Some(f.id)
    &&& text_at(row, 1) == Some(f.file_type@)
    &&& text_at(row, 2) == Some(f.location@)
}

/// The first column of a group row `(id, name, is_primary, create_time,
/// modify_time)` that does not hold what it should, if any.
pub open spec fn group_bad_column(row: Seq<Cell>) -> Option<int> {
    if int_at(row, 0) is None {
        Some(0)
    } else if text_at(row, 1) is None {
        Some(1)
    } else if flag_at(row, 2) is None {
        Some(2)
    } else if text_at(row, 3) is None {
        Some(3)
    } else if text_at(row, 4) is None {
        Some(4)
    } else {
        None
    }
}

/// `g` is the group that the row `(id, name, is_primary, create_time,
/// modify_time)` describes.
pub open spec fn group_of_row(g: Group, row: Seq<Cell>) -> bool {
    &&& int_at(row, 0) == Some(g.id)
    &&& text_at(row, 1) == Some(g.name@)
    &&& flag_at(row, 2) == Some(g.is_primary)
    &&& text_at(row, 3) == Some(g.create_time@)
    &&& text_at(row, 4) == Some(g.modify_time@)
}

/// Reads the integer in column `col`.
pub fn int_cell(row: &Vec<Cell>, col: usize) -> (r: Result<i64, StoreError>)
    ensures
        match r {
            Ok(i) => int_at(row@, col as int) == Some(i),
            Err(e) => int_at(row@, col as int) is None && e == StoreError::ColumnType(col),
        },
{
    if col < row.len() {
        match &row[col] {
            Cell::Integer(i) => Ok(*i),
            _ => Err(StoreError::ColumnType(col)),
        }
    } else {
        Err(StoreError::ColumnType(col))
    }
}

/// Reads the text in column `col`.
pub fn text_cell(row: &Vec<Cell>, col: usize) -> (r: Result<String, StoreError>)
    ensures
        match r {
            Ok(s) => text_at(row@, col as int) == Some(s@),
            Err(e) => text_at(row@, col as int) is None && e == StoreError::ColumnType(col),
        },
{
    if col < row.len() {
        match &row[col] {
            Cell::Text(s) => Ok(s.clone()),
            _ => Err(StoreError::ColumnType(col)),
        }
    } else {
        Err(StoreError::ColumnType(col))
    }
}

/// Reads the flag in column `col`: an integer, set when it is not zero.
pub fn flag_cell(row: &Vec<Cell>, col: usize) -> (r: Result<bool, StoreError>)
    ensures
        match r {
            Ok(b) => flag_at(row@, col as int) == Some(b),
            Err(e) => flag_at(row@, col as int) is None && e == StoreError::ColumnType(col),
        },
{
    match int_cell(row, col) {
        Ok(i) => Ok(i != 0),
        Err(e) => Err(e),
    }
}

/// Decodes one row `(id, type, location)` into a file.
pub fn file_from_row(row: &Vec<Cell>) -> (r: Result<File, StoreError>)
    ensures
        match r {
            Ok(f) => file_bad_column(row@) is None && file_of_row(f, row@),
            Err(e) => file_bad_column(row@) matches Some(c) && e == StoreError::ColumnType(
                c as usize,
            ),
        },
{
    let id = match int_cell(row, 0) {
        Ok(v) => v,
        Err(e) => return Err(e),
    };
    let file_type = match text_cell(row, 1) {
        Ok(v) => v,
        Err(e) => return Err(e),
    };
    let location = match text_cell(row, 2) {
        Ok(v) => v,
        Err(e) => return Err(e),
    };
    Ok(File { id, file_type, location })
}

/// Decodes one row `(id, name, is_primary, create_time, modify_time)` into a
/// group.
pub fn group_from_row(row: &Vec<Cell>) -> (r: Result<Group, StoreError>)
    ensures
        match r {
            Ok(g) => group_bad_column(row@) is None && group_of_row(g, row@),
            Err(e) => group_bad_column(row@) matches Some(c) && e == StoreError::ColumnType(
                c as usize,
            ),
        },
{
    let id = match int_cell(row, 0) {
        Ok(v) => v,
        Err(e) => return Err(e),
    };
    let name = match text_cell(row, 1) {
        Ok(v) => v,
        Err(e) => return Err(e),
    };
    let is_primary = match flag_cell(row, 2) {
        Ok(v) => v,
        Err(e) => return Err(e),
    };
    let create_time = match text_cell(row, 3) {
        Ok(v) => v,
        Err(e) => return Err(e),
    };
    let modify_time = match text_cell(row, 4) {
        Ok(v) => v,
        Err(e) => return Err(e),
    };
    Ok(Group { id, name, is_primary, create_time, modify_time })
}

/// How many of `files` have id `id`.
pub open spec fn files_with_id(files: Seq<File>, id: i64) -> nat
    decreases files.len(),
{
    if files.len() == 0 {
        0
    } else {
        files_with_id(files.drop_last(), id) + if files.last().id == id {
            1nat
        } else {
            0nat
        }
    }
}

/// How many of `rows` hold id `id` in their first column.
pub open spec fn rows_with_id(rows: Seq<Seq<Cell>>, id: i64) -> nat
    decreases rows.len(),
{
    if rows.len() == 0 {
        0
    } else {
        rows_with_id(rows.drop_last(), id) + if int_at(rows.last(), 0) == Some(id) {
            1nat
        } else {
            0nat
        }
    }
}

/// Rows are decoded one for one and never merged: where each file is the
/// one its row describes, a file comes out exactly as many times as rows
/// name it. So a link repeated in the database gives the file once for each
/// time it is there.
pub proof fn lemma_files_repeat_as_rows(rows: Seq<Seq<Cell>>, files: Seq<File>, id: i64)
    requires
        files.len() == rows.len(),
        forall|i: int| 0 <= i < rows.len() ==> file_of_row(#[trigger] files[i], rows[i]),
    ensures
        files_with_id(files, id) == rows_with_id(rows, id),
    decreases rows.len(),
{
    if rows.len() > 0 {
        let (r0, f0) = (rows.drop_last(), files.drop_last());
        assert forall|i: int| 0 <= i < r0.len() implies file_of_row(#[trigger] f0[i], r0[i]) by {
            assert(file_of_row(files[i], rows[i]));
        }
        lemma_files_repeat_as_rows(r0, f0, id);
        assert(file_of_row(files[files.len() - 1], rows[rows.len() - 1]));
    }
}

/// Decodes every row `(id, type, location)` into a file, one file per row and
/// in the order of the rows: a file that two rows name comes out twice.
/// Fails at the first row that does not decode.
pub fn files_from_rows(rows: &Vec<Vec<Cell>>) -> (r: Result<Vec<File>, StoreError>)
    ensures
        rows.len() == 0 ==> r is Ok && r->Ok_0.len() == 0,
        match r {
            Ok(files) => {
                &&& files.len() == rows.len()
                &&& forall|i: int|
                    0 <= i < rows.len() ==> file_bad_column(#[trigger] rows@[i]@) is None
                        && file_of_row(files@[i], rows@[i]@)
            },
            Err(e) => exists|i: int|
                {
                    &&& 0 <= i < rows.len()
                    &&& forall|j: int| 0 <= j < i ==> file_bad_column(#[trigger] rows@[j]@) is None
                    &&& file_bad_column(#[trigger] rows@[i]@) is Some
                    &&& e == StoreError::ColumnType(file_bad_column(rows@[i]@)->Some_0 as usize)
                },
        },
{
    let mut files: Vec<File> = Vec::new();
    let mut k: usize = 0;
    while k < rows.len()
        invariant
            k <= rows.len(),
            files.len() == k,
            forall|i: int|
                0 <= i < k ==> file_bad_column(#[trigger] rows@[i]@) is None && file_of_row(
                    files@[i],
                    rows@[i]@,
                ),
        decreases rows.len() - k,
    {
        match file_from_row(&rows[k]) {
            Ok(f) => files.push(f),
            Err(e) => {
                return Err(e);
            },
        }
        k = k + 1;
    }
    Ok(files)
}

/// Decodes every row `(id, name, is_primary, create_time, modify_time)` into
/// a group, one group per row and in the order of the rows. Fails at the
/// first row that does not decode.
pub fn groups_from_rows(rows: &Vec<Vec<Cell>>) -> (r: Result<Vec<Group>, StoreError>)
    ensures
        rows.len() == 0 ==> r is Ok && r->Ok_0.len() == 0,
        match r {
            Ok(groups) => {
                &&& groups.len() == rows.len()
                &&& forall|i: int|
                    0 <= i < rows.len() ==> group_bad_column(#[trigger] rows@[i]@) is None
                        && group_of_row(groups@[i], rows@[i]@)
            },
            Err(e) => exists|i: int|
                {
                    &&& 0 <= i < rows.len()
                    &&& forall|j: int| 0 <= j < i ==> group_bad_column(#[trigger] rows@[j]@) is None
                    &&& group_bad_column(#[trigger] rows@[i]@) is Some
                    &&& e == StoreError::ColumnType(group_bad_column(rows@[i]@)->Some_0 as usize)
                },
        },
{
    let mut groups: Vec<Group> = Vec::new();
    let mut k: usize = 0;
    while k < rows.len()
        invariant
            k <= rows.len(),
            groups.len() == k,
            forall|i: int|
                0 <= i < k ==> group_bad_column(#[trigger] rows@[i]@) is None && group_of_row(
                    groups@[i],
                    rows@[i]@,
                ),
        decreases rows.len() - k,
    {
        match group_from_row(&rows[k]) {
            Ok(g) => groups.push(g),
            Err(e) => {
                return Err(e);
            },
        }
        k = k + 1;
    }
    Ok(groups)
}

/// Reads the id in the first column of every row, in the order of the rows.
/// Fails at the first row whose first column holds no integer.
pub fn ids_from_rows(rows: &Vec<Vec<Cell>>) -> (r: Result<Vec<i64>, StoreError>)
    ensures
        match r {
            Ok(ids) => {
                &&& ids.len() == rows.len()
                &&& forall|i: int| 0 <= i < rows.len() ==> int_at(#[trigger] rows@[i]@, 0) == Some(ids@[i])
            },
            Err(e) => exists|i: int|
                {
                    &&& 0 <= i < rows.len()
                    &&& forall|j: int| 0 <= j < i ==> int_at(#[trigger] rows@[j]@, 0) is Some
                    &&& int_at(#[trigger] rows@[i]@, 0) is None
                    &&& e == StoreError::ColumnType(0)
                },
        },
{
    let mut ids: Vec<i64> = Vec::new();
    let mut k: usize = 0;
    while k < rows.len()
        invariant
            k <= rows.len(),
            ids.len() == k,
            forall|i: int| 0 <= i < k ==> int_at(#[trigger] rows@[i]@, 0) == Some(ids@[i]),
        decreases rows.len() - k,
    {
        match int_cell(&rows[k], 0) {
            Ok(id) => ids.push(id),
            Err(e) => {
                return Err(e);
            },
        }
        k = k + 1;
    }
    Ok(ids)
}

/// The id in the first column of the first row, or `None` where there is
/// no row: finding nothing is no failure. A first row that holds no integer
/// there is an error.
pub fn first_id(rows: &Vec<Vec<Cell>>) -> (r: Result<Option<i64>, StoreError>)
    ensures
        rows.len() == 0 ==> r == Ok::<Option<i64>, StoreError>(None),
        rows.len() > 0 ==> match int_at(rows@[0]@, 0) {
            Some(id) => r == Ok::<Option<i64>, StoreError>(Some(id)),
            None => r == Err::<Option<i64>, StoreError>(StoreError::ColumnType(0)),
        },
{
    if rows.len() > 0 {
        match int_cell(&rows[0], 0) {
            Ok(id) => Ok(Some(id)),
            Err(e) => Err(e),
        }
    } else {
        Ok(None)
    }
}

/// What renaming tag `tag_id` amounts to, given how many rows the update
/// changed: no changed row means that no tag has that id.
pub fn rename_outcome(tag_id: i64, changed: usize) -> (r: Result<(), StoreError>)
    ensures
        r == (if changed == 0 {
            Err::<(), StoreError>(StoreError::NoSuchTag(tag_id))
        } else {
            Ok(())
        }),
{
    if changed == 0 {
        Err(StoreError::NoSuchTag(tag_id))
    } else {
        Ok(())
    }
}

/// Adds the tag named `name` to `tags` where its insert gave the id `id`;
/// where the insert failed, leaves `tags` as it was and passes the error on.
pub fn add_created_tag(tags: &mut Vec<Tag>, name: &str, inserted: Result<i64, StoreError>) -> (r:
    Result<(), StoreError>)
    ensures
        match inserted {
            Ok(id) => {
                &&& r is Ok
                &&& final(tags).len() == old(tags).len() + 1
                &&& final(tags)@.take(old(tags).len() as int) == old(tags)@
                &&& final(tags)@.last().id == id
                &&& final(tags)@.last().name@ == name@
            },
            Err(e) => r == Err::<(), StoreError>(e) && final(tags)@ == old(tags)@,
        },
{
    match inserted {
        Ok(id) => {
            tags.push(Tag { id, name: name.to_string() });
            proof {
                assert(tags@.take(old(tags).len() as int) =~= old(tags)@);
            }
            Ok(())
        },
        Err(e) => Err(e),
    }
}

/// What one insert of a batch amounts to: the batch goes on after a success
/// and stops with the insert's error after a failure.
pub fn batch_step(inserted: Result<usize, StoreError>) -> (r: Result<(), StoreError>)
    ensures
        match inserted {
            Ok(_) => r is Ok,
            Err(e) => r == Err::<(), StoreError>(e),
        },
{
    match inserted {
        Ok(_) => Ok(()),
        Err(e) => Err(e),
    }
}

} // verus!
