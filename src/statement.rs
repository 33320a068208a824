//! The SQL that each catalog operation runs, and the values bound to it.

use vstd::prelude::*;

verus! {

/// A value bound to a statement parameter. A flag is bound as the integer
/// 1 or 0, as SQLite stores it.
#[derive(Debug, Clone, PartialEq, Eq)]
pub enum Param {
    Integer(i64),
    Text(String),
}

/// One statement: its SQL text and the values for `?1`, `?2`, ... in order.
pub struct Statement {
    pub sql: &'static str,
    pub params: Vec<Param>,
}

pub const INSERT_FILE: &'static str = "INSERT INTO files (type, location) VALUES (?1, ?2)";

pub const INSERT_FILE_GROUP: &'static str = "INSERT INTO file_groups (file_id, group_id) VALUES (?1, ?2)";

pub const INSERT_GROUP_TAG: &'static str = "INSERT INTO group_tags (group_id, tag_id) VALUES (?1, ?2)";

pub const INSERT_GROUP: &'static str = "INSERT INTO groups (name, is_primary, create_time, modify_time) VALUES (?1, ?2, datetime('now'), datetime('now'))";

pub const INSERT_TAG: &'static str = "INSERT INTO tags (name) VALUES (?1)";

pub const RENAME_TAG: &'static str = "UPDATE tags SET name = ?1 WHERE id = ?2";

pub const FILES_BY_TAG_ID: &'static str = "SELECT f.id AS file_id, f.type AS file_type, f.location AS file_location
         FROM files f
         JOIN file_groups fg ON f.id = fg.file_id
         JOIN group_tags gt ON fg.group_id = gt.group_id
         WHERE gt.tag_id = ?1";

pub const FILES_BY_TAG_NAME: &'static str = "SELECT f.id AS file_id, f.type AS file_type, f.location AS file_location
         FROM files f
         JOIN file_groups fg ON f.id = fg.file_id
         JOIN group_tags gt ON fg.group_id = gt.group_id
         JOIN tags t ON gt.tag_id = t.id
         WHERE t.name = ?1";

pub const FILES_BY_GROUP_NAME: &'static str = "SELECT f.id AS file_id, f.type AS file_type, f.location AS file_location
         FROM files f
         JOIN file_groups fg ON f.id = fg.file_id
         JOIN groups g ON fg.group_id = g.id
         WHERE g.name = ?1";

pub const TAG_ID_BY_NAME: &'static str = "SELECT id FROM tags WHERE name = ?1";

pub const TAG_IDS_BY_NAME: &'static str = "SELECT id AS tag_id FROM tags WHERE name = ?1";

pub const GROUPS_BY_NAME: &'static str = "SELECT id, name, is_primary, create_time, modify_time FROM groups WHERE name = ?1";

fn text_param(s: &str) -> (r: Param)
    ensures
        r matches Param::Text(t) && t@ == s@,
{
    Param::Text(s.to_string())
}

/// Inserts a file of kind `file_type` at `location`.
pub fn insert_file_statement(file_type: &str, location: &str) -> (r: Statement)
    ensures
        r.sql == INSERT_FILE,
        r.params.len() == 2,
        r.params@[0] matches Param::Text(t) && t@ == file_type@,
        r.params@[1] matches Param::Text(t) && t@ == location@,
{
    Statement { sql: INSERT_FILE, params: vec![text_param(file_type), text_param(location)] }
}

/// Links file `file_id` to group `group_id`.
pub fn file_group_statement(file_id: i64, group_id: i64) -> (r: Statement)
    ensures
        r.sql == INSERT_FILE_GROUP,
        r.params@ == seq![Param::Integer(file_id), Param::Integer(group_id)],
{
    Statement { sql: INSERT_FILE_GROUP, params: vec![Param::Integer(file_id), Param::Integer(group_id)] }
}

/// Labels group `group_id` with tag `tag_id`.
pub fn group_tag_statement(group_id: i64, tag_id: i64) -> (r: Statement)
    ensures
        r.sql == INSERT_GROUP_TAG,
        r.params@ == seq![Param::Integer(group_id), Param::Integer(tag_id)],
{
    Statement { sql: INSERT_GROUP_TAG, params: vec![Param::Integer(group_id), Param::Integer(tag_id)] }
}

/// Inserts a group named `name`; the database sets both of its times.
pub fn insert_group_statement(name: &str, is_primary: bool) -> (r: Statement)
    ensures
        r.sql == INSERT_GROUP,
        r.params.len() == 2,
        r.params@[0] matches Param::Text(t) && t@ == name@,
        r.params@[1] == Param::Integer(if is_primary { 1 } else { 0 }),
{
    let flag: i64 = if is_primary { 1 } else { 0 };
    Statement { sql: INSERT_GROUP, params: vec![text_param(name), Param::Integer(flag)] }
}

/// Inserts a tag named `name`.
pub fn insert_tag_statement(name: &str) -> (r: Statement)
    ensures
        r.sql == INSERT_TAG,
        r.params.len() == 1,
        r.params@[0] matches Param::Text(t) && t@ == name@,
{
    Statement { sql: INSERT_TAG, params: vec![text_param(name)] }
}

/// Renames tag `tag_id` to `new_name`.
pub fn rename_tag_statement(tag_id: i64, new_name: &str) -> (r: Statement)
    ensures
        r.sql == RENAME_TAG,
        r.params.len() == 2,
        r.params@[0] matches Param::Text(t) && t@ == new_name@,
        r.params@[1] == Param::Integer(tag_id),
{
    Statement { sql: RENAME_TAG, params: vec![text_param(new_name), Param::Integer(tag_id)] }
}

/// Selects `(id, type, location)` of the files in every group carrying tag
/// `tag_id`, one row per link.
pub fn files_by_tag_id_statement(tag_id: i64) -> (r: Statement)
    ensures
        r.sql == FILES_BY_TAG_ID,
        r.params@ == seq![Param::Integer(tag_id)],
{
    Statement { sql: FILES_BY_TAG_ID, params: vec![Param::Integer(tag_id)] }
}

/// Selects `(id, type, location)` of the files in every group carrying a tag
/// named `tag_name`, one row per link.
pub fn files_by_tag_name_statement(tag_name: &str) -> (r: Statement)
    ensures
        r.sql == FILES_BY_TAG_NAME,
        r.params.len() == 1,
        r.params@[0] matches Param::Text(t) && t@ == tag_name@,
{
    Statement { sql: FILES_BY_TAG_NAME, params: vec![text_param(tag_name)] }
}

/// Selects `(id, type, location)` of the files in every group named
/// `group_name`, one row per link.
pub fn files_by_group_name_statement(group_name: &str) -> (r: Statement)
    ensures
        r.sql == FILES_BY_GROUP_NAME,
        r.params.len() == 1,
        r.params@[0] matches Param::Text(t) && t@ == group_name@,
{
    Statement { sql: FILES_BY_GROUP_NAME, params: vec![text_param(group_name)] }
}

/// Selects the id of every tag named `tag_name`, for a lookup of the first.
pub fn tag_id_statement(tag_name: &str) -> (r: Statement)
    ensures
        r.sql == TAG_ID_BY_NAME,
        r.params.len() == 1,
        r.params@[0] matches Param::Text(t) && t@ == tag_name@,
{
    Statement { sql: TAG_ID_BY_NAME, params: vec![text_param(tag_name)] }
}

/// Selects the id of every tag named `tag_name`.
pub fn tag_ids_statement(tag_name: &str) -> (r: Statement)
    ensures
        r.sql == TAG_IDS_BY_NAME,
        r.params.len() == 1,
        r.params@[0] matches Param::Text(t) && t@ == tag_name@,
{
    Statement { sql: TAG_IDS_BY_NAME, params: vec![text_param(tag_name)] }
}

/// Selects `(id, name, is_primary, create_time, modify_time)` of every group
/// named `group_name`.
pub fn groups_by_name_statement(group_name: &str) -> (r: Statement)
    ensures
        r.sql == GROUPS_BY_NAME,
        r.params.len() == 1,
        r.params@[0] matches Param::Text(t) && t@ == group_name@,
{
    Statement { sql: GROUPS_BY_NAME, params: vec![text_param(group_name)] }
}

} // verus!
