//! A small catalog of files, the groups they belong to and the tags that
//! label those groups, kept in an SQLite database.
//!
//! Rows that come back from the database are decoded by verified functions
//! (`model`), and every operation of the catalog (`queries`) is built from
//! those and from a handful of calls into rusqlite (`sqlite`).

mod sqlite;
pub mod model;
pub mod queries;
pub mod statement;

pub use model::{
    add_created_tag, batch_step, files_from_rows, first_id, flag_cell, group_from_row, groups_from_rows, ids_from_rows,
    int_cell, file_from_row, rename_outcome, text_cell, Cell, File, Group, GroupFile, GroupTag,
    StoreError, Tag,
};
pub use queries::{
    associate_file_with_group, associate_tags_with_group, create_group, create_tags,
    get_last_insert_rowid, get_tag_id, search_files_by_group_name, search_files_by_tag,
    search_files_by_tag_id, search_group_by_name, search_tag, update_tag_name, upload_file,
};
