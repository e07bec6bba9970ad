//! A fluent SQL query-construction engine.
//!
//! A [`schema::Schema`] describes a record shape (table name, display alias,
//! primary key, ordered column list).  From it, factory operations construct
//! builder values — [`select::SelectBuilder`], [`insert::InsertBuilder`],
//! [`update::UpdateBuilder`], [`delete::DeleteBuilder`] — that accumulate
//! query fragments across chained calls and finally render one complete SQL
//! statement string.  Every rendering function carries a contract pinning the
//! produced character sequence down exactly.

pub mod delete;
pub mod insert;
pub mod render;
pub mod schema;
pub mod select;
pub mod text;
pub mod update;
