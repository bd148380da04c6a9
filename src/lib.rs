//! A store of todo items: the entity and its partial-update rules, the storage
//! statements that persist it, and the rules that turn what storage reports into
//! a success or one of a few error kinds.

pub mod datastore;
pub mod link;
pub mod statement;
pub mod text;
pub mod todo;

pub use datastore::{acknowledged, deleted, single_write, Cardinality, StoreError};
pub use link::SiteRoot;
pub use statement::{Reply, ReplyView, RowView, Statement, StatementView, TableView};
pub use text::{decimal, parse_uid, uid_of_text};
pub use todo::{Todo, TodoView};
