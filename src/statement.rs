use vstd::prelude::*;

use crate::todo::{Todo, TodoView};

verus! {

/// One statement that the store sends to the table of todo items.
pub enum Statement {
    /// Creates the table where it does not exist yet; existing rows stay.
    CreateTable,
    SelectById { uid: i32 },
    SelectAll,
    /// Adds a row; storage picks its identity and hands it back.
    Insert { title: String, order: i32, completed: bool },
    /// Overwrites every field of the row with this identity.
    Update { uid: i32, title: String, order: i32, completed: bool },
    DeleteById { uid: i32 },
    /// Empties the table.
    DeleteAll,
}

pub enum StatementView {
    CreateTable,
    SelectById { uid: i32 },
    SelectAll,
    Insert { title: Seq<char>, order: i32, completed: bool },
    Update { uid: i32, title: Seq<char>, order: i32, completed: bool },
    DeleteById { uid: i32 },
    DeleteAll,
}

impl View for Statement {
    type V = StatementView;

    open spec fn view(&self) -> StatementView {
        match self {
            Statement::CreateTable => StatementView::CreateTable,
            Statement::SelectById { uid } => StatementView::SelectById { uid: *uid },
            Statement::SelectAll => StatementView::SelectAll,
            Statement::Insert { title, order, completed } => StatementView::Insert {
                title: title@,
                order: *order,
                completed: *completed,
            },
            Statement::Update { uid, title, order, completed } => StatementView::Update {
                uid: *uid,
                title: title@,
                order: *order,
                completed: *completed,
            },
            Statement::DeleteById { uid } => StatementView::DeleteById { uid: *uid },
            Statement::DeleteAll => StatementView::DeleteAll,
        }
    }
}

/// What storage answered to one statement.
pub enum Reply {
    /// The rows that a select returned.
    Rows(Vec<Todo>),
    /// The identities that an insert returned.
    Ids(Vec<i32>),
    /// How many rows a write touched.
    Touched(u64),
    /// The statement could not be run (a malformed query, a lost connection, a
    /// violated constraint).
    Fault,
}

pub enum ReplyView {
    Rows(Seq<TodoView>),
    Ids(Seq<i32>),
    Touched(nat),
    Fault,
}

pub open spec fn views(rows: Seq<Todo>) -> Seq<TodoView> {
    rows.map_values(|t: Todo| t@)
}

impl View for Reply {
    type V = ReplyView;

    open spec fn view(&self) -> ReplyView {
        match self {
            Reply::Rows(v) => ReplyView::Rows(views(v@)),
            Reply::Ids(v) => ReplyView::Ids(v@),
            Reply::Touched(n) => ReplyView::Touched(*n as nat),
            Reply::Fault => ReplyView::Fault,
        }
    }
}

/// One stored row, apart from its identity.
pub struct RowView {
    pub title: Seq<char>,
    pub order: Option<i32>,
    pub completed: Option<bool>,
}

/// The table: each identity with its row.
pub type TableView = Map<i32, RowView>;

/// The item that a select returns for the row `row` stored under `uid`.
pub open spec fn row_item(uid: i32, row: RowView) -> TodoView {
    TodoView { uid: Some(uid), title: Some(row.title), order: row.order, completed: row.completed }
}

/// `rows` lists each row of `table` once, in some order.
pub open spec fn lists_table(table: TableView, rows: Seq<TodoView>) -> bool {
    &&& forall|i: int|
        0 <= i < rows.len() ==> {
            &&& (#[trigger] rows[i]).uid is Some
            &&& table.contains_key(rows[i].uid->0)
            &&& rows[i] == row_item(rows[i].uid->0, table[rows[i].uid->0])
        }
    &&& forall|i: int, j: int| 0 <= i < j < rows.len() ==> (#[trigger] rows[i]).uid != (#[trigger] rows[j]).uid
    &&& forall|k: i32| table.contains_key(k) ==> exists|i: int| 0 <= i < rows.len() && (#[trigger] rows[i]).uid == Some(k)
}

/// Running `s` on `table` without a fault leaves `after` and answers `reply`.
pub open spec fn runs(table: TableView, s: StatementView, after: TableView, reply: ReplyView) -> bool {
    match s {
        StatementView::CreateTable => after == table && reply is Touched,
        StatementView::SelectById { uid } => {
            &&& after == table
            &&& reply == ReplyView::Rows(
                if table.contains_key(uid) { seq![row_item(uid, table[uid])] } else { Seq::empty() },
            )
        },
        StatementView::SelectAll => {
            &&& after == table
            &&& reply matches ReplyView::Rows(rows) && lists_table(table, rows)
        },
        StatementView::Insert { title, order, completed } => exists|uid: i32|
            {
                &&& !table.contains_key(uid)
                &&& after == table.insert(uid, RowView { title, order: Some(order), completed: Some(completed) })
                &&& reply == ReplyView::Ids(seq![uid])
            },
        StatementView::Update { uid, title, order, completed } => if table.contains_key(uid) {
            &&& after == table.insert(uid, RowView { title, order: Some(order), completed: Some(completed) })
            &&& reply == ReplyView::Touched(1)
        } else {
            after == table && reply == ReplyView::Touched(0)
        },
        StatementView::DeleteById { uid } => if table.contains_key(uid) {
            after == table.remove(uid) && reply == ReplyView::Touched(1)
        } else {
            after == table && reply == ReplyView::Touched(0)
        },
        StatementView::DeleteAll => after == Map::<i32, RowView>::empty() && reply is Touched,
    }
}

} // verus!
