use vstd::prelude::*;

use crate::statement::{runs, views, ReplyView, Reply, RowView, Statement, StatementView, TableView};
use crate::todo::{Todo, TodoView};

verus! {

/// The kinds of failure that the store reports to its callers.
#[derive(Clone, Copy, Debug, PartialEq, Eq, Structural)]
pub enum StoreError {
    /// The identity asked for does not exist, or a write touched no row.
    NotFound,
    /// Storage failed, or reported a number of rows that a unique identity rules out.
    InternalFault,
    /// An identity or an item that could not be decoded from the request.
    BadInput,
}

/// How many rows a statement touched or returned, as the three cases that matter.
#[derive(Clone, Copy, Debug, PartialEq, Eq, Structural)]
pub enum Cardinality {
    Zero,
    One,
    Many,
}

impl Cardinality {
    pub open spec fn of(n: nat) -> Cardinality {
        if n == 0 {
            Cardinality::Zero
        } else if n == 1 {
            Cardinality::One
        } else {
            Cardinality::Many
        }
    }

    pub fn of_count(n: u64) -> (r: Cardinality)
        ensures
            r == Cardinality::of(n as nat),
    {
        if n == 0 {
            Cardinality::Zero
        } else if n == 1 {
            Cardinality::One
        } else {
            Cardinality::Many
        }
    }

    pub fn of_len(n: usize) -> (r: Cardinality)
        ensures
            r == Cardinality::of(n as nat),
    {
        Cardinality::of_count(n as u64)
    }
}

/// The outcome of a write that must touch exactly the one row of an identity.
pub open spec fn single_write_result(touched: nat) -> Result<(), StoreError> {
    match Cardinality::of(touched) {
        Cardinality::One => Ok(()),
        Cardinality::Zero => Err(StoreError::NotFound),
        Cardinality::Many => Err(StoreError::InternalFault),
    }
}

/// The outcome of a lookup by identity.
pub open spec fn find_result(reply: ReplyView) -> Result<TodoView, StoreError> {
    match reply {
        ReplyView::Rows(rows) => match Cardinality::of(rows.len()) {
            Cardinality::One => Ok(rows[0]),
            Cardinality::Zero => Err(StoreError::NotFound),
            Cardinality::Many => Err(StoreError::InternalFault),
        },
        _ => Err(StoreError::InternalFault),
    }
}

/// The outcome of listing every item.
pub open spec fn list_result(reply: ReplyView) -> Result<Seq<TodoView>, StoreError> {
    match reply {
        ReplyView::Rows(rows) => Ok(rows),
        _ => Err(StoreError::InternalFault),
    }
}

/// The statement that saves `item`: an insert for a draft, an update of every
/// field for an item with an identity.
pub open spec fn save_plan(item: TodoView) -> StatementView {
    match item.uid {
        Some(uid) => StatementView::Update {
            uid,
            title: item.title_or_default(),
            order: item.order_or_default(),
            completed: item.completed_or_default(),
        },
        None => StatementView::Insert {
            title: item.title_or_default(),
            order: item.order_or_default(),
            completed: item.completed_or_default(),
        },
    }
}

/// The outcome of saving `item`, and the item afterwards: a draft takes the one
/// identity that the insert returned; an update must touch exactly one row.
pub open spec fn save_result(item: TodoView, reply: ReplyView) -> Result<TodoView, StoreError> {
    match item.uid {
        None => match reply {
            ReplyView::Ids(ids) => if ids.len() == 1 {
                Ok(TodoView { uid: Some(ids[0]), ..item })
            } else {
                Err(StoreError::InternalFault)
            },
            _ => Err(StoreError::InternalFault),
        },
        Some(_) => match reply {
            ReplyView::Touched(n) => match single_write_result(n) {
                Ok(_) => Ok(item),
                Err(e) => Err(e),
            },
            _ => Err(StoreError::InternalFault),
        },
    }
}

/// The outcome of a delete by identity.
pub open spec fn delete_result(reply: ReplyView) -> Result<(), StoreError> {
    match reply {
        ReplyView::Touched(n) => single_write_result(n),
        _ => Err(StoreError::InternalFault),
    }
}

/// The outcome of a statement that succeeds whenever storage runs it.
pub open spec fn acknowledged_result(reply: ReplyView) -> Result<(), StoreError> {
    match reply {
        ReplyView::Touched(_) => Ok(()),
        _ => Err(StoreError::InternalFault),
    }
}

pub open spec fn result_view(r: Result<Todo, StoreError>) -> Result<TodoView, StoreError> {
    match r {
        Ok(t) => Ok(t@),
        Err(e) => Err(e),
    }
}

pub open spec fn list_view(r: Result<Vec<Todo>, StoreError>) -> Result<Seq<TodoView>, StoreError> {
    match r {
        Ok(v) => Ok(views(v@)),
        Err(e) => Err(e),
    }
}

/// Maps the rows touched by a write of one identity: one is success, none means
/// the identity is gone, more means identities are no longer unique in storage.
pub fn single_write(touched: u64) -> (r: Result<(), StoreError>)
    ensures
        r == single_write_result(touched as nat),
{
    match Cardinality::of_count(touched) {
        Cardinality::One => Ok(()),
        Cardinality::Zero => Err(StoreError::NotFound),
        Cardinality::Many => Err(StoreError::InternalFault),
    }
}

/// The outcome of deleting one item by its identity.
pub fn deleted(reply: Reply) -> (r: Result<(), StoreError>)
    ensures
        r == delete_result(reply@),
{
    match reply {
        Reply::Touched(n) => single_write(n),
        _ => Err(StoreError::InternalFault),
    }
}

/// The outcome of a statement that cannot miss, such as emptying the collection
/// or creating the table: it fails only where storage did.
pub fn acknowledged(reply: Reply) -> (r: Result<(), StoreError>)
    ensures
        r == acknowledged_result(reply@),
{
    match reply {
        Reply::Touched(_) => Ok(()),
        _ => Err(StoreError::InternalFault),
    }
}

impl Todo {
    /// The item with the identity asked for, from what the lookup returned.
    pub fn found(reply: Reply) -> (r: Result<Todo, StoreError>)
        ensures
            result_view(r) == find_result(reply@),
    {
        match reply {
            Reply::Rows(mut v) => match Cardinality::of_len(v.len()) {
                Cardinality::One => {
                    let ghost before = views(v@);
                    let t = v.remove(0);
                    assert(t@ == before[0]);
                    Ok(t)
                },
                Cardinality::Zero => Err(StoreError::NotFound),
                Cardinality::Many => Err(StoreError::InternalFault),
            },
            _ => Err(StoreError::InternalFault),
        }
    }

    /// Every stored item, from what the listing returned; an empty list is a success.
    pub fn listed(reply: Reply) -> (r: Result<Vec<Todo>, StoreError>)
        ensures
            list_view(r) == list_result(reply@),
    {
        match reply {
            Reply::Rows(v) => Ok(v),
            _ => Err(StoreError::InternalFault),
        }
    }

    /// The statement that saves this item.
    pub fn save_statement(&self) -> (r: Statement)
        ensures
            r@ == save_plan(self@),
    {
        let title = String::from_str(self.title());
        match self.uid() {
            Some(uid) => Statement::Update { uid: *uid, title, order: self.order(), completed: self.completed() },
            None => Statement::Insert { title, order: self.order(), completed: self.completed() },
        }
    }

    /// Completes a save from what storage answered to `save_statement`: a draft
    /// takes its new identity; on any failure the item is left as it was.
    pub fn saved(&mut self, reply: Reply) -> (r: Result<(), StoreError>)
        ensures
            match save_result(old(self)@, reply@) {
                Ok(t) => r is Ok && final(self)@ == t,
                Err(e) => r == Err::<(), StoreError>(e) && final(self)@ == old(self)@,
            },
    {
        match self.uid() {
            None => match reply {
                Reply::Ids(v) => match Cardinality::of_len(v.len()) {
                    Cardinality::One => {
                        self.set_uid(v[0]);
                        Ok(())
                    },
                    _ => Err(StoreError::InternalFault),
                },
                _ => Err(StoreError::InternalFault),
            },
            Some(_) => match reply {
                Reply::Touched(n) => single_write(n),
                _ => Err(StoreError::InternalFault),
            },
        }
    }
}

/// Saving a draft gives it an identity, and a lookup of that identity afterwards
/// finds an item with the draft's title, order and completion.
pub proof fn lemma_saved_draft_is_found(table: TableView, draft: TodoView, after: TableView, reply: ReplyView)
    requires
        draft.uid is None,
        runs(table, save_plan(draft), after, reply),
    ensures
        save_result(draft, reply) is Ok,
        save_result(draft, reply)->Ok_0.uid is Some,
        save_result(draft, reply)->Ok_0.same_fields(draft),
        forall|later: TableView, answer: ReplyView|
            #[trigger] runs(
                after,
                StatementView::SelectById { uid: save_result(draft, reply)->Ok_0.uid->0 },
                later,
                answer,
            ) ==> {
                &&& find_result(answer) is Ok
                &&& find_result(answer)->Ok_0.uid == save_result(draft, reply)->Ok_0.uid
                &&& find_result(answer)->Ok_0.same_fields(draft)
            },
{
    let uid = choose|uid: i32|
        {
            &&& !table.contains_key(uid)
            &&& after == table.insert(
                uid,
                RowView {
                    title: draft.title_or_default(),
                    order: Some(draft.order_or_default()),
                    completed: Some(draft.completed_or_default()),
                },
            )
            &&& reply == ReplyView::Ids(seq![uid])
        };
    assert(after.contains_key(uid));
}

/// Once an item is deleted by its identity, a lookup of that identity reports
/// `NotFound`; the delete succeeds where the item was stored.
pub proof fn lemma_deleted_is_not_found(
    table: TableView,
    uid: i32,
    after: TableView,
    reply: ReplyView,
    later: TableView,
    answer: ReplyView,
)
    requires
        runs(table, StatementView::DeleteById { uid }, after, reply),
        runs(after, StatementView::SelectById { uid }, later, answer),
    ensures
        table.contains_key(uid) ==> delete_result(reply) == Ok::<(), StoreError>(()),
        !after.contains_key(uid),
        find_result(answer) == Err::<TodoView, StoreError>(StoreError::NotFound),
{
}

/// Emptying the collection succeeds, and a listing afterwards is empty, whatever
/// was stored before.
pub proof fn lemma_cleared_lists_nothing(
    table: TableView,
    after: TableView,
    reply: ReplyView,
    later: TableView,
    answer: ReplyView,
)
    requires
        runs(table, StatementView::DeleteAll, after, reply),
        runs(after, StatementView::SelectAll, later, answer),
    ensures
        acknowledged_result(reply) == Ok::<(), StoreError>(()),
        list_result(answer) == Ok::<Seq<TodoView>, StoreError>(Seq::empty()),
{
    let rows = answer->Rows_0;
    if rows.len() > 0 {
        assert(after.contains_key(rows[0].uid->0));
    }
    assert(rows =~= Seq::empty());
}

/// Saving an item whose identity is stored succeeds, and a lookup of that identity
/// afterwards finds the item's title, order and completion.
pub proof fn lemma_saved_item_is_found(table: TableView, item: TodoView, after: TableView, reply: ReplyView)
    requires
        item.uid is Some,
        table.contains_key(item.uid->0),
        runs(table, save_plan(item), after, reply),
    ensures
        save_result(item, reply) == Ok::<TodoView, StoreError>(item),
        forall|later: TableView, answer: ReplyView|
            #[trigger] runs(after, StatementView::SelectById { uid: item.uid->0 }, later, answer) ==> {
                &&& find_result(answer) is Ok
                &&& find_result(answer)->Ok_0.uid == item.uid
                &&& find_result(answer)->Ok_0.same_fields(item)
            },
{
}

/// Saving an item whose identity is not stored (never issued, or deleted since)
/// reports `NotFound`, never an internal fault, and changes nothing.
pub proof fn lemma_update_of_missing_is_not_found(table: TableView, item: TodoView, after: TableView, reply: ReplyView)
    requires
        item.uid is Some,
        !table.contains_key(item.uid->0),
        runs(table, save_plan(item), after, reply),
    ensures
        save_result(item, reply) == Err::<TodoView, StoreError>(StoreError::NotFound),
        after == table,
{
}

} // verus!
