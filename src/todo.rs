use vstd::prelude::*;

verus! {

/// What a todo item holds, field by field; `None` is a field that was not given.
pub struct TodoView {
    pub uid: Option<i32>,
    pub title: Option<Seq<char>>,
    pub order: Option<i32>,
    pub completed: Option<bool>,
}

impl TodoView {
    /// The title, or the empty text where none was given.
    pub open spec fn title_or_default(self) -> Seq<char> {
        match self.title {
            Some(t) => t,
            None => Seq::empty(),
        }
    }

    /// The position in the list, 0 where none was given.
    pub open spec fn order_or_default(self) -> i32 {
        match self.order {
            Some(o) => o,
            None => 0,
        }
    }

    /// Whether the item is done, `false` where nothing was given.
    pub open spec fn completed_or_default(self) -> bool {
        match self.completed {
            Some(c) => c,
            None => false,
        }
    }

    /// The two items agree on title, order and completion once each missing field
    /// takes its default; identities are not compared.
    pub open spec fn same_fields(self, other: TodoView) -> bool {
        &&& self.title_or_default() == other.title_or_default()
        &&& self.order_or_default() == other.order_or_default()
        &&& self.completed_or_default() == other.completed_or_default()
    }

    /// `self` with each field that `diff` gives replaced by the one in `diff`; the
    /// identity is never touched.
    pub open spec fn merged(self, diff: TodoView) -> TodoView {
        TodoView {
            uid: self.uid,
            title: if diff.title is Some { diff.title } else { self.title },
            order: if diff.order is Some { diff.order } else { self.order },
            completed: if diff.completed is Some { diff.completed } else { self.completed },
        }
    }
}

/// One todo item. Without an identity it is a draft, not yet stored; with one it
/// stands for a stored row.
pub struct Todo {
    uid: Option<i32>,
    title: Option<String>,
    order: Option<i32>,
    completed: Option<bool>,
}

impl View for Todo {
    type V = TodoView;

    closed spec fn view(&self) -> TodoView {
        TodoView {
            uid: self.uid,
            title: match self.title {
                Some(t) => Some(t@),
                None => None,
            },
            order: self.order,
            completed: self.completed,
        }
    }
}

impl Todo {
    /// An item as decoded from input, each field given or not.
    pub fn new(uid: Option<i32>, title: Option<String>, order: Option<i32>, completed: Option<bool>) -> (r: Todo)
        ensures
            r@.uid == uid,
            r@.title == (match title {
                Some(t) => Some(t@),
                None => None::<Seq<char>>,
            }),
            r@.order == order,
            r@.completed == completed,
    {
        Todo { uid, title, order, completed }
    }

    /// An item read back from a stored row: identity and title are always there,
    /// the other two columns may be null.
    pub fn from_row(uid: i32, title: String, order: Option<i32>, completed: Option<bool>) -> (r: Todo)
        ensures
            r@ == (TodoView { uid: Some(uid), title: Some(title@), order, completed }),
    {
        Todo { uid: Some(uid), title: Some(title), order, completed }
    }

    pub fn uid(&self) -> (r: &Option<i32>)
        ensures
            *r == self@.uid,
    {
        &self.uid
    }

    /// Gives the item its identity, once storage has assigned one.
    pub fn set_uid(&mut self, uid: i32)
        ensures
            final(self)@ == (TodoView { uid: Some(uid), ..old(self)@ }),
    {
        self.uid = Some(uid)
    }

    pub fn title(&self) -> (r: &str)
        ensures
            r@ == self@.title_or_default(),
    {
        match &self.title {
            Some(t) => t.as_str(),
            None => {
                proof {
                    reveal_strlit("");
                }
                ""
            },
        }
    }

    pub fn order(&self) -> (r: i32)
        ensures
            r == self@.order_or_default(),
    {
        match self.order {
            Some(o) => o,
            None => 0,
        }
    }

    pub fn completed(&self) -> (r: bool)
        ensures
            r == self@.completed_or_default(),
    {
        match self.completed {
            Some(c) => c,
            None => false,
        }
    }

    /// Applies a partial update: each field that `other` gives replaces this item's
    /// field; the others, and the identity, stay as they are.
    pub fn merge(&mut self, other: Todo)
        ensures
            final(self)@ == old(self)@.merged(other@),
    {
        if other.title.is_some() {
            self.title = other.title;
        }
        if other.order.is_some() {
            self.order = other.order
        }
        if other.completed.is_some() {
            self.completed = other.completed
        }
    }
}

/// A merge takes each field from the diff where the diff gives it and from the
/// target otherwise, never changes the identity, and with an empty diff leaves the
/// target as it was.
pub proof fn lemma_merge_fieldwise(target: TodoView, diff: TodoView)
    ensures
        target.merged(diff).uid == target.uid,
        diff.title is Some ==> target.merged(diff).title == diff.title,
        diff.title is None ==> target.merged(diff).title == target.title,
        diff.order is Some ==> target.merged(diff).order == diff.order,
        diff.order is None ==> target.merged(diff).order == target.order,
        diff.completed is Some ==> target.merged(diff).completed == diff.completed,
        diff.completed is None ==> target.merged(diff).completed == target.completed,
        diff.title is None && diff.order is None && diff.completed is None ==> target.merged(diff) == target,
{
}

} // verus!
