use vstd::prelude::*;

use crate::text::{decimal, decimal_text};
use crate::todo::Todo;

verus! {

/// `s` with a `/` at its end, added where it does not end with one already.
pub open spec fn slash_terminated(s: Seq<char>) -> Seq<char> {
    if s.len() > 0 && s.last() == '/' {
        s
    } else {
        s.push('/')
    }
}

/// The path under the site root where the items are served.
pub open spec fn items_path() -> Seq<char> {
    "todos/"@
}

/// The base URL that the links to items are built on: never empty, and ending
/// with `/`.
pub struct SiteRoot {
    url: String,
}

impl View for SiteRoot {
    type V = Seq<char>;

    closed spec fn view(&self) -> Seq<char> {
        self.url@
    }
}

impl SiteRoot {
    #[verifier::type_invariant]
    spec fn slash_ended(self) -> bool {
        self.url@.len() > 0 && self.url@.last() == '/'
    }

    /// The root at `url`, with a `/` added at its end where it lacks one; `None`
    /// for an empty `url`.
    pub fn new(url: String) -> (r: Option<SiteRoot>)
        ensures
            r is None <==> url@.len() == 0,
            r matches Some(root) ==> root@ == slash_terminated(url@),
    {
        let n = url.as_str().unicode_len();
        if n == 0 {
            return None;
        }
        let ghost given = url@;
        let mut url = url;
        if url.as_str().get_char(n - 1) != '/' {
            proof {
                reveal_strlit("/");
            }
            url.append("/");
        }
        assert(url@ =~= slash_terminated(given)) by {
            reveal_strlit("/");
        };
        Some(SiteRoot { url })
    }

    pub fn as_str(&self) -> (r: &str)
        ensures
            r@ == self@,
            r@.len() > 0,
            r@.last() == '/',
    {
        proof {
            use_type_invariant(self);
        }
        self.url.as_str()
    }
}

impl Todo {
    /// The address of a stored item under `root`; a draft has none.
    pub fn url(&self, root: &SiteRoot) -> (r: Option<String>)
        ensures
            match self@.uid {
                Some(uid) => r is Some && r->Some_0@ == root@ + items_path() + decimal_text(uid as int),
                None => r is None,
            },
    {
        match self.uid() {
            Some(uid) => {
                let mut s = String::from_str(root.as_str());
                s.append("todos/");
                let digits = decimal(*uid);
                s.append(digits.as_str());
                Some(s)
            },
            None => None,
        }
    }
}

} // verus!
