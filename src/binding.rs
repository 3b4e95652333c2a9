//! The table from a bound function's name to its handler, consulted when page
//! content invokes a function by name.
use vstd::prelude::*;
use crate::com::ErrorCode;
use crate::wide::{take_pwstr, wide_text};

verus! {

/// The position of the first occurrence of `name` in `names`, or -1.
pub open spec fn first_index(names: Seq<Seq<char>>, name: Seq<char>) -> int
    decreases names.len(),
{
    if names.len() == 0 {
        -1
    } else {
        let i = first_index(names.drop_last(), name);
        if i >= 0 {
            i
        } else if names.last() == name {
            names.len() - 1
        } else {
            -1
        }
    }
}

proof fn lemma_first_index_bounds(names: Seq<Seq<char>>, name: Seq<char>)
    ensures
        -1 <= first_index(names, name) < names.len(),
        first_index(names, name) >= 0 ==> names[first_index(names, name)] == name,
        first_index(names, name) == -1 ==> forall|j: int| 0 <= j < names.len() ==> names[j] != name,
        forall|j: int| 0 <= j < first_index(names, name) ==> names[j] != name,
    decreases names.len(),
{
    if names.len() > 0 {
        let d = names.drop_last();
        lemma_first_index_bounds(d, name);
        assert forall|j: int| 0 <= j < d.len() implies d[j] == names[j] by {}
    }
}

proof fn lemma_first_index_push(names: Seq<Seq<char>>, name: Seq<char>, k: Seq<char>)
    ensures
        first_index(names.push(name), k) == if first_index(names, k) >= 0 {
            first_index(names, k)
        } else if k == name {
            names.len() as int
        } else {
            -1
        },
{
    assert(names.push(name).drop_last() =~= names);
}

/// The text of each name.
pub open spec fn names_of(names: Seq<String>) -> Seq<Seq<char>> {
    names.map_values(|s: String| s@)
}

/// Handlers of bound functions, by name.
pub struct Bindings<F> {
    names: Vec<String>,
    handlers: Vec<F>,
}

impl<F> View for Bindings<F> {
    type V = Map<Seq<char>, F>;

    closed spec fn view(&self) -> Map<Seq<char>, F> {
        let names = names_of(self.names@);
        Map::new(
            |k: Seq<char>| first_index(names, k) >= 0,
            |k: Seq<char>| self.handlers@[first_index(names, k)],
        )
    }
}

impl<F> Bindings<F> {
    /// The table is consistent.
    pub closed spec fn wf(&self) -> bool {
        self.names@.len() == self.handlers@.len()
    }

    /// An empty table.
    pub fn new() -> (r: Self)
        ensures
            r.wf(),
            r@ == Map::<Seq<char>, F>::empty(),
    {
        let r = Bindings { names: Vec::new(), handlers: Vec::new() };
        assert(r@ =~= Map::<Seq<char>, F>::empty());
        r
    }

    fn find(&self, name: &String) -> (r: Option<usize>)
        requires
            self.wf(),
        ensures
            r matches Some(i) ==> i < self.names@.len() && i == first_index(names_of(self.names@), name@),
            r is None ==> first_index(names_of(self.names@), name@) == -1,
    {
        let ghost names = names_of(self.names@);
        proof {
            lemma_first_index_bounds(names, name@);
        }
        let mut i: usize = 0;
        while i < self.names.len()
            invariant
                i <= self.names@.len(),
                names == names_of(self.names@),
                forall|j: int| 0 <= j < i ==> names[j] != name@,
                -1 <= first_index(names, name@) < names.len(),
                first_index(names, name@) >= 0 ==> names[first_index(names, name@)] == name@,
                forall|j: int| 0 <= j < first_index(names, name@) ==> names[j] != name@,
                first_index(names, name@) == -1 ==> forall|j: int| 0 <= j < names.len() ==> names[j] != name@,
            decreases self.names@.len() - i,
        {
            if self.names[i] == *name {
                assert(names[i as int] == self.names@[i as int]@);
                assert(first_index(names, name@) == i);
                return Some(i);
            }
            assert(names[i as int] == self.names@[i as int]@);
            i = i + 1;
        }
        None
    }

    /// True when a handler is bound to `name`.
    pub fn contains(&self, name: &str) -> (r: bool)
        requires
            self.wf(),
        ensures
            r == self@.contains_key(name@),
    {
        let key = name.to_owned();
        self.find(&key).is_some()
    }

    /// Binds `handler` to `name`, replacing any handler bound to it before.
    pub fn bind(&mut self, name: &str, handler: F)
        requires
            old(self).wf(),
        ensures
            final(self).wf(),
            final(self)@ == old(self)@.insert(name@, handler),
    {
        let key = name.to_owned();
        let ghost names = names_of(self.names@);
        match self.find(&key) {
            Some(i) => {
                proof {
                    lemma_first_index_bounds(names, name@);
                }
                assert forall|k: Seq<char>| first_index(names, k) >= 0 implies first_index(names, k)
                    < names.len() && (first_index(names, k) == i ==> k == name@) by {
                    lemma_first_index_bounds(names, k);
                }
                self.handlers.set(i, handler);
                assert(self@ =~= old(self)@.insert(name@, handler));
            },
            None => {
                self.names.push(key);
                self.handlers.push(handler);
                assert(names_of(self.names@) =~= names.push(name@));
                assert forall|k: Seq<char>| #[trigger] first_index(names.push(name@), k)
                    == if first_index(names, k) >= 0 {
                    first_index(names, k)
                } else if k == name@ {
                    names.len() as int
                } else {
                    -1
                } by {
                    lemma_first_index_push(names, name@, k);
                }
                assert forall|k: Seq<char>| first_index(names, k) >= 0 implies first_index(names, k)
                    < names.len() by {
                    lemma_first_index_bounds(names, k);
                }
                assert(self@ =~= old(self)@.insert(name@, handler));
            },
        }
    }

    /// Calls the handler bound to `method`, if any, with the call's identifier and
    /// its arguments as JSON text; false when no handler is bound to the name.
    pub fn call(&self, method: &str, id: &str, params: &str) -> (r: bool) where F: Fn(&str, &str)
        requires
            self.wf(),
            self@.contains_key(method@) ==> self@[method@].requires((id, params)),
        ensures
            r == self@.contains_key(method@),
            r ==> self@[method@].ensures((id, params), ()),
    {
        let key = method.to_owned();
        match self.find(&key) {
            Some(i) => {
                let handler = &self.handlers[i];
                handler(id, params);
                true
            },
            None => false,
        }
    }
}

/// The JSON text of a received message, read from the buffer the foreign side
/// handed over (and freed), when it reported success in producing it.
pub fn received_message_text(status: ErrorCode, message: Option<Vec<u16>>) -> (r: Option<String>)
    ensures
        !status.spec_is_ok() ==> r is None,
        status.spec_is_ok() ==> r is Some && r->0@ == wide_text(
            match message {
                Some(s) => Some(s@),
                None => None,
            },
        ),
{
    if status.is_ok() {
        Some(take_pwstr(message))
    } else {
        None
    }
}

/// The promise method that settles a bound call: a zero status resolves it,
/// any other rejects it.
pub fn settle_method(status: i32) -> (r: &'static str)
    ensures
        status == 0 ==> r@ == "resolve"@,
        status != 0 ==> r@ == "reject"@,
{
    if status == 0 {
        "resolve"
    } else {
        "reject"
    }
}

} // verus!
