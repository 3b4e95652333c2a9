//! The side table from a host window's handle to the object that serves it,
//! owned by the application and consulted when the window's messages arrive.
use vstd::prelude::*;
use std::collections::HashMap;

verus! {

broadcast use vstd::std_specs::hash::group_hash_axioms;

/// Objects by the handle of the window they serve.
pub struct WindowTable<T> {
    windows: HashMap<isize, T>,
}

impl<T> View for WindowTable<T> {
    type V = Map<isize, T>;

    closed spec fn view(&self) -> Map<isize, T> {
        self.windows@
    }
}

impl<T> WindowTable<T> {
    /// An empty table.
    pub fn new() -> (r: Self)
        ensures
            r@ == Map::<isize, T>::empty(),
    {
        WindowTable { windows: HashMap::new() }
    }

    /// Records `value` for `window`, returning what it replaces.
    pub fn attach(&mut self, window: isize, value: T) -> (r: Option<T>)
        ensures
            final(self)@ == old(self)@.insert(window, value),
            match r {
                Some(v) => old(self)@.contains_key(window) && v == old(self)@[window],
                None => !old(self)@.contains_key(window),
            },
    {
        self.windows.insert(window, value)
    }

    /// The object recorded for `window`.
    pub fn lookup(&self, window: isize) -> (r: Option<&T>)
        ensures
            match r {
                Some(v) => self@.contains_key(window) && *v == self@[window],
                None => !self@.contains_key(window),
            },
    {
        self.windows.get(&window)
    }

    /// Removes and returns the object recorded for `window`.
    pub fn detach(&mut self, window: isize) -> (r: Option<T>)
        ensures
            final(self)@ == old(self)@.remove(window),
            match r {
                Some(v) => old(self)@.contains_key(window) && v == old(self)@[window],
                None => !old(self)@.contains_key(window),
            },
    {
        self.windows.remove(&window)
    }
}

} // verus!
