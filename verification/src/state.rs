//! The state that the interface shows.

use vstd::prelude::*;

verus! {

/// The state of the application: the tests of the set that the interface lists,
/// by name and in the order of the set.
pub struct CFTIApp<'a> {
    test_names: &'a Vec<String>,
}

impl<'a> View for CFTIApp<'a> {
    type V = Seq<Seq<char>>;

    /// The names of the tests, in order.
    closed spec fn view(&self) -> Seq<Seq<char>> {
        self.test_names.deep_view()
    }
}

impl<'a> CFTIApp<'a> {
    /// The state over the tests with the given names.
    pub fn new(test_names: &'a Vec<String>) -> (app: Self)
        ensures
            app@ == test_names.deep_view(),
    {
        CFTIApp { test_names }
    }

    /// The number of tests.
    pub fn num_tests(&self) -> (n: usize)
        ensures
            n == self@.len(),
    {
        self.test_names.len()
    }

    /// The name of the test at position `i`.
    pub fn test_name(&self, i: usize) -> (name: &'a String)
        requires
            i < self@.len(),
        ensures
            name@ == self@[i as int],
    {
        &self.test_names[i]
    }
}

} // verus!
