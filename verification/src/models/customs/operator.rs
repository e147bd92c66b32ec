//! The operator: staff of an office who sets its rules.
use vstd::prelude::*;
use crate::ambient::{fresh_id, is_random_id};

verus! {

/// What an operator is.
pub ghost struct OperatorView {
    pub id: u128,
    pub name: Seq<char>,
    pub post: Seq<char>,
}

/// A member of an office's staff.
#[derive(Eq, PartialEq, PartialOrd, Ord, Debug, Hash)]
pub struct Operator {
    id: u128,
    name: String,
    post: String,
}

impl View for Operator {
    type V = OperatorView;

    closed spec fn view(&self) -> OperatorView {
        OperatorView { id: self.id, name: self.name@, post: self.post@ }
    }
}

impl Clone for Operator {
    fn clone(&self) -> (r: Self)
        ensures
            r == *self,
    {
        Operator { id: self.id, name: self.name.clone(), post: self.post.clone() }
    }
}

impl Operator {
    /// An operator under a fresh random identifier.
    pub fn new(name: &str, post: &str) -> (r: Self)
        ensures
            is_random_id(r@.id),
            r@ == (OperatorView { id: r@.id, name: name@, post: post@ }),
    {
        Self::load(fresh_id(), name, post)
    }

    /// An operator under a given identifier.
    pub fn load(id: u128, name: &str, post: &str) -> (r: Self)
        ensures
            r@ == (OperatorView { id, name: name@, post: post@ }),
    {
        Operator { id, name: name.to_owned(), post: post.to_owned() }
    }

    pub fn id(&self) -> (r: u128)
        ensures
            r == self@.id,
    {
        self.id
    }

    pub fn name_ref(&self) -> (r: &str)
        ensures
            r@ == self@.name,
    {
        self.name.as_str()
    }

    pub fn post_ref(&self) -> (r: &str)
        ensures
            r@ == self@.post,
    {
        self.post.as_str()
    }

    pub fn set_id(&mut self, value: u128)
        ensures
            final(self)@ == (OperatorView { id: value, ..old(self)@ }),
    {
        self.id = value;
    }

    pub fn set_name(&mut self, value: &str)
        ensures
            final(self)@ == (OperatorView { name: value@, ..old(self)@ }),
    {
        self.name = value.to_owned();
    }

    pub fn set_post(&mut self, value: &str)
        ensures
            final(self)@ == (OperatorView { post: value@, ..old(self)@ }),
    {
        self.post = value.to_owned();
    }
}

} // verus!
