//! Opaque resource identifiers, as the storage layer mints and consumes
//! them.

use vstd::prelude::*;
use vstd::string::StrSliceExecFns;

verus! {

/// An opaque, non-empty resource identifier.
#[derive(Debug, PartialEq, Eq, Hash)]
pub struct Id(String);

impl View for Id {
    type V = Seq<char>;

    closed spec fn view(&self) -> Seq<char> {
        self.0@
    }
}

impl Id {
    /// The id under its conventional serialization key, as the single-pair
    /// dictionary `{_id: ...}` that creation endpoints answer with.
    pub fn as_dict(&self) -> (r: Vec<(String, Id)>)
        ensures
            r@.len() == 1,
            r@[0].0@ == "_id"@,
            r@[0].1@ == self@,
    {
        let mut dict: Vec<(String, Id)> = Vec::new();
        dict.push(("_id".to_owned(), Id(self.0.clone())));
        dict
    }

    /// The id's text.
    pub fn to_str(&self) -> (r: String)
        ensures
            r@ == self@,
    {
        self.0.clone()
    }

    /// An id from its text; the empty text denotes no id.
    pub fn from_str(s: &str) -> (r: Option<Id>)
        ensures
            s@.len() == 0 ==> r is None,
            s@.len() > 0 ==> (r matches Some(id) && id@ == s@),
    {
        if s.is_empty() {
            None
        } else {
            Some(Id(s.to_owned()))
        }
    }
}

} // verus!
