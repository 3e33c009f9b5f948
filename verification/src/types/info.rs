//! The help sheet: a mapping from key-combination label to action
//! description, recomputed on every navigation and rendered by the header.

use vstd::prelude::*;

verus! {

/// An ordered list of key bindings, each a label and a description.
pub struct InfoSheet {
    pub entries: Vec<(String, String)>,
}

/// The bindings of a sheet as plain character sequences, label and
/// description each.
pub open spec fn sheet_views(s: InfoSheet) -> Seq<(Seq<char>, Seq<char>)> {
    s.entries@.map_values(|e: (String, String)| (e.0@, e.1@))
}

impl InfoSheet {
    /// Appends one key binding.
    pub fn key_binding(self, key: &str, action: &str) -> (r: InfoSheet)
        ensures
            r.entries@.len() == self.entries@.len() + 1,
            forall|i: int| 0 <= i < self.entries@.len() ==> r.entries@[i] == self.entries@[i],
            r.entries@.last().0@ == key@,
            r.entries@.last().1@ == action@,
            sheet_views(r) == sheet_views(self).push((key@, action@)),
    {
        let ghost pre = self;
        let InfoSheet { mut entries } = self;
        entries.push((key.to_owned(), action.to_owned()));
        let r = InfoSheet { entries };
        proof {
            assert(sheet_views(r) =~= sheet_views(pre).push((key@, action@)));
        }
        r
    }

    /// Appends every binding of `other` after the bindings of `self`.
    pub fn merge(self, other: InfoSheet) -> (r: InfoSheet)
        ensures
            r.entries@ == self.entries@ + other.entries@,
            sheet_views(r) == sheet_views(self) + sheet_views(other),
    {
        let ghost pre = self;
        let ghost pre_other = other;
        let InfoSheet { mut entries } = self;
        let InfoSheet { entries: mut other_entries } = other;
        entries.append(&mut other_entries);
        let r = InfoSheet { entries };
        proof {
            assert(sheet_views(r) =~= sheet_views(pre) + sheet_views(pre_other));
        }
        r
    }

    /// The bindings, for the header to render.
    pub fn entries(&self) -> (r: &Vec<(String, String)>)
        ensures
            *r == self.entries,
    {
        &self.entries
    }
}

impl Default for InfoSheet {
    fn default() -> (r: InfoSheet)
        ensures
            r.entries@ == Seq::<(String, String)>::empty(),
            sheet_views(r) == Seq::<(Seq<char>, Seq<char>)>::empty(),
    {
        let r = InfoSheet { entries: Vec::new() };
        proof {
            assert(sheet_views(r) =~= Seq::<(Seq<char>, Seq<char>)>::empty());
        }
        r
    }
}

} // verus!
