//! The paths that an archive includes.

use vstd::prelude::*;
use vstd::string::*;

use crate::text::{
    holds_text, join, join_text, lemma_with_all_unique_no_duplicates,
    lemma_with_unique_no_duplicates, prefixed, texts, with_all_unique, with_unique,
};

verus! {

/// An ordered list of paths in which no path occurs twice. Its view is the
/// sequence of the paths' texts.
#[derive(Debug, Clone)]
pub struct PathList {
    items: Vec<String>,
}

impl View for PathList {
    type V = Seq<Seq<char>>;

    closed spec fn view(&self) -> Seq<Seq<char>> {
        texts(self.items@)
    }
}

impl PathList {
    /// No path occurs twice. Every list made by this module is well-formed.
    pub open spec fn wf(&self) -> bool {
        self@.no_duplicates()
    }

    /// An empty list.
    pub fn new() -> (list: Self)
        ensures
            list@.len() == 0,
            list.wf(),
    {
        PathList { items: Vec::new() }
    }

    /// Adds `path` at the end unless the list holds it already.
    pub fn push_unique(&mut self, path: &str)
        ensures
            final(self)@ == with_unique(old(self)@, path@),
            old(self).wf() ==> final(self).wf(),
    {
        proof {
            if self.wf() {
                lemma_with_unique_no_duplicates(self@, path@);
            }
        }
        if !holds_text(&self.items, path) {
            self.items.push(String::from_str(path));
            assert(texts(self.items@) =~= texts(old(self).items@).push(path@));
        }
    }

    /// Adds each of `paths` in turn, unless the list holds it already.
    pub fn extend_unique(&mut self, paths: &Vec<String>)
        ensures
            final(self)@ == with_all_unique(old(self)@, texts(paths@)),
            old(self).wf() ==> final(self).wf(),
    {
        let ghost items = texts(paths@);
        proof {
            if self.wf() {
                lemma_with_all_unique_no_duplicates(self@, items);
            }
        }
        let mut i: usize = 0;
        while i < paths.len()
            invariant
                i <= paths@.len(),
                items == texts(paths@),
                self@ == with_all_unique(old(self)@, items.take(i as int)),
            decreases paths@.len() - i,
        {
            proof {
                assert(items.take(i + 1).drop_last() =~= items.take(i as int));
                assert(items.take(i + 1).last() == paths@[i as int]@);
            }
            self.push_unique(paths[i].as_str());
            i += 1;
        }
        assert(items.take(paths@.len() as int) =~= items);
    }

    /// The list of the distinct paths of `paths`, in the order of their first
    /// occurrence.
    pub fn from_vec(paths: Vec<String>) -> (list: Self)
        ensures
            list@ == with_all_unique(Seq::<Seq<char>>::empty(), texts(paths@)),
            list.wf(),
    {
        let mut list = PathList::new();
        assert(list@ =~= Seq::<Seq<char>>::empty());
        list.extend_unique(&paths);
        list
    }

    /// The paths, in order.
    pub fn as_slice(&self) -> (s: &[String])
        ensures
            texts(s@) == self@,
    {
        self.items.as_slice()
    }

    /// Whether the list holds no path.
    pub fn is_empty(&self) -> (r: bool)
        ensures
            r == (self@.len() == 0),
    {
        self.items.len() == 0
    }

    /// The paths separated by single spaces, as a shell command takes them.
    pub fn join_for_shell(&self) -> (out: String)
        ensures
            out@ == join_text(self@, " "@),
    {
        let out = join(&self.items, "", " ");
        proof {
            reveal_strlit("");
            assert(prefixed(texts(self.items@), ""@) =~= texts(self.items@)) by {
                assert forall|i: int| 0 <= i < self.items@.len() implies ""@ + self.items@[i]@
                    =~= self.items@[i]@ by {}
            }
        }
        out
    }

    /// The paths separated by single spaces.
    pub fn to_string(&self) -> (out: String)
        ensures
            out@ == join_text(self@, " "@),
    {
        self.join_for_shell()
    }
}

impl Default for PathList {
    fn default() -> (list: Self)
        ensures
            list@.len() == 0,
            list.wf(),
    {
        PathList::new()
    }
}

} // verus!
