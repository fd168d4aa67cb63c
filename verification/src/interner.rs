//! The identifier interner: an arena that assigns dense integer handles to
//! first-seen strings, with reverse lookup. Everything else in the database
//! is keyed by these handles instead of strings.

use vstd::prelude::*;
use vstd::string::StringExecFns;

verus! {

/// An arena of interned strings. The handle of a string is its index in the
/// arena; handles are assigned densely, in first-seen order.
#[derive(Debug)]
pub struct Interner {
    strings: Vec<String>,
}

impl Interner {
    /// The interned strings, by handle.
    pub closed spec fn view(self) -> Seq<Seq<char>> {
        self.strings.deep_view()
    }

    /// No string is interned twice, so each has exactly one handle.
    pub open spec fn distinct(self) -> bool {
        forall|i: int, j: int| 0 <= i < j < self.view().len() ==> self.view()[i] != self.view()[j]
    }

    pub fn new() -> (r: Self)
        ensures
            r.view() =~= Seq::<Seq<char>>::empty(),
            r.distinct(),
    {
        Interner { strings: Vec::new() }
    }

    pub fn len(&self) -> (r: usize)
        ensures
            r == self.view().len(),
    {
        self.strings.len()
    }

    /// Look a string up without inserting it: the handle it was interned
    /// under, if any.
    pub fn resolve(&self, s: &str) -> (r: Option<usize>)
        ensures
            match r {
                Some(h) => h < self.view().len() && self.view()[h as int] == s@,
                None => forall|i: int| 0 <= i < self.view().len() ==> self.view()[i] != s@,
            },
    {
        let owned: String = s.to_owned();
        let n = self.strings.len();
        let mut i: usize = 0;
        while i < n
            invariant
                n == self.view().len(),
                i <= n,
                owned@ == s@,
                forall|k: int| 0 <= k < i ==> self.view()[k] != s@,
            decreases n - i,
        {
            if self.strings[i] == owned {
                assert(self.view()[i as int] == s@);
                return Some(i);
            }
            i = i + 1;
        }
        None
    }

    /// Intern a string: idempotent, so the same string always yields the same
    /// handle.
    pub fn intern(&mut self, s: &str) -> (h: usize)
        requires
            old(self).view().len() < usize::MAX,
        ensures
            h < final(self).view().len(),
            final(self).view()[h as int] == s@,
            old(self).view().contains(s@) ==> final(self).view() == old(self).view(),
            !old(self).view().contains(s@) ==> final(self).view() =~= old(self).view().push(s@)
                && h == old(self).view().len(),
            old(self).distinct() ==> final(self).distinct(),
    {
        match self.resolve(s) {
            Some(h) => {
                proof {
                    assert(self.view().contains(s@));
                }
                h
            },
            None => {
                let h = self.strings.len();
                self.strings.push(s.to_owned());
                proof {
                    assert(self.view() =~= old(self).view().push(s@));
                    assert(!old(self).view().contains(s@)) by {
                        assert(forall|i: int| 0 <= i < old(self).view().len()
                            ==> old(self).view()[i] != s@);
                    }
                }
                h
            },
        }
    }

    /// The string interned under a handle.
    pub fn lookup(&self, h: usize) -> (r: &str)
        requires
            h < self.view().len(),
        ensures
            r@ == self.view()[h as int],
    {
        self.strings[h].as_str()
    }
}

} // verus!
