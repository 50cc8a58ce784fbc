//! The manifest: the ordered, name-unique list of declared libraries.
use vstd::prelude::*;

use crate::haxelib::Haxelib;
use crate::text::same_text;

verus! {

/// The manifest's list of declared libraries.
#[derive(Debug)]
pub struct Dependancies {
    pub dependencies: Vec<Haxelib>,
}

/// No library of that name is declared.
#[derive(Debug, Clone, Copy, PartialEq, Eq, Structural)]
pub struct NotDeclared;

/// Some declared library has this name.
pub open spec fn declares(libs: Seq<Haxelib>, name: Seq<char>) -> bool {
    exists|i: int| 0 <= i < libs.len() && (#[trigger] libs[i]).name@ == name
}

/// The libraries not named `name`, in order.
pub open spec fn without_name(libs: Seq<Haxelib>, name: Seq<char>) -> Seq<Haxelib>
    decreases libs.len(),
{
    if libs.len() == 0 {
        libs
    } else if libs.last().name@ == name {
        without_name(libs.drop_last(), name)
    } else {
        without_name(libs.drop_last(), name).push(libs.last())
    }
}

/// No two libraries share a name.
pub open spec fn unique_names(libs: Seq<Haxelib>) -> bool {
    forall|i: int, j: int| 0 <= i < j < libs.len() ==> (#[trigger] libs[i]).name@ != (#[trigger] libs[j]).name@
}

/// Dropping the libraries of one name keeps the others, with distinct names
/// where they were distinct, and leaves none of that name.
pub proof fn lemma_without_name(libs: Seq<Haxelib>, name: Seq<char>)
    ensures
        forall|i: int| 0 <= i < without_name(libs, name).len() ==> (#[trigger] without_name(libs, name)[i]).name@ != name,
        forall|i: int| 0 <= i < without_name(libs, name).len() ==> exists|j: int| 0 <= j < libs.len() && libs[j] == #[trigger] without_name(libs, name)[i],
        unique_names(libs) ==> unique_names(without_name(libs, name)),
    decreases libs.len(),
{
    if libs.len() > 0 {
        let rest = libs.drop_last();
        lemma_without_name(rest, name);
        let w = without_name(rest, name);
        assert forall|i: int| 0 <= i < w.len() implies exists|j: int| 0 <= j < libs.len() && libs[j] == #[trigger] w[i] by {
            let j = choose|j: int| 0 <= j < rest.len() && rest[j] == w[i];
            assert(libs[j] == rest[j]);
        }
        if libs.last().name@ != name {
            let w2 = w.push(libs.last());
            assert forall|i: int| 0 <= i < w2.len() implies exists|j: int| 0 <= j < libs.len() && libs[j] == #[trigger] w2[i] by {
                if i < w.len() {
                    assert(w2[i] == w[i]);
                } else {
                    assert(libs[libs.len() - 1] == w2[i]);
                }
            }
            if unique_names(libs) {
                assert(unique_names(rest)) by {
                    assert forall|i: int, j: int| 0 <= i < j < rest.len() implies (#[trigger] rest[i]).name@ != (#[trigger] rest[j]).name@ by {
                        assert(rest[i] == libs[i] && rest[j] == libs[j]);
                    }
                }
                assert forall|i: int, j: int| 0 <= i < j < w2.len() implies (#[trigger] w2[i]).name@ != (#[trigger] w2[j]).name@ by {
                    if j == w.len() {
                        let k = choose|k: int| 0 <= k < rest.len() && rest[k] == w[i];
                        assert(libs[k] == rest[k]);
                        assert(w2[j] == libs[libs.len() - 1]);
                    } else {
                        assert(w2[i] == w[i] && w2[j] == w[j]);
                    }
                }
            }
        }
    }
}

/// A manifest with no libraries.
pub fn create_empty_hmm_json() -> (r: Dependancies)
    ensures
        r.dependencies@.len() == 0,
{
    Dependancies { dependencies: Vec::new() }
}

impl Dependancies {
    /// Drops every library named `name`.
    pub fn remove(&mut self, name: &str)
        ensures
            final(self).dependencies@ == without_name(old(self).dependencies@, name@),
            !declares(final(self).dependencies@, name@),
            unique_names(old(self).dependencies@) ==> unique_names(final(self).dependencies@),
    {
        proof {
            lemma_without_name(self.dependencies@, name@);
        }
        let n = self.dependencies.len();
        let mut kept: Vec<Haxelib> = Vec::new();
        let mut i: usize = 0;
        while i < n
            invariant
                n == self.dependencies@.len(),
                i <= n,
                kept@ == without_name(self.dependencies@.subrange(0, i as int), name@),
            decreases n - i,
        {
            assert(self.dependencies@.subrange(0, i + 1).drop_last() =~= self.dependencies@.subrange(0, i as int));
            if !same_text(self.dependencies[i].name.as_str(), name) {
                kept.push(self.dependencies[i].duplicate());
            }
            i = i + 1;
        }
        assert(self.dependencies@.subrange(0, n as int) =~= self.dependencies@);
        self.dependencies = kept;
    }

    /// Declares `lib`, replacing every library of the same name; it goes to
    /// the end of the list.
    pub fn upsert(&mut self, lib: Haxelib)
        ensures
            final(self).dependencies@ == without_name(old(self).dependencies@, lib.name@).push(lib),
            unique_names(old(self).dependencies@) ==> unique_names(final(self).dependencies@),
    {
        proof {
            lemma_without_name(self.dependencies@, lib.name@);
        }
        self.remove(lib.name.as_str());
        let ghost before = self.dependencies@;
        self.dependencies.push(lib);
        proof {
            let after = self.dependencies@;
            if unique_names(before) {
                assert forall|i: int, j: int| 0 <= i < j < after.len() implies (#[trigger] after[i]).name@ != (#[trigger] after[j]).name@ by {
                    if j == before.len() {
                        assert(after[i] == before[i]);
                    } else {
                        assert(after[i] == before[i] && after[j] == before[j]);
                    }
                }
            }
        }
    }

    /// The first declared library with the given name.
    pub fn get_haxelib(&self, name: &str) -> (r: Result<&Haxelib, NotDeclared>)
        ensures
            r is Ok <==> declares(self.dependencies@, name@),
            r is Ok ==> r->Ok_0.name@ == name@ && exists|i: int|
                0 <= i < self.dependencies@.len() && self.dependencies@[i] == *r->Ok_0,
    {
        let n = self.dependencies.len();
        let mut i: usize = 0;
        while i < n
            invariant
                n == self.dependencies@.len(),
                i <= n,
                forall|k: int| 0 <= k < i ==> (#[trigger] self.dependencies@[k]).name@ != name@,
            decreases n - i,
        {
            if same_text(self.dependencies[i].name.as_str(), name) {
                return Ok(&self.dependencies[i]);
            }
            i = i + 1;
        }
        Err(NotDeclared)
    }
}

} // verus!
