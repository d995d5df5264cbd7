//! The walk over a tree of definitions, one step at a time.
//!
//! The compiler keeps the directories that are still to be listed and the
//! catalog so far. Its caller lists a directory and reports each entry:
//! a directory is put aside for later, a document is compiled at once, under
//! the category of the directory that was listed. The directory that was
//! reported last is listed next, so the walk goes depth first, without
//! recursion.

use vstd::prelude::*;
use crate::presets::catalog::{compiled, Preset, PresetCatalog};
use crate::presets::definition::{Members, PresetError};
use crate::presets::json::parsed_object;
use crate::profile::Profile;

verus! {

/// A walk in progress.
pub struct PresetCompiler {
    pending: Vec<String>,
    catalog: PresetCatalog,
}

impl PresetCompiler {
    /// The directories still to be listed. The last one is listed next.
    pub closed spec fn pending(&self) -> Seq<Seq<char>> {
        Seq::new(self.pending@.len(), |at: int| self.pending@[at]@)
    }

    /// The presets compiled so far.
    pub closed spec fn catalog(&self) -> Map<Seq<char>, Profile> {
        self.catalog@
    }

    /// A walk that has the root directory to list and no preset yet.
    pub fn new(root: &str) -> (compiler: Self)
        ensures
            compiler.pending() == seq![root@],
            compiler.catalog() == Map::<Seq<char>, Profile>::empty(),
    {
        let mut pending: Vec<String> = Vec::new();
        pending.push(root.to_owned());
        let compiler = PresetCompiler { pending, catalog: PresetCatalog::new() };
        assert(compiler.pending() =~= seq![root@]);
        compiler
    }

    /// The directory to list next, which is then no longer pending. Where
    /// there is none the walk is over.
    pub fn next_directory(&mut self) -> (next: Option<String>)
        ensures
            final(self).catalog() == old(self).catalog(),
            match next {
                Some(directory) => old(self).pending().len() > 0 && directory@ == old(self).pending().last()
                    && final(self).pending() == old(self).pending().drop_last(),
                None => old(self).pending().len() == 0 && final(self).pending() == old(self).pending(),
            },
    {
        let ghost before = self.pending();
        let next = self.pending.pop();
        assert(next is Some ==> self.pending() =~= before.drop_last());
        assert(next is None ==> self.pending() =~= before);
        next
    }

    /// Puts a directory aside, to be listed before those that are pending.
    pub fn found_directory(&mut self, path: &str)
        ensures
            final(self).pending() == old(self).pending().push(path@),
            final(self).catalog() == old(self).catalog(),
    {
        let ghost before = self.pending();
        self.pending.push(path.to_owned());
        assert(self.pending() =~= before.push(path@));
    }

    /// Compiles a document found in a directory of the given name and puts
    /// its preset into the catalog, in place of one of the same name. A
    /// document that defines no preset changes nothing.
    pub fn found_document(&mut self, category: &str, text: &str) -> (result: Result<(), PresetError>)
        ensures
            final(self).pending() == old(self).pending(),
            match compiled(category@, parsed_object(text@)) {
                Ok((name, profile)) => result is Ok && final(self).catalog() == old(self).catalog().insert(
                    name,
                    profile,
                ),
                Err(error) => result == Err::<(), PresetError>(error) && final(self).catalog() == old(
                    self,
                ).catalog(),
            },
    {
        match Preset::compile(category, text) {
            Ok(preset) => {
                self.catalog.insert(preset);
                Ok(())
            },
            Err(error) => Err(error),
        }
    }

    /// Ends the walk and hands out the catalog.
    pub fn finish(self) -> (catalog: PresetCatalog)
        ensures
            catalog@ == self.catalog(),
    {
        self.catalog
    }
}

/// A sequence that goes on with the same tail has the same head.
proof fn lemma_same_tail(first: Seq<char>, second: Seq<char>, tail: Seq<char>)
    requires
        first + tail == second + tail,
    ensures
        first == second,
{
    assert((first + tail).len() == (second + tail).len());
    assert(first =~= (first + tail).subrange(0, first.len() as int));
    assert(second =~= (second + tail).subrange(0, second.len() as int));
}

/// One document found in two directories of different names defines two
/// presets: their names differ, and both are in the catalog, with the same
/// profile.
pub proof fn law_one_document_in_two_directories(
    catalog: Map<Seq<char>, Profile>,
    first: Seq<char>,
    second: Seq<char>,
    document: Option<Members>,
)
    requires
        first != second,
        compiled(first, document) is Ok,
    ensures
        compiled(second, document) is Ok,
        ({
            let one = compiled(first, document)->Ok_0;
            let other = compiled(second, document)->Ok_0;
            let both = catalog.insert(one.0, one.1).insert(other.0, other.1);
            &&& one.0 != other.0
            &&& one.1 == other.1
            &&& both.contains_key(one.0) && both[one.0] == one.1
            &&& both.contains_key(other.0) && both[other.0] == other.1
        }),
{
    let one = compiled(first, document)->Ok_0;
    let other = compiled(second, document)->Ok_0;
    if one.0 == other.0 {
        let tail = one.0.subrange(first.len() as int, one.0.len() as int);
        assert(one.0 =~= first + tail);
        assert(other.0 =~= second + tail);
        lemma_same_tail(first, second, tail);
    }
}

} // verus!
