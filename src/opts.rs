use std::collections::HashSet;
use vstd::prelude::*;

verus! {

/// One module that the host environment provides as a global.
#[derive(Debug)]
pub struct Module {
    /// The import specifier this descriptor matches, such as `react`.
    pub name: String,
    /// The global identifier under which the host exposes the module.
    pub global: String,
    /// Other specifiers meant for the same module; not consulted by lookups.
    pub aliases: Vec<String>,
    /// Named exports expected on the global; not consulted by lookups.
    pub bindings: HashSet<String>,
}

/// The configuration of the transform: the externally provided modules.
#[derive(Debug)]
pub struct Options {
    pub modules: Vec<Module>,
}

impl Default for Options {
    fn default() -> (r: Self)
        ensures
            r.modules@.len() == 0,
    {
        Options { modules: Vec::new() }
    }
}

/// The mapping from specifier to descriptor that a list of descriptors
/// builds: each descriptor is keyed by its name, and a later descriptor
/// replaces an earlier one of the same name.
pub open spec fn index_of(mods: Seq<Module>) -> Map<Seq<char>, Module>
    decreases mods.len(),
{
    if mods.len() == 0 {
        Map::empty()
    } else {
        index_of(mods.drop_last()).insert(mods.last().name@, mods.last())
    }
}

/// Descriptors after position `i` that all carry another name do not change
/// what the index holds for `s`.
proof fn lemma_index_of_skip(mods: Seq<Module>, i: int, s: Seq<char>)
    requires
        0 <= i <= mods.len(),
        forall|k: int| i <= k < mods.len() ==> #[trigger] mods[k].name@ != s,
    ensures
        index_of(mods).contains_key(s) == index_of(mods.subrange(0, i)).contains_key(s),
        index_of(mods).contains_key(s) ==> index_of(mods)[s] == index_of(mods.subrange(0, i))[s],
    decreases mods.len() - i,
{
    if i == mods.len() {
        assert(mods.subrange(0, i) =~= mods);
    } else {
        let d = mods.drop_last();
        assert(mods[mods.len() - 1].name@ != s);
        assert(d.subrange(0, i) =~= mods.subrange(0, i));
        assert forall|k: int| i <= k < d.len() implies #[trigger] d[k].name@ != s by {
            assert(d[k] == mods[k]);
        }
        lemma_index_of_skip(d, i, s);
    }
}

/// The configuration index: the descriptors in the order given, looked up
/// by exact name with the last one of a name winning. It is a list rather
/// than a `HashMap<String, Module>`: vstd models hashing for integer keys
/// only, so no lookup in a map keyed by `String` could be proved.
pub struct ModuleIndex {
    entries: Vec<Module>,
}

impl View for ModuleIndex {
    type V = Map<Seq<char>, Module>;

    closed spec fn view(&self) -> Map<Seq<char>, Module> {
        index_of(self.entries@)
    }
}

impl ModuleIndex {
    /// Builds the index of a list of descriptors.
    pub fn build(modules: Vec<Module>) -> (r: Self)
        ensures
            r@ == index_of(modules@),
    {
        ModuleIndex { entries: modules }
    }

    /// The descriptor registered under exactly `specifier`, if any.
    pub fn get(&self, specifier: &String) -> (r: Option<&Module>)
        ensures
            match r {
                Some(m) => self@.contains_key(specifier@) && *m == self@[specifier@],
                None => !self@.contains_key(specifier@),
            },
    {
        let mut i: usize = self.entries.len();
        while i > 0
            invariant
                i <= self.entries@.len(),
                forall|k: int| i <= k < self.entries@.len() ==> #[trigger] self.entries@[k].name@
                    != specifier@,
            decreases i,
        {
            if self.entries[i - 1].name == *specifier {
                proof {
                    let mods = self.entries@;
                    lemma_index_of_skip(mods, i as int, specifier@);
                    assert(mods.subrange(0, i as int).drop_last() =~= mods.subrange(0, i - 1));
                }
                return Some(&self.entries[i - 1]);
            }
            i = i - 1;
        }
        proof {
            lemma_index_of_skip(self.entries@, 0, specifier@);
        }
        None
    }
}

} // verus!
