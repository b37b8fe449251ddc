use vstd::prelude::*;

use crate::ast::ModuleItem;
use crate::opts::{index_of, Module};
use crate::{is_elided, is_external, retained};

verus! {

/// Whether an item is an export declaration.
pub open spec fn is_export(item: ModuleItem) -> bool {
    item matches ModuleItem::Export(_)
}

/// A body in which nothing is elided comes through unchanged.
pub proof fn lemma_retained_identity(idx: Map<Seq<char>, Module>, items: Seq<ModuleItem>)
    requires
        forall|k: int| 0 <= k < items.len() ==> !is_elided(idx, #[trigger] items[k]),
    ensures
        retained(idx, items) == items,
    decreases items.len(),
{
    if items.len() > 0 {
        let d = items.drop_last();
        assert forall|k: int| 0 <= k < d.len() implies !is_elided(idx, #[trigger] d[k]) by {
            assert(d[k] == items[k]);
        }
        lemma_retained_identity(idx, d);
        assert(!is_elided(idx, items[items.len() - 1]));
        assert(d.push(items.last()) =~= items);
    }
}

/// Nothing that stays is elided on a second look.
pub proof fn lemma_retained_has_no_elided(idx: Map<Seq<char>, Module>, items: Seq<ModuleItem>)
    ensures
        forall|k: int|
            0 <= k < retained(idx, items).len() ==> !is_elided(idx, #[trigger] retained(idx, items)[k]),
    decreases items.len(),
{
    if items.len() > 0 {
        let d = items.drop_last();
        lemma_retained_has_no_elided(idx, d);
        let r = retained(idx, d);
        if !is_elided(idx, items.last()) {
            assert forall|k: int|
                0 <= k < r.push(items.last()).len() implies !is_elided(
                idx,
                #[trigger] r.push(items.last())[k],
            ) by {
                if k < r.len() {
                    assert(r.push(items.last())[k] == r[k]);
                }
            }
        }
    }
}

/// With no module configured, every body comes through unchanged.
pub proof fn lemma_identity_on_empty_config(items: Seq<ModuleItem>)
    ensures
        retained(index_of(Seq::empty()), items) == items,
{
    let idx = index_of(Seq::<Module>::empty());
    assert(idx =~= Map::empty());
    assert forall|k: int| 0 <= k < items.len() implies !is_elided(idx, #[trigger] items[k]) by {}
    lemma_retained_identity(idx, items);
}

/// The items that stay are the input with exactly the elided items taken
/// out, the others in their original order.
pub proof fn lemma_order_preserved(idx: Map<Seq<char>, Module>, items: Seq<ModuleItem>)
    ensures
        retained(idx, items) == items.filter(|it: ModuleItem| !is_elided(idx, it)),
    decreases items.len(),
{
    reveal(Seq::filter);
    if items.len() > 0 {
        lemma_order_preserved(idx, items.drop_last());
    }
}

/// Running the transform on its own output changes nothing.
pub proof fn lemma_idempotent(idx: Map<Seq<char>, Module>, items: Seq<ModuleItem>)
    ensures
        retained(idx, retained(idx, items)) == retained(idx, items),
{
    lemma_retained_has_no_elided(idx, items);
    lemma_retained_identity(idx, retained(idx, items));
}

/// Lookups go by name alone: a specifier that no descriptor has as its name
/// is not external, whatever the descriptors list as aliases.
pub proof fn lemma_only_names_match(mods: Seq<Module>, s: Seq<char>)
    requires
        forall|k: int| 0 <= k < mods.len() ==> #[trigger] mods[k].name@ != s,
    ensures
        !is_external(index_of(mods), s),
    decreases mods.len(),
{
    if mods.len() > 0 {
        let d = mods.drop_last();
        assert forall|k: int| 0 <= k < d.len() implies #[trigger] d[k].name@ != s by {
            assert(d[k] == mods[k]);
        }
        lemma_only_names_match(d, s);
        assert(mods[mods.len() - 1].name@ != s);
    }
}

/// Export declarations all stay, in their order.
pub proof fn lemma_exports_untouched(idx: Map<Seq<char>, Module>, items: Seq<ModuleItem>)
    ensures
        retained(idx, items).filter(|it: ModuleItem| is_export(it)) == items.filter(
            |it: ModuleItem| is_export(it),
        ),
    decreases items.len(),
{
    reveal(Seq::filter);
    if items.len() > 0 {
        let d = items.drop_last();
        lemma_exports_untouched(idx, d);
        let r = retained(idx, d);
        if !is_elided(idx, items.last()) {
            assert(r.push(items.last()).drop_last() =~= r);
        }
    }
}

} // verus!
