use vstd::prelude::*;

pub mod ast;
pub mod laws;
pub mod opts;

use crate::ast::{ImportDecl, ModuleItem};
use crate::laws::lemma_order_preserved;
use crate::opts::{index_of, Module, ModuleIndex, Options};

verus! {

/// Whether an index elides an import of `src`.
pub open spec fn is_external(idx: Map<Seq<char>, Module>, src: Seq<char>) -> bool {
    idx.contains_key(src)
}

/// Whether an item leaves the module body: exactly the imports that the
/// index names.
pub open spec fn is_elided(idx: Map<Seq<char>, Module>, item: ModuleItem) -> bool {
    match item {
        ModuleItem::Import(d) => is_external(idx, d.src@),
        _ => false,
    }
}

/// The items that stay, in their order.
pub open spec fn retained(idx: Map<Seq<char>, Module>, items: Seq<ModuleItem>) -> Seq<ModuleItem>
    decreases items.len(),
{
    if items.len() == 0 {
        Seq::empty()
    } else {
        let rest = retained(idx, items.drop_last());
        if is_elided(idx, items.last()) {
            rest
        } else {
            rest.push(items.last())
        }
    }
}

/// What a visit of the items' children makes of one item: an import that the
/// index names is cleared, anything else is left as it is.
pub open spec fn visited(idx: Map<Seq<char>, Module>, before: ModuleItem, after: ModuleItem) -> bool {
    match before {
        ModuleItem::Import(d) => if is_external(idx, d.src@) {
            after matches ModuleItem::Import(e) && e.is_cleared()
        } else {
            after == before
        },
        _ => after == before,
    }
}

/// The item that stands in a slot while the item itself is being visited.
fn placeholder() -> (r: ModuleItem)
    ensures
        r matches ModuleItem::Stmt(_),
{
    ModuleItem::Stmt(String::new())
}

/// Removes from a module body the imports of modules that the host provides
/// as globals.
pub struct TransformExternalVisitior {
    dependencices: ModuleIndex,
    in_global_scope: bool,
}

impl View for TransformExternalVisitior {
    type V = Map<Seq<char>, Module>;

    closed spec fn view(&self) -> Map<Seq<char>, Module> {
        self.dependencices@
    }
}

impl TransformExternalVisitior {
    pub fn new(options: Options) -> (r: Self)
        ensures
            r@ == index_of(options.modules@),
    {
        TransformExternalVisitior {
            dependencices: ModuleIndex::build(options.modules),
            in_global_scope: false,
        }
    }

    /// Clears the declaration when its specifier names an external module.
    pub fn scan_import_stmt(&self, import_decl: &mut ImportDecl)
        ensures
            if is_external(self@, old(import_decl).src@) {
                final(import_decl).is_cleared()
            } else {
                *final(import_decl) == *old(import_decl)
            },
    {
        match self.dependencices.get(&import_decl.src) {
            Some(_) => {
                import_decl.take();
            },
            None => {},
        }
    }

    /// Export declarations are left as they are.
    pub fn scan_export_stmt() {
    }

    pub fn visit_mut_import_decl(&mut self, n: &mut ImportDecl)
        ensures
            *final(self) == *old(self),
            if is_external(old(self)@, old(n).src@) {
                final(n).is_cleared()
            } else {
                *final(n) == *old(n)
            },
    {
        self.scan_import_stmt(n);
    }

    /// Visits each item, clearing the external imports in place, and tells
    /// for each position whether its item was matched (and so cleared).
    pub fn visit_mut_children(&self, stmts: &mut Vec<ModuleItem>) -> (matched: Vec<bool>)
        ensures
            final(stmts)@.len() == old(stmts)@.len(),
            matched@.len() == old(stmts)@.len(),
            forall|k: int|
                0 <= k < old(stmts)@.len() ==> visited(
                    self@,
                    #[trigger] old(stmts)@[k],
                    final(stmts)@[k],
                ),
            forall|k: int|
                0 <= k < old(stmts)@.len() ==> #[trigger] matched@[k] == is_elided(
                    self@,
                    old(stmts)@[k],
                ),
    {
        let n = stmts.len();
        let mut matched: Vec<bool> = Vec::new();
        let mut i: usize = 0;
        while i < n
            invariant
                n == old(stmts)@.len(),
                stmts@.len() == n,
                i <= n,
                matched@.len() == i,
                forall|k: int| 0 <= k < i ==> visited(self@, #[trigger] old(stmts)@[k], stmts@[k]),
                forall|k: int| 0 <= k < i ==> #[trigger] matched@[k] == is_elided(self@, old(stmts)@[k]),
                forall|k: int| i <= k < n ==> #[trigger] stmts@[k] == old(stmts)@[k],
            decreases n - i,
        {
            let mut item = placeholder();
            stmts.set_and_swap(i, &mut item);
            let mut hit = false;
            if let ModuleItem::Import(d) = &mut item {
                hit = self.dependencices.get(&d.src).is_some();
                self.scan_import_stmt(d);
            }
            matched.push(hit);
            stmts.set_and_swap(i, &mut item);
            i = i + 1;
        }
        matched
    }

    /// Visits the items, then drops the imports that the visit matched; all
    /// other items stay, unchanged and in their order.
    pub fn visit_mut_module_items(&mut self, stmts: &mut Vec<ModuleItem>)
        ensures
            *final(self) == *old(self),
            final(stmts)@ == retained(old(self)@, old(stmts)@),
            final(stmts)@ == old(stmts)@.filter(
                |it: ModuleItem| !(it matches ModuleItem::Import(d) && old(self)@.contains_key(d.src@)),
            ),
    {
        let matched = self.visit_mut_children(stmts);
        let ghost mid = stmts@;
        let mut visited_items: Vec<ModuleItem> = Vec::new();
        std::mem::swap(stmts, &mut visited_items);
        let n = visited_items.len();
        let mut j: usize = 0;
        while j < n
            invariant
                n == visited_items@.len(),
                n == old(stmts)@.len(),
                n == matched@.len(),
                j <= n,
                forall|k: int| j <= k < n ==> #[trigger] visited_items@[k] == mid[k],
                forall|k: int|
                    0 <= k < n ==> visited(self@, #[trigger] old(stmts)@[k], mid[k]),
                forall|k: int|
                    0 <= k < n ==> #[trigger] matched@[k] == is_elided(self@, old(stmts)@[k]),
                stmts@ == retained(self@, old(stmts)@.subrange(0, j as int)),
            decreases n - j,
        {
            let mut item = placeholder();
            visited_items.set_and_swap(j, &mut item);
            proof {
                let s = old(stmts)@.subrange(0, j + 1);
                assert(s.drop_last() =~= old(stmts)@.subrange(0, j as int));
                assert(s.last() == old(stmts)@[j as int]);
                assert(visited(self@, old(stmts)@[j as int], mid[j as int]));
                assert(matched@[j as int] == is_elided(self@, old(stmts)@[j as int]));
            }
            if !matched[j] {
                stmts.push(item);
            }
            j = j + 1;
        }
        proof {
            assert(old(stmts)@.subrange(0, n as int) =~= old(stmts)@);
            lemma_order_preserved(self@, old(stmts)@);
            assert((|it: ModuleItem| !is_elided(self@, it)) =~= (|it: ModuleItem|
                !(it matches ModuleItem::Import(d) && self@.contains_key(d.src@))));
        }
    }
}

} // verus!
