use vstd::prelude::*;

verus! {

/// An `import ... from "<src>"` declaration: its specifier and the local
/// names it binds.
#[derive(Debug, PartialEq, Eq)]
pub struct ImportDecl {
    pub src: String,
    pub specifiers: Vec<String>,
}

impl ImportDecl {
    /// The cleared declaration: no specifier and no bound names.
    pub fn dummy() -> (r: Self)
        ensures
            r.is_cleared(),
    {
        ImportDecl { src: String::new(), specifiers: Vec::new() }
    }

    /// Swaps the declaration for the cleared one and hands back what it held.
    pub fn take(&mut self) -> (r: Self)
        ensures
            r == *old(self),
            final(self).is_cleared(),
    {
        let mut r = ImportDecl::dummy();
        std::mem::swap(self, &mut r);
        r
    }

    pub open spec fn is_cleared(&self) -> bool {
        self.src@.len() == 0 && self.specifiers@.len() == 0
    }
}

/// One top-level item of a module body. Only import declarations are read
/// by the transform; exports and statements are carried as their source text.
#[derive(Debug, PartialEq, Eq)]
pub enum ModuleItem {
    Import(ImportDecl),
    Export(String),
    Stmt(String),
}

} // verus!
