use std::collections::HashSet;

use swc_global_external_visitor::ast::{ImportDecl, ModuleItem};
use swc_global_external_visitor::opts::{Module, ModuleIndex, Options};
use swc_global_external_visitor::TransformExternalVisitior;

fn module(name: &str, global: &str, aliases: &[&str]) -> Module {
    Module {
        name: name.to_string(),
        global: global.to_string(),
        aliases: aliases.iter().map(|a| a.to_string()).collect(),
        bindings: HashSet::new(),
    }
}

fn import(src: &str, names: &[&str]) -> ModuleItem {
    ModuleItem::Import(ImportDecl {
        src: src.to_string(),
        specifiers: names.iter().map(|n| n.to_string()).collect(),
    })
}

fn stmt(text: &str) -> ModuleItem {
    ModuleItem::Stmt(text.to_string())
}

fn export(text: &str) -> ModuleItem {
    ModuleItem::Export(text.to_string())
}

fn react_config() -> Options {
    Options { modules: vec![module("react", "React", &[])] }
}

fn run(options: Options, items: Vec<ModuleItem>) -> Vec<ModuleItem> {
    let mut visitor = TransformExternalVisitior::new(options);
    let mut items = items;
    visitor.visit_mut_module_items(&mut items);
    items
}

#[test]
fn empty_config_is_identity() {
    let input = vec![
        import("react", &["React"]),
        stmt("console.log(1);"),
        export("export { a } from \"react\";"),
        import("./local", &["x"]),
    ];
    let expected = vec![
        import("react", &["React"]),
        stmt("console.log(1);"),
        export("export { a } from \"react\";"),
        import("./local", &["x"]),
    ];
    assert_eq!(run(Options::default(), input), expected);
}

#[test]
fn matching_import_is_removed() {
    let input = vec![import("react", &["React"]), stmt("console.log(1);")];
    assert_eq!(run(react_config(), input), vec![stmt("console.log(1);")]);
}

#[test]
fn non_matching_import_is_kept() {
    let input = vec![import("./local", &["x"]), import("react", &["React"])];
    assert_eq!(run(react_config(), input), vec![import("./local", &["x"])]);
}

#[test]
fn order_is_kept_under_several_removals() {
    let options = Options {
        modules: vec![module("react", "React", &[]), module("lodash", "_", &[])],
    };
    let input = vec![
        import("react", &["React"]),
        stmt("a();"),
        import("./one", &["one"]),
        import("lodash", &["_"]),
        stmt("b();"),
        import("react", &["useState"]),
        import("./two", &["two"]),
    ];
    let expected = vec![
        stmt("a();"),
        import("./one", &["one"]),
        stmt("b();"),
        import("./two", &["two"]),
    ];
    assert_eq!(run(options, input), expected);
}

#[test]
fn second_run_changes_nothing() {
    let input = vec![
        import("./local", &["x"]),
        import("react", &["React"]),
        stmt("console.log(1);"),
    ];
    let mut visitor = TransformExternalVisitior::new(react_config());
    let mut items = input;
    visitor.visit_mut_module_items(&mut items);
    let once = vec![import("./local", &["x"]), stmt("console.log(1);")];
    assert_eq!(items, once);
    visitor.visit_mut_module_items(&mut items);
    assert_eq!(items, once);
}

#[test]
fn alias_is_not_matched() {
    let options = Options { modules: vec![module("react", "React", &["react-dom"])] };
    let input = vec![import("react-dom", &["X"])];
    assert_eq!(run(options, input), vec![import("react-dom", &["X"])]);
}

#[test]
fn lookup_is_case_sensitive() {
    let input = vec![import("React", &["R"])];
    assert_eq!(run(react_config(), input), vec![import("React", &["R"])]);
}

#[test]
fn exports_are_untouched() {
    let input = vec![
        export("export { default } from \"react\";"),
        import("react", &["React"]),
        export("export const a = 1;"),
    ];
    let expected = vec![
        export("export { default } from \"react\";"),
        export("export const a = 1;"),
    ];
    assert_eq!(run(react_config(), input), expected);
}

#[test]
fn empty_body_stays_empty() {
    assert_eq!(run(react_config(), Vec::new()), Vec::new());
}

#[test]
fn import_without_specifier_is_kept() {
    let input = vec![import("", &["x"]), stmt("a();")];
    assert_eq!(run(Options::default(), input), vec![import("", &["x"]), stmt("a();")]);
    let input = vec![import("", &["x"]), import("react", &["React"])];
    assert_eq!(run(react_config(), input), vec![import("", &["x"])]);
}

#[test]
fn later_descriptor_of_a_name_wins() {
    let index = ModuleIndex::build(vec![
        module("react", "React", &[]),
        module("vue", "Vue", &[]),
        module("react", "ReactLatest", &[]),
    ]);
    assert_eq!(index.get(&"react".to_string()).unwrap().global, "ReactLatest");
    assert_eq!(index.get(&"vue".to_string()).unwrap().global, "Vue");
    assert!(index.get(&"angular".to_string()).is_none());
}

#[test]
fn empty_index_finds_nothing() {
    let index = ModuleIndex::build(Vec::new());
    assert!(index.get(&"react".to_string()).is_none());
    assert!(index.get(&String::new()).is_none());
}

#[test]
fn default_options_are_empty() {
    assert!(Options::default().modules.is_empty());
}

#[test]
fn scan_clears_a_matching_declaration() {
    let visitor = TransformExternalVisitior::new(react_config());
    let mut decl = ImportDecl { src: "react".to_string(), specifiers: vec!["React".to_string()] };
    visitor.scan_import_stmt(&mut decl);
    assert_eq!(decl, ImportDecl { src: String::new(), specifiers: Vec::new() });
}

#[test]
fn scan_keeps_another_declaration() {
    let mut visitor = TransformExternalVisitior::new(react_config());
    let mut decl = ImportDecl { src: "./local".to_string(), specifiers: vec!["x".to_string()] };
    visitor.visit_mut_import_decl(&mut decl);
    assert_eq!(decl, ImportDecl { src: "./local".to_string(), specifiers: vec!["x".to_string()] });
    TransformExternalVisitior::scan_export_stmt();
}

#[test]
fn take_hands_back_the_declaration() {
    let mut decl = ImportDecl { src: "react".to_string(), specifiers: vec!["React".to_string()] };
    let taken = decl.take();
    assert_eq!(taken.src, "react");
    assert_eq!(taken.specifiers, vec!["React".to_string()]);
    assert_eq!(decl, ImportDecl::dummy());
}

#[test]
fn children_visit_reports_matched_positions() {
    let visitor = TransformExternalVisitior::new(react_config());
    let mut items = vec![
        import("react", &["React"]),
        import("", &[]),
        stmt("a();"),
        export("export { a } from \"react\";"),
        import("./local", &["x"]),
    ];
    let matched = visitor.visit_mut_children(&mut items);
    assert_eq!(matched, vec![true, false, false, false, false]);
    let expected = vec![
        import("", &[]),
        import("", &[]),
        stmt("a();"),
        export("export { a } from \"react\";"),
        import("./local", &["x"]),
    ];
    assert_eq!(items, expected);
}
