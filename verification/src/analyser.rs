use vstd::prelude::*;

use crate::extract::capture_views;
use crate::extract::extract_spec;
use crate::extract::fold_captures;
use crate::extract::interpret_captures;
use crate::extract::spec_interpret;
use crate::position::Position;
use crate::query::check_symbol_query;
use crate::query::parse_source;
use crate::query::run_symbol_query;
use crate::query::source_tree;
use crate::query::symbol_captures;
use crate::resolve::symbol_name_at;
use crate::tree::SyntaxNode;
use crate::tree::collect_errors;
use crate::tree::node_diagnostics;
use crate::tree::node_view;
use crate::types::Diagnostic;
use crate::types::DiagnosticView;
use crate::types::Module;
use crate::types::ModuleView;
use crate::types::diagnostic_views;
use crate::types::module_views;

verus! {

/// The module records a text's symbol-query capture stream folds to.
pub open spec fn spec_modules_of(code: Seq<char>) -> Seq<ModuleView> {
    extract_spec(spec_interpret(symbol_captures(code)))
}

/// The diagnostics a text's syntax tree collects to.
pub open spec fn spec_diagnostics_of(code: Seq<char>) -> Seq<DiagnosticView> {
    node_diagnostics(node_view(source_tree(code)))
}

/// The language-intelligence engine: parses source text, collects syntax
/// diagnostics, and extracts the module outline.
pub struct Analyser {}

impl Analyser {
    /// Builds the engine. The symbol query is compiled up front, so an
    /// invalid query aborts startup instead of degrading at runtime.
    pub fn new() -> (a: Self) {
        check_symbol_query();
        Analyser {  }
    }

    /// Analyses one document in full: the syntax tree, the extracted
    /// modules, and the syntax diagnostics, each a function of the text.
    pub fn parse_file(&self, code: &str) -> (r: (SyntaxNode, Vec<Module>, Vec<Diagnostic>))
        ensures
            r.0 == source_tree(code@),
            module_views(r.1@) == spec_modules_of(code@),
            diagnostic_views(r.2@) == spec_diagnostics_of(code@),
    {
        let tree = parse_source(code);
        let mut diagnostics: Vec<Diagnostic> = Vec::new();
        proof {
            assert(diagnostic_views(diagnostics@) =~= Seq::<DiagnosticView>::empty());
        }
        collect_errors(&tree, &mut diagnostics);
        proof {
            assert(Seq::<DiagnosticView>::empty() + node_diagnostics(node_view(tree))
                =~= node_diagnostics(node_view(tree)));
        }
        let modules = self.extract_symbols(code);
        (tree, modules, diagnostics)
    }

    /// Extracts the outline of a text by running the symbol query and
    /// folding its document-ordered capture stream.
    pub fn extract_symbols(&self, code: &str) -> (modules: Vec<Module>)
        ensures
            module_views(modules@) == spec_modules_of(code@),
    {
        let raw = run_symbol_query(code);
        let caps = interpret_captures(&raw);
        fold_captures(&caps)
    }

    /// Looks up the identifier under the cursor in a parsed tree.
    pub fn get_symbol_name_at(&self, root: &SyntaxNode, pos: Position) -> (r: Option<String>)
        ensures
            match r {
                Option::Some(s) => symbol_name_at(node_view(*root), pos) == Option::Some(s@),
                Option::None => symbol_name_at(node_view(*root), pos) is None,
            },
    {
        crate::resolve::get_symbol_name_at(root, pos)
    }
}

} // verus!
