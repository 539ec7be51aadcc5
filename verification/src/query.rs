use vstd::prelude::*;

use tree_sitter::StreamingIterator;

use crate::extract::RawCapture;
use crate::extract::RawCaptureView;
use crate::extract::raw_capture_views;
use crate::tree::SyntaxNode;
use crate::tree::node_view;
use crate::tree::wf_syntax;
use crate::utils::ts_to_lsp_range;

verus! {

/// The fixed pattern query run against every parsed tree. One pattern
/// yields a module-declaration capture anchored at the whole construct
/// together with the module's name; the port patterns stage direction,
/// storage class and size, and the final pattern yields the port item's
/// span and the identifier that commits the port.
pub const SYMBOL_QUERY: &'static str = "\
(module_declaration (module_header (module_keyword) (simple_identifier) @module.name)) @module.item \
(ERROR (module_header (module_keyword) (simple_identifier) @module.name)) @module.item \
(ERROR (module_keyword)) @module.item \
(ansi_port_declaration (_ (port_direction) @port.direction)) \
(ansi_port_declaration (_ (_ (net_type) @port.class))) \
(ansi_port_declaration (_ (_ (integer_vector_type) @port.class))) \
(ansi_port_declaration (_ (_ (packed_dimension) @port.size))) \
(ansi_port_declaration (_ (_ (_ (packed_dimension) @port.size)))) \
(ansi_port_declaration (_ (_ (_ (_ (packed_dimension) @port.size))))) \
(ansi_port_declaration (port_identifier (simple_identifier) @port.name)) @port.item";

/// The syntax tree that parsing a text yields; parsing is deterministic,
/// so the tree is a function of the text alone.
pub uninterp spec fn source_tree(code: Seq<char>) -> SyntaxNode;

/// The capture stream the symbol query yields on a text; the query is a
/// fixed constant, so the stream is a function of the text alone.
pub uninterp spec fn symbol_captures(code: Seq<char>) -> Seq<RawCaptureView>;

/// Relies on tree_sitter::Query::new over the Verilog grammar: compiles
/// the fixed symbol query, aborting startup if the query is invalid, as
/// an invalid query is a build-time defect.
#[verifier::external_body]
pub(crate) fn check_symbol_query() {
    let language = tree_sitter::Language::from(tree_sitter_verilog::LANGUAGE);
    let _query = tree_sitter::Query::new(&language, SYMBOL_QUERY).expect("Invalid query syntax");
}

/// The parser's node handle, opaque to the verified code.
#[verifier::external_type_specification]
#[verifier::external_body]
pub struct ExNode<'a>(tree_sitter::Node<'a>);

/// The compiled pattern query, opaque to the verified code.
#[verifier::external_type_specification]
#[verifier::external_body]
pub struct ExQuery(tree_sitter::Query);

/// One capture of a query match, opaque to the verified code.
#[verifier::external_type_specification]
#[verifier::external_body]
pub struct ExQueryCapture<'a>(tree_sitter::QueryCapture<'a>);

/// Relies on tree_sitter::QueryCapture and Node accessors: copies one
/// capture's name, matched text and span into plain values.
#[verifier::external_body]
fn raw_capture(query: &tree_sitter::Query, c: &tree_sitter::QueryCapture<'_>, code: &str) -> (r:
    RawCapture) {
    RawCapture {
        label: query.capture_names()[c.index as usize].to_string(),
        text: c.node.utf8_text(code.as_bytes()).unwrap_or("").to_string(),
        range: ts_to_lsp_range(
            c.node.start_position().row, c.node.start_position().column,
            c.node.end_position().row, c.node.end_position().column,
        ),
    }
}

/// Relies on tree_sitter::Node accessors (kind, is_named, is_missing,
/// is_error, has_error, start_position, end_position, utf8_text, and
/// child iteration) to copy one node and its subtree into plain values.
#[verifier::external_body]
fn model_node(n: tree_sitter::Node<'_>, code: &str) -> SyntaxNode {
    SyntaxNode {
        kind: n.kind().to_string(),
        named: n.is_named(),
        missing: n.is_missing(),
        error: n.is_error(),
        has_error: n.has_error(),
        text: n.utf8_text(code.as_bytes()).unwrap_or("").to_string(),
        range: ts_to_lsp_range(
            n.start_position().row, n.start_position().column,
            n.end_position().row, n.end_position().column,
        ),
        children: n.children(&mut n.walk()).map(|c| model_node(c, code)).collect(),
    }
}

/// Relies on tree_sitter::Parser::parse with the Verilog grammar: total
/// for any text (syntax errors become error or missing nodes, never a
/// failure), deterministic in the text, and flagging as erroneous every
/// error node, missing node, and ancestor of one.
#[verifier::external_body]
pub(crate) fn parse_source(code: &str) -> (r: SyntaxNode)
    ensures
        r == source_tree(code@),
        wf_syntax(node_view(r)),
{
    let mut parser = tree_sitter::Parser::new();
    parser.set_language(&tree_sitter_verilog::LANGUAGE.into()).expect("Grammar mismatch");
    let tree = parser.parse(code, None).expect("Parser returned no tree");
    model_node(tree.root_node(), code)
}

/// Relies on tree_sitter::QueryCursor::matches with the fixed symbol
/// query: yields the query's capture stream in document order of the
/// matched nodes, deterministic in the text.
#[verifier::external_body]
pub(crate) fn run_symbol_query(code: &str) -> (r: Vec<RawCapture>)
    ensures
        raw_capture_views(r@) == symbol_captures(code@),
{
    let language = tree_sitter::Language::from(tree_sitter_verilog::LANGUAGE);
    let query = tree_sitter::Query::new(&language, SYMBOL_QUERY).expect("Invalid query syntax");
    let mut parser = tree_sitter::Parser::new();
    parser.set_language(&language).expect("Grammar mismatch");
    let tree = parser.parse(code, None).expect("Parser returned no tree");
    let mut cursor = tree_sitter::QueryCursor::new();
    let mut matches = cursor.matches(&query, tree.root_node(), code.as_bytes());
    let mut out: Vec<RawCapture> = Vec::new();
    while let Some(m) = matches.next() {
        for c in m.captures() {
            out.push(raw_capture(&query, c, code));
        }
    }
    out
}

} // verus!
