use apollog::Capture;
use apollog::CaptureLabel;
use apollog::Diagnostic;
use apollog::DocumentStore;
use apollog::Module;
use apollog::Port;
use apollog::PortDir;
use apollog::PortType;
use apollog::Position;
use apollog::Range;
use apollog::Severity;
use apollog::SyntaxNode;
use apollog::collect_errors;
use apollog::find_port_at;
use apollog::fold_captures;
use apollog::get_symbol_name_at;
use apollog::is_position_in_range;
use apollog::module_display_name;
use apollog::parse_label;
use apollog::port_detail;
use apollog::port_display_name;
use apollog::ts_to_lsp_range;

fn pos(line: u32, character: u32) -> Position {
    Position { line, character }
}

fn range(sl: u32, sc: u32, el: u32, ec: u32) -> Range {
    Range { start: pos(sl, sc), end: pos(el, ec) }
}

fn cap(label: CaptureLabel, text: &str, r: Range) -> Capture {
    Capture { label, text: text.to_string(), range: r }
}

fn leaf(kind: &str, named: bool, missing: bool, error: bool, r: Range) -> SyntaxNode {
    SyntaxNode {
        kind: kind.to_string(),
        named,
        missing,
        error,
        has_error: missing || error,
        text: String::new(),
        range: r,
        children: Vec::new(),
    }
}

#[test]
fn containment_closed_interval() {
    let r = range(2, 2, 2, 20);
    assert!(is_position_in_range(pos(2, 2), r));
    assert!(is_position_in_range(pos(2, 20), r));
    assert!(!is_position_in_range(pos(2, 1), r));
    assert!(!is_position_in_range(pos(2, 21), r));
    assert!(!is_position_in_range(pos(3, 5), r));
}

#[test]
fn containment_multi_line() {
    let r = range(1, 10, 3, 4);
    assert!(is_position_in_range(pos(2, 0), r));
    assert!(is_position_in_range(pos(1, 10), r));
    assert!(is_position_in_range(pos(3, 4), r));
    assert!(!is_position_in_range(pos(1, 9), r));
    assert!(!is_position_in_range(pos(3, 5), r));
    assert!(!is_position_in_range(pos(0, 50), r));
}

#[test]
fn range_mapper_copies_corners() {
    let r = ts_to_lsp_range(1, 2, 3, 4);
    assert_eq!(r.start.line, 1);
    assert_eq!(r.start.character, 2);
    assert_eq!(r.end.line, 3);
    assert_eq!(r.end.character, 4);
}

#[test]
fn labels_decode() {
    assert_eq!(parse_label(&"module.name".to_string()), CaptureLabel::ModuleName);
    assert_eq!(parse_label(&"module.item".to_string()), CaptureLabel::ModuleItem);
    assert_eq!(parse_label(&"port.name".to_string()), CaptureLabel::PortName);
    assert_eq!(parse_label(&"port.class".to_string()), CaptureLabel::PortClass);
    assert_eq!(parse_label(&"port.direction".to_string()), CaptureLabel::PortDirection);
    assert_eq!(parse_label(&"port.size".to_string()), CaptureLabel::PortSize);
    assert_eq!(parse_label(&"port.item".to_string()), CaptureLabel::PortItem);
    assert_eq!(parse_label(&"whatever".to_string()), CaptureLabel::Other);
}

#[test]
fn fold_one_module_with_ports() {
    let caps = vec![
        cap(CaptureLabel::ModuleItem, "module top(...);", range(0, 0, 4, 9)),
        cap(CaptureLabel::ModuleName, "top", range(0, 7, 0, 10)),
        cap(CaptureLabel::PortDirection, "input", range(0, 11, 0, 16)),
        cap(CaptureLabel::PortClass, "wire", range(0, 17, 0, 21)),
        cap(CaptureLabel::PortSize, "[7:0]", range(0, 22, 0, 27)),
        cap(CaptureLabel::PortItem, "input wire [7:0] a", range(0, 11, 0, 29)),
        cap(CaptureLabel::PortName, "a", range(0, 28, 0, 29)),
    ];
    let modules = fold_captures(&caps);
    assert_eq!(modules.len(), 1);
    let m = &modules[0];
    assert_eq!(m.name, "top");
    assert_eq!(m.range, range(0, 0, 4, 9));
    assert_eq!(m.ports.len(), 1);
    let p = &m.ports[0];
    assert_eq!(p.name, "a");
    assert_eq!(p.direction, PortDir::Input);
    assert_eq!(p.class, PortType::Wire);
    assert_eq!(p.size.as_deref(), Some("[7:0]"));
    assert_eq!(p.range, range(0, 11, 0, 29));
    assert_eq!(p.selection_range, range(0, 28, 0, 29));
}

#[test]
fn fold_name_before_declaration_gives_one_record() {
    let caps = vec![
        cap(CaptureLabel::ModuleName, "alpha", range(0, 7, 0, 12)),
        cap(CaptureLabel::ModuleItem, "module alpha; endmodule", range(0, 0, 0, 23)),
    ];
    let modules = fold_captures(&caps);
    assert_eq!(modules.len(), 1);
    assert_eq!(modules[0].name, "alpha");
    assert_eq!(modules[0].range, range(0, 0, 0, 23));
}

#[test]
fn fold_two_modules_in_order() {
    let caps = vec![
        cap(CaptureLabel::ModuleItem, "", range(0, 0, 1, 9)),
        cap(CaptureLabel::ModuleName, "first", range(0, 7, 0, 12)),
        cap(CaptureLabel::ModuleItem, "", range(2, 0, 3, 9)),
        cap(CaptureLabel::ModuleName, "second", range(2, 7, 2, 13)),
    ];
    let modules = fold_captures(&caps);
    assert_eq!(modules.len(), 2);
    assert_eq!(modules[0].name, "first");
    assert_eq!(modules[1].name, "second");
}

#[test]
fn fold_port_without_module_is_discarded() {
    let caps = vec![
        cap(CaptureLabel::PortItem, "input a", range(0, 0, 0, 7)),
        cap(CaptureLabel::PortName, "a", range(0, 6, 0, 7)),
    ];
    let modules = fold_captures(&caps);
    assert!(modules.is_empty());
}

#[test]
fn fold_port_defaults_apply() {
    let caps = vec![
        cap(CaptureLabel::ModuleItem, "", range(0, 0, 2, 9)),
        cap(CaptureLabel::PortItem, "p", range(1, 0, 1, 1)),
        cap(CaptureLabel::PortName, "p", range(1, 0, 1, 1)),
    ];
    let modules = fold_captures(&caps);
    assert_eq!(modules.len(), 1);
    let p = &modules[0].ports[0];
    assert_eq!(p.direction, PortDir::Inout);
    assert_eq!(p.class, PortType::Wire);
    assert_eq!(p.size, None);
}

#[test]
fn fold_pending_port_resets_between_ports() {
    let caps = vec![
        cap(CaptureLabel::ModuleItem, "", range(0, 0, 5, 9)),
        cap(CaptureLabel::PortDirection, "output", range(1, 0, 1, 6)),
        cap(CaptureLabel::PortClass, "reg", range(1, 7, 1, 10)),
        cap(CaptureLabel::PortItem, "output reg x", range(1, 0, 1, 12)),
        cap(CaptureLabel::PortName, "x", range(1, 11, 1, 12)),
        cap(CaptureLabel::PortItem, "y", range(2, 0, 2, 1)),
        cap(CaptureLabel::PortName, "y", range(2, 0, 2, 1)),
    ];
    let modules = fold_captures(&caps);
    let ports = &modules[0].ports;
    assert_eq!(ports.len(), 2);
    assert_eq!(ports[0].direction, PortDir::Output);
    assert_eq!(ports[0].class, PortType::Reg);
    assert_eq!(ports[1].direction, PortDir::Inout);
    assert_eq!(ports[1].class, PortType::Wire);
}

#[test]
fn fold_unknown_direction_defaults_to_inout() {
    let caps = vec![
        cap(CaptureLabel::ModuleItem, "", range(0, 0, 2, 9)),
        cap(CaptureLabel::PortDirection, "ref", range(1, 0, 1, 3)),
        cap(CaptureLabel::PortName, "r", range(1, 4, 1, 5)),
    ];
    let modules = fold_captures(&caps);
    assert_eq!(modules[0].ports[0].direction, PortDir::Inout);
}

#[test]
fn collector_reports_missing_token() {
    let missing = leaf("endmodule", true, true, false, range(0, 30, 0, 30));
    let mut root = leaf("source_file", true, false, false, range(0, 0, 0, 30));
    root.has_error = true;
    root.children.push(missing);
    let mut diagnostics: Vec<Diagnostic> = Vec::new();
    collect_errors(&root, &mut diagnostics);
    assert_eq!(diagnostics.len(), 1);
    let d = &diagnostics[0];
    assert_eq!(d.message, "Incomplete syntax: expected 'endmodule'");
    assert_eq!(d.severity, Severity::Error);
    assert_eq!(d.source, "Apollog");
    assert_eq!(d.range, range(0, 30, 0, 30));
}

#[test]
fn collector_reports_error_nodes_in_document_order() {
    let e1 = leaf("ERROR", true, false, true, range(0, 0, 0, 5));
    let e2 = leaf("ERROR", true, false, true, range(1, 0, 1, 5));
    let mut root = leaf("source_file", true, false, false, range(0, 0, 1, 5));
    root.has_error = true;
    root.children.push(e1);
    root.children.push(e2);
    let mut diagnostics: Vec<Diagnostic> = Vec::new();
    collect_errors(&root, &mut diagnostics);
    assert_eq!(diagnostics.len(), 2);
    assert_eq!(diagnostics[0].message, "Syntax error");
    assert_eq!(diagnostics[0].range, range(0, 0, 0, 5));
    assert_eq!(diagnostics[1].range, range(1, 0, 1, 5));
}

#[test]
fn collector_prunes_subtrees_without_errors() {
    let clean = leaf("module_declaration", true, false, false, range(0, 0, 0, 20));
    let mut root = leaf("source_file", true, false, false, range(0, 0, 0, 20));
    root.children.push(clean);
    let mut diagnostics: Vec<Diagnostic> = Vec::new();
    collect_errors(&root, &mut diagnostics);
    assert!(diagnostics.is_empty());
}

fn sample_modules() -> Vec<Module> {
    let a = Port {
        name: "a".to_string(),
        class: PortType::Wire,
        direction: PortDir::Input,
        size: Some("[7:0]".to_string()),
        range: range(2, 2, 2, 20),
        selection_range: range(2, 18, 2, 20),
    };
    let b = Port {
        name: "b".to_string(),
        class: PortType::Reg,
        direction: PortDir::Output,
        size: None,
        range: range(3, 2, 3, 14),
        selection_range: range(3, 13, 3, 14),
    };
    vec![Module {
        name: "top".to_string(),
        ports: vec![a, b],
        range: range(0, 0, 5, 9),
    }]
}

#[test]
fn hover_lookup_finds_first_containing_port() {
    let modules = sample_modules();
    let hit = find_port_at(&modules, pos(2, 10)).expect("port under cursor");
    assert_eq!(hit.name, "a");
    let hit_b = find_port_at(&modules, pos(3, 2)).expect("port under cursor");
    assert_eq!(hit_b.name, "b");
    assert!(find_port_at(&modules, pos(4, 0)).is_none());
    assert!(find_port_at(&modules, pos(2, 21)).is_none());
}

#[test]
fn symbol_lookup_returns_identifier_only() {
    let ident = SyntaxNode {
        kind: "simple_identifier".to_string(),
        named: true,
        missing: false,
        error: false,
        has_error: false,
        text: "clk".to_string(),
        range: range(0, 7, 0, 10),
        children: Vec::new(),
    };
    let keyword = SyntaxNode {
        kind: "module_keyword".to_string(),
        named: true,
        missing: false,
        error: false,
        has_error: false,
        text: "module".to_string(),
        range: range(0, 0, 0, 6),
        children: Vec::new(),
    };
    let mut root = leaf("source_file", true, false, false, range(0, 0, 0, 10));
    root.children.push(keyword);
    root.children.push(ident);
    assert_eq!(get_symbol_name_at(&root, pos(0, 8)), Some("clk".to_string()));
    assert_eq!(get_symbol_name_at(&root, pos(0, 3)), None);
    assert_eq!(get_symbol_name_at(&root, pos(5, 0)), None);
}

#[test]
fn display_names_substitute_placeholders() {
    assert_eq!(module_display_name(&String::new()), "<unnamed module>");
    assert_eq!(module_display_name(&"alu".to_string()), "alu");
    assert_eq!(port_display_name(&String::new()), "<unnamed port>");
    assert_eq!(port_display_name(&"a".to_string()), "a");
}

#[test]
fn port_detail_format() {
    let modules = sample_modules();
    assert_eq!(port_detail(&modules[0].ports[0]), "Input Wire [7:0]");
    assert_eq!(port_detail(&modules[0].ports[1]), "Output Reg ");
}

#[test]
fn store_keeps_latest_record_per_identity() {
    let analyser = apollog::Analyser::new();
    let mut store = DocumentStore::new();
    store.parse_and_store(&analyser, "file:///a.v".to_string(), "module a; endmodule".to_string());
    store.parse_and_store(&analyser, "file:///b.v".to_string(), "module b; endmodule".to_string());
    store.parse_and_store(&analyser, "file:///a.v".to_string(), "module a2; endmodule".to_string());
    let a = store.get(&"file:///a.v".to_string()).expect("record for a");
    let b = store.get(&"file:///b.v".to_string()).expect("record for b");
    assert_eq!(a.text, "module a2; endmodule");
    assert_eq!(b.text, "module b; endmodule");
    assert_eq!(a.modules.len(), 1);
    assert_eq!(a.modules[0].name, "a2");
    assert_eq!(b.modules[0].name, "b");
    assert!(store.get(&"file:///missing.v".to_string()).is_none());
}
