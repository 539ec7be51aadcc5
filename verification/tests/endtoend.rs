use apollog::Analyser;
use apollog::PortDir;
use apollog::PortType;
use apollog::Position;
use apollog::document_outline;

#[test]
fn ansi_module_with_two_ports() {
    let analyser = Analyser::new();
    let code = "module foo(input wire [7:0] a, output reg b);";
    let modules = analyser.extract_symbols(code);
    assert_eq!(modules.len(), 1);
    let m = &modules[0];
    assert_eq!(m.name, "foo");
    assert_eq!(m.ports.len(), 2);
    let a = &m.ports[0];
    assert_eq!(a.name, "a");
    assert_eq!(a.direction, PortDir::Input);
    assert_eq!(a.class, PortType::Wire);
    assert_eq!(a.size.as_deref(), Some("[7:0]"));
    let b = &m.ports[1];
    assert_eq!(b.name, "b");
    assert_eq!(b.direction, PortDir::Output);
    assert_eq!(b.class, PortType::Reg);
    assert_eq!(b.size, None);
}

#[test]
fn unnamed_module_gets_placeholder_in_outline() {
    let analyser = Analyser::new();
    let (_tree, modules, _diagnostics) = analyser.parse_file("module ;");
    assert_eq!(modules.len(), 1);
    assert_eq!(modules[0].name, "");
    assert!(modules[0].ports.is_empty());
    let outline = document_outline(&modules);
    assert_eq!(outline.len(), 1);
    assert_eq!(outline[0].name, "<unnamed module>");
}

#[test]
fn valid_file_yields_no_diagnostics() {
    let analyser = Analyser::new();
    let (_tree, modules, diagnostics) = analyser.parse_file(
        "module foo(input wire a);\nendmodule\n",
    );
    assert!(diagnostics.is_empty());
    assert_eq!(modules.len(), 1);
    assert_eq!(modules[0].name, "foo");
}

#[test]
fn unterminated_module_still_extracts() {
    let analyser = Analyser::new();
    let (_tree, modules, diagnostics) = analyser.parse_file("module foo(input wire a);\n");
    assert!(!diagnostics.is_empty());
    assert_eq!(diagnostics[0].message, "Syntax error");
    assert_eq!(modules.len(), 1);
    assert_eq!(modules[0].name, "foo");
    assert_eq!(modules[0].ports.len(), 1);
    assert_eq!(modules[0].ports[0].name, "a");
}

#[test]
fn missing_token_names_expected_kind() {
    let analyser = Analyser::new();
    let (_tree, modules, diagnostics) = analyser.parse_file("module t;\nwire [7:0 x;\nendmodule\n");
    assert!(
        diagnostics
            .iter()
            .any(|d| d.message == "Incomplete syntax: expected ']'"),
        "expected a missing-token diagnostic, got: {:?}",
        diagnostics.iter().map(|d| d.message.clone()).collect::<Vec<_>>()
    );
    assert_eq!(modules.len(), 1);
    assert_eq!(modules[0].name, "t");
}

#[test]
fn extraction_is_idempotent_on_same_text() {
    let analyser = Analyser::new();
    let code = "module one(input a);\nendmodule\nmodule two(output reg [3:0] b);\nendmodule\n";
    let first = analyser.extract_symbols(code);
    let second = analyser.extract_symbols(code);
    assert_eq!(first.len(), second.len());
    for (m1, m2) in first.iter().zip(second.iter()) {
        assert_eq!(m1.name, m2.name);
        assert_eq!(m1.range, m2.range);
        assert_eq!(m1.ports.len(), m2.ports.len());
        for (p1, p2) in m1.ports.iter().zip(m2.ports.iter()) {
            assert_eq!(p1.name, p2.name);
            assert_eq!(p1.direction, p2.direction);
            assert_eq!(p1.class, p2.class);
            assert_eq!(p1.size, p2.size);
            assert_eq!(p1.range, p2.range);
            assert_eq!(p1.selection_range, p2.selection_range);
        }
    }
}

#[test]
fn modules_come_in_document_order() {
    let analyser = Analyser::new();
    let code = "module one;\nendmodule\nmodule two;\nendmodule\nmodule three;\nendmodule\n";
    let modules = analyser.extract_symbols(code);
    assert_eq!(modules.len(), 3);
    assert_eq!(modules[0].name, "one");
    assert_eq!(modules[1].name, "two");
    assert_eq!(modules[2].name, "three");
}

#[test]
fn empty_text_extracts_nothing() {
    let analyser = Analyser::new();
    let (_tree, modules, diagnostics) = analyser.parse_file("");
    assert!(modules.is_empty());
    assert!(diagnostics.is_empty());
}

#[test]
fn ports_lie_within_their_module() {
    let analyser = Analyser::new();
    let code = "module foo(input wire [7:0] a, output reg b);\nendmodule\n";
    let modules = analyser.extract_symbols(code);
    assert_eq!(modules.len(), 1);
    let m = &modules[0];
    for p in &m.ports {
        assert!(apollog::is_position_in_range(p.range.start, m.range));
        assert!(apollog::is_position_in_range(p.range.end, m.range));
        assert!(apollog::is_position_in_range(p.selection_range.start, p.range));
        assert!(apollog::is_position_in_range(p.selection_range.end, p.range));
    }
}

#[test]
fn symbol_at_cursor_finds_identifier() {
    let analyser = Analyser::new();
    let code = "module foo(input wire a);\nendmodule\n";
    let (tree, _modules, _diagnostics) = analyser.parse_file(code);
    let name = analyser.get_symbol_name_at(&tree, Position { line: 0, character: 8 });
    assert_eq!(name, Some("foo".to_string()));
    let keyword = analyser.get_symbol_name_at(&tree, Position { line: 0, character: 2 });
    assert_eq!(keyword, None);
}

#[test]
fn hover_on_real_extraction() {
    let analyser = Analyser::new();
    let code = "module foo(input wire [7:0] a, output reg b);\nendmodule\n";
    let modules = analyser.extract_symbols(code);
    let m = &modules[0];
    let cursor = m.ports[0].selection_range.start;
    let hit = apollog::find_port_at(&modules, cursor).expect("port under cursor");
    assert_eq!(hit.name, "a");
    assert_eq!(apollog::port_detail(hit), "Input Wire [7:0]");
}
