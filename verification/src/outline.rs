use vstd::prelude::*;
use vstd::string::StringExecFns;

use crate::position::Range;
use crate::types::Module;
use crate::types::ModuleView;
use crate::types::Port;
use crate::types::PortDir;
use crate::types::PortType;
use crate::types::PortView;
use crate::types::module_views;

verus! {

/// The display name of a record: the identifier text, or the placeholder
/// when the name is empty, so malformed input never loses an entry.
pub open spec fn spec_display_name(name: Seq<char>, placeholder: Seq<char>) -> Seq<char> {
    if name.len() == 0 {
        placeholder
    } else {
        name
    }
}

/// The display word for a port direction.
pub open spec fn spec_dir_text(d: PortDir) -> Seq<char> {
    match d {
        PortDir::Input => "Input"@,
        PortDir::Output => "Output"@,
        PortDir::Inout => "Inout"@,
    }
}

/// The display word for a port storage class.
pub open spec fn spec_class_text(c: PortType) -> Seq<char> {
    match c {
        PortType::Wire => "Wire"@,
        PortType::Reg => "Reg"@,
    }
}

/// The human-readable summary of a port: direction, storage class, and
/// the raw size text when one was declared.
pub open spec fn spec_port_detail(p: PortView) -> Seq<char> {
    spec_dir_text(p.direction) + " "@ + spec_class_text(p.class) + " "@ + (match p.size {
        Option::Some(s) => s,
        Option::None => Seq::empty(),
    })
}

/// One outline entry for a port.
pub struct PortSymbol {
    pub name: String,
    pub detail: String,
    pub range: Range,
    pub selection_range: Range,
}

/// The mathematical value of a port outline entry.
pub struct PortSymbolView {
    pub name: Seq<char>,
    pub detail: Seq<char>,
    pub range: Range,
    pub selection_range: Range,
}

impl View for PortSymbol {
    type V = PortSymbolView;

    open spec fn view(&self) -> PortSymbolView {
        PortSymbolView {
            name: self.name@,
            detail: self.detail@,
            range: self.range,
            selection_range: self.selection_range,
        }
    }
}

/// One outline entry for a module, holding its ports' entries.
pub struct ModuleSymbol {
    pub name: String,
    pub range: Range,
    pub selection_range: Range,
    pub children: Vec<PortSymbol>,
}

/// The mathematical value of a module outline entry.
pub struct ModuleSymbolView {
    pub name: Seq<char>,
    pub range: Range,
    pub selection_range: Range,
    pub children: Seq<PortSymbolView>,
}

impl View for ModuleSymbol {
    type V = ModuleSymbolView;

    open spec fn view(&self) -> ModuleSymbolView {
        ModuleSymbolView {
            name: self.name@,
            range: self.range,
            selection_range: self.selection_range,
            children: self.children@.map_values(|p: PortSymbol| p@),
        }
    }
}

/// The outline entry a port maps to.
pub open spec fn spec_port_symbol(p: PortView) -> PortSymbolView {
    PortSymbolView {
        name: spec_display_name(p.name, "<unnamed port>"@),
        detail: spec_port_detail(p),
        range: p.range,
        selection_range: p.selection_range,
    }
}

/// The outline entry a module maps to: its ports in declaration order,
/// anchored at the module's whole span.
pub open spec fn spec_module_symbol(m: ModuleView) -> ModuleSymbolView {
    ModuleSymbolView {
        name: spec_display_name(m.name, "<unnamed module>"@),
        range: m.range,
        selection_range: m.range,
        children: m.ports.map_values(|p: PortView| spec_port_symbol(p)),
    }
}

/// The nested symbol tree of a module sequence, in order.
pub open spec fn spec_outline(ms: Seq<ModuleView>) -> Seq<ModuleSymbolView> {
    ms.map_values(|m: ModuleView| spec_module_symbol(m))
}

/// The display name of a module, substituting the placeholder for an
/// empty name.
pub fn module_display_name(name: &String) -> (r: String)
    ensures
        r@ == spec_display_name(name@, "<unnamed module>"@),
{
    if name.as_str().is_empty() {
        "<unnamed module>".to_owned()
    } else {
        name.clone()
    }
}

/// The display name of a port, substituting the placeholder for an
/// empty name.
pub fn port_display_name(name: &String) -> (r: String)
    ensures
        r@ == spec_display_name(name@, "<unnamed port>"@),
{
    if name.as_str().is_empty() {
        "<unnamed port>".to_owned()
    } else {
        name.clone()
    }
}

/// Formats the human-readable summary of a port.
pub fn port_detail(p: &Port) -> (r: String)
    ensures
        r@ == spec_port_detail(p@),
{
    let mut s = match p.direction {
        PortDir::Input => "Input".to_owned(),
        PortDir::Output => "Output".to_owned(),
        PortDir::Inout => "Inout".to_owned(),
    };
    s.append(" ");
    match p.class {
        PortType::Wire => s.append("Wire"),
        PortType::Reg => s.append("Reg"),
    }
    s.append(" ");
    match &p.size {
        Option::Some(sz) => s.append(sz.as_str()),
        Option::None => {},
    }
    proof {
        assert(s@ =~= spec_port_detail(p@));
    }
    s
}

/// Builds the outline entry of one port.
pub fn port_symbol(p: &Port) -> (r: PortSymbol)
    ensures
        r@ == spec_port_symbol(p@),
{
    PortSymbol {
        name: port_display_name(&p.name),
        detail: port_detail(p),
        range: p.range,
        selection_range: p.selection_range,
    }
}

/// Builds the outline entry of one module, its ports in order.
pub fn module_symbol(m: &Module) -> (r: ModuleSymbol)
    ensures
        r@ == spec_module_symbol(m@),
{
    let mut children: Vec<PortSymbol> = Vec::new();
    let mut i: usize = 0;
    while i < m.ports.len()
        invariant
            i <= m.ports@.len(),
            children@.len() == i,
            forall|j: int|
                0 <= j < i ==> (#[trigger] children@[j])@ == spec_port_symbol(m.ports@[j]@),
        decreases m.ports@.len() - i,
    {
        children.push(port_symbol(&m.ports[i]));
        i = i + 1;
    }
    let r = ModuleSymbol {
        name: module_display_name(&m.name),
        range: m.range,
        selection_range: m.range,
        children,
    };
    proof {
        assert(r@.children =~= spec_module_symbol(m@).children);
    }
    r
}

/// Produces the nested symbol tree over the extracted modules: one
/// container entry per module, one field entry per port, with
/// placeholder display names where a name is empty.
pub fn document_outline(modules: &Vec<Module>) -> (r: Vec<ModuleSymbol>)
    ensures
        r@.map_values(|s: ModuleSymbol| s@) == spec_outline(module_views(modules@)),
{
    let mut out: Vec<ModuleSymbol> = Vec::new();
    let mut i: usize = 0;
    while i < modules.len()
        invariant
            i <= modules@.len(),
            out@.len() == i,
            forall|j: int|
                0 <= j < i ==> (#[trigger] out@[j])@ == spec_module_symbol(modules@[j]@),
        decreases modules@.len() - i,
    {
        out.push(module_symbol(&modules[i]));
        i = i + 1;
    }
    proof {
        assert(out@.map_values(|s: ModuleSymbol| s@) =~= spec_outline(module_views(modules@)));
    }
    out
}

} // verus!
