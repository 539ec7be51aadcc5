use vstd::prelude::*;

use crate::position::Range;

verus! {

/// Direction of a declared port. `Inout` doubles as the conservative
/// default when no direction keyword was captured.
#[derive(Clone, Copy, PartialEq, Eq, Structural, Debug)]
pub enum PortDir {
    Input,
    Output,
    Inout,
}

/// Storage class of a declared port; `Wire` is the default.
#[derive(Clone, Copy, PartialEq, Eq, Structural, Debug)]
pub enum PortType {
    Wire,
    Reg,
}

/// A declared signal binding of a module.
#[derive(Clone, Debug)]
pub struct Port {
    /// Identifier text; empty when the name capture did not fire.
    pub name: String,
    pub class: PortType,
    pub direction: PortDir,
    /// Raw bit-width or array descriptor text, absent when unspecified.
    pub size: Option<String>,
    /// Span of the whole port declaration item.
    pub range: Range,
    /// Span of just the identifier.
    pub selection_range: Range,
}

/// The mathematical value of a `Port`.
pub struct PortView {
    pub name: Seq<char>,
    pub class: PortType,
    pub direction: PortDir,
    pub size: Option<Seq<char>>,
    pub range: Range,
    pub selection_range: Range,
}

impl View for Port {
    type V = PortView;

    open spec fn view(&self) -> PortView {
        PortView {
            name: self.name@,
            class: self.class,
            direction: self.direction,
            size: match self.size {
                Option::Some(s) => Option::Some(s@),
                Option::None => Option::None,
            },
            range: self.range,
            selection_range: self.selection_range,
        }
    }
}

/// Field values a port record starts from before any capture is staged.
pub open spec fn default_port() -> PortView {
    PortView {
        name: Seq::empty(),
        class: PortType::Wire,
        direction: PortDir::Inout,
        size: Option::None,
        range: crate::position::range_zero(),
        selection_range: crate::position::range_zero(),
    }
}

impl Port {
    /// A port record with all fields at their default values.
    pub fn new() -> (p: Self)
        ensures
            p@ == default_port(),
    {
        Port {
            name: String::new(),
            class: PortType::Wire,
            direction: PortDir::Inout,
            size: Option::None,
            range: Range::default(),
            selection_range: Range::default(),
        }
    }
}

/// A named container of ports; `range` spans the whole module construct.
#[derive(Clone, Debug)]
pub struct Module {
    /// Identifier text; empty when the module is unnamed or malformed.
    pub name: String,
    /// Contained ports, in declaration order.
    pub ports: Vec<Port>,
    pub range: Range,
}

/// The mathematical value of a `Module`.
pub struct ModuleView {
    pub name: Seq<char>,
    pub ports: Seq<PortView>,
    pub range: Range,
}

/// The mathematical values of a sequence of ports.
pub open spec fn port_views(s: Seq<Port>) -> Seq<PortView> {
    s.map_values(|p: Port| p@)
}

impl View for Module {
    type V = ModuleView;

    open spec fn view(&self) -> ModuleView {
        ModuleView { name: self.name@, ports: port_views(self.ports@), range: self.range }
    }
}

/// The mathematical values of a sequence of modules.
pub open spec fn module_views(s: Seq<Module>) -> Seq<ModuleView> {
    s.map_values(|m: Module| m@)
}

/// Severity attached to a diagnostic; this engine only ever reports errors.
#[derive(Clone, Copy, PartialEq, Eq, Structural, Debug)]
pub enum Severity {
    Error,
}

/// One reported syntax problem.
#[derive(Clone, Debug)]
pub struct Diagnostic {
    pub range: Range,
    pub severity: Severity,
    /// Tag naming the tool that produced the diagnostic.
    pub source: String,
    pub message: String,
}

/// The mathematical value of a `Diagnostic`.
pub struct DiagnosticView {
    pub range: Range,
    pub severity: Severity,
    pub source: Seq<char>,
    pub message: Seq<char>,
}

impl View for Diagnostic {
    type V = DiagnosticView;

    open spec fn view(&self) -> DiagnosticView {
        DiagnosticView {
            range: self.range,
            severity: self.severity,
            source: self.source@,
            message: self.message@,
        }
    }
}

/// The mathematical values of a sequence of diagnostics.
pub open spec fn diagnostic_views(s: Seq<Diagnostic>) -> Seq<DiagnosticView> {
    s.map_values(|d: Diagnostic| d@)
}

} // verus!
