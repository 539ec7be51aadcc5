use vstd::prelude::*;

use crate::position::Range;
use crate::position::range_zero;
use crate::types::Module;
use crate::types::ModuleView;
use crate::types::Port;
use crate::types::PortDir;
use crate::types::PortType;
use crate::types::PortView;
use crate::types::default_port;
use crate::types::module_views;
use crate::types::port_views;

verus! {

/// The label of one pattern-query capture, telling which sub-part of a
/// matched declaration the captured node stands for.
#[derive(Clone, Copy, PartialEq, Eq, Structural, Debug)]
pub enum CaptureLabel {
    ModuleName,
    ModuleItem,
    PortName,
    PortClass,
    PortDirection,
    PortSize,
    PortItem,
    Other,
}

/// One capture as the query engine hands it over: the capture's name as
/// raw text, the matched node's source text, and the node's span.
#[derive(Clone, Debug)]
pub struct RawCapture {
    pub label: String,
    pub text: String,
    pub range: Range,
}

/// The mathematical value of a `RawCapture`.
pub struct RawCaptureView {
    pub label: Seq<char>,
    pub text: Seq<char>,
    pub range: Range,
}

impl View for RawCapture {
    type V = RawCaptureView;

    open spec fn view(&self) -> RawCaptureView {
        RawCaptureView { label: self.label@, text: self.text@, range: self.range }
    }
}

/// A capture whose label has been decoded.
#[derive(Clone, Debug)]
pub struct Capture {
    pub label: CaptureLabel,
    pub text: String,
    pub range: Range,
}

/// The mathematical value of a `Capture`.
pub struct CaptureView {
    pub label: CaptureLabel,
    pub text: Seq<char>,
    pub range: Range,
}

impl View for Capture {
    type V = CaptureView;

    open spec fn view(&self) -> CaptureView {
        CaptureView { label: self.label, text: self.text@, range: self.range }
    }
}

/// The mathematical values of a sequence of decoded captures.
pub open spec fn capture_views(s: Seq<Capture>) -> Seq<CaptureView> {
    s.map_values(|c: Capture| c@)
}

/// The mathematical values of a sequence of raw captures.
pub open spec fn raw_capture_views(s: Seq<RawCapture>) -> Seq<RawCaptureView> {
    s.map_values(|r: RawCapture| r@)
}

/// Which label a capture name denotes; unknown names map to `Other`.
pub open spec fn spec_label(s: Seq<char>) -> CaptureLabel {
    if s == "module.name"@ {
        CaptureLabel::ModuleName
    } else if s == "module.item"@ {
        CaptureLabel::ModuleItem
    } else if s == "port.name"@ {
        CaptureLabel::PortName
    } else if s == "port.class"@ {
        CaptureLabel::PortClass
    } else if s == "port.direction"@ {
        CaptureLabel::PortDirection
    } else if s == "port.size"@ {
        CaptureLabel::PortSize
    } else if s == "port.item"@ {
        CaptureLabel::PortItem
    } else {
        CaptureLabel::Other
    }
}

/// Decodes a capture name into its label.
pub fn parse_label(s: &String) -> (l: CaptureLabel)
    ensures
        l == spec_label(s@),
{
    if *s == "module.name".to_owned() {
        CaptureLabel::ModuleName
    } else if *s == "module.item".to_owned() {
        CaptureLabel::ModuleItem
    } else if *s == "port.name".to_owned() {
        CaptureLabel::PortName
    } else if *s == "port.class".to_owned() {
        CaptureLabel::PortClass
    } else if *s == "port.direction".to_owned() {
        CaptureLabel::PortDirection
    } else if *s == "port.size".to_owned() {
        CaptureLabel::PortSize
    } else if *s == "port.item".to_owned() {
        CaptureLabel::PortItem
    } else {
        CaptureLabel::Other
    }
}

/// A raw capture after decoding its label.
pub open spec fn interp_one(r: RawCaptureView) -> CaptureView {
    CaptureView { label: spec_label(r.label), text: r.text, range: r.range }
}

/// A whole raw capture stream after decoding the labels.
pub open spec fn spec_interpret(rs: Seq<RawCaptureView>) -> Seq<CaptureView> {
    rs.map_values(|r: RawCaptureView| interp_one(r))
}

/// Decodes the label of every capture in the stream, keeping order.
pub fn interpret_captures(raw: &Vec<RawCapture>) -> (caps: Vec<Capture>)
    ensures
        capture_views(caps@) == spec_interpret(raw_capture_views(raw@)),
{
    let mut caps: Vec<Capture> = Vec::new();
    let mut i: usize = 0;
    while i < raw.len()
        invariant
            i <= raw.len(),
            caps@.len() == i,
            forall|j: int| #![trigger caps@[j]] 0 <= j < i ==> caps@[j]@ == interp_one(raw@[j]@),
        decreases raw.len() - i,
    {
        let r = &raw[i];
        caps.push(Capture { label: parse_label(&r.label), text: r.text.clone(), range: r.range });
        i = i + 1;
    }
    proof {
        let lhs = capture_views(caps@);
        let rhs = spec_interpret(raw_capture_views(raw@));
        assert forall|j: int| 0 <= j < lhs.len() implies lhs[j] == rhs[j] by {
            assert(caps@[j]@ == interp_one(raw@[j]@));
        }
        assert(lhs =~= rhs);
    }
    caps
}

/// The accumulator of the extraction state machine: the module being
/// assembled (with a flag telling whether a declaration capture has
/// anchored its span yet), the port record under construction, and the
/// modules already completed.
pub struct ExtractState {
    pub current: Option<ModuleView>,
    pub anchored: bool,
    pub pending: PortView,
    pub done: Seq<ModuleView>,
}

/// The state before any capture has been consumed.
pub open spec fn initial_state() -> ExtractState {
    ExtractState {
        current: Option::None,
        anchored: false,
        pending: default_port(),
        done: Seq::empty(),
    }
}

/// A freshly opened module record.
pub open spec fn opened_module(name: Seq<char>, range: Range) -> ModuleView {
    ModuleView { name, ports: Seq::empty(), range }
}

/// How one capture advances the accumulator.
///
/// A module-declaration capture completes the module being assembled (if
/// its own declaration was already seen) and opens a new one anchored at
/// the captured span; if the open module was opened by a name capture
/// alone, the declaration merely anchors it, so that a name arriving
/// before or after the declaration never yields two records for one
/// module. A name capture opens a module when none is open, patches the
/// name of an open module that still lacks one, and otherwise stands for
/// the next declaration. A port-name capture commits the staged port to
/// the open module (or is discarded when none is open); the remaining
/// port captures only stage fields of the port under construction.
pub open spec fn step(st: ExtractState, c: CaptureView) -> ExtractState {
    match c.label {
        CaptureLabel::ModuleItem => match st.current {
            Option::None => ExtractState {
                current: Option::Some(opened_module(Seq::empty(), c.range)),
                anchored: true,
                ..st
            },
            Option::Some(m) => if st.anchored {
                ExtractState {
                    current: Option::Some(opened_module(Seq::empty(), c.range)),
                    anchored: true,
                    done: st.done.push(m),
                    ..st
                }
            } else {
                ExtractState {
                    current: Option::Some(ModuleView { range: c.range, ..m }),
                    anchored: true,
                    ..st
                }
            },
        },
        CaptureLabel::ModuleName => match st.current {
            Option::None => ExtractState {
                current: Option::Some(opened_module(c.text, range_zero())),
                anchored: false,
                ..st
            },
            Option::Some(m) => if st.anchored && m.name.len() > 0 {
                ExtractState {
                    current: Option::Some(opened_module(c.text, range_zero())),
                    anchored: false,
                    done: st.done.push(m),
                    ..st
                }
            } else {
                ExtractState { current: Option::Some(ModuleView { name: c.text, ..m }), ..st }
            },
        },
        CaptureLabel::PortName => {
            let p = PortView { name: c.text, selection_range: c.range, ..st.pending };
            match st.current {
                Option::Some(m) => ExtractState {
                    current: Option::Some(ModuleView { ports: m.ports.push(p), ..m }),
                    pending: default_port(),
                    ..st
                },
                Option::None => ExtractState { pending: p, ..st },
            }
        },
        CaptureLabel::PortClass => ExtractState {
            pending: PortView {
                class: if c.text == "reg"@ {
                    PortType::Reg
                } else {
                    PortType::Wire
                },
                ..st.pending
            },
            ..st
        },
        CaptureLabel::PortDirection => ExtractState {
            pending: PortView {
                direction: if c.text == "input"@ {
                    PortDir::Input
                } else if c.text == "output"@ {
                    PortDir::Output
                } else {
                    PortDir::Inout
                },
                ..st.pending
            },
            ..st
        },
        CaptureLabel::PortSize => ExtractState {
            pending: PortView { size: Option::Some(c.text), ..st.pending },
            ..st
        },
        CaptureLabel::PortItem => ExtractState {
            pending: PortView { range: c.range, ..st.pending },
            ..st
        },
        CaptureLabel::Other => st,
    }
}

/// The accumulator after consuming a whole capture stream.
pub open spec fn fold_state(caps: Seq<CaptureView>) -> ExtractState
    decreases caps.len(),
{
    if caps.len() == 0 {
        initial_state()
    } else {
        step(fold_state(caps.drop_last()), caps.last())
    }
}

/// The modules a capture stream extracts to: the completed modules, plus
/// the one still being assembled when the stream ends.
pub open spec fn extract_spec(caps: Seq<CaptureView>) -> Seq<ModuleView> {
    let st = fold_state(caps);
    match st.current {
        Option::Some(m) => st.done.push(m),
        Option::None => st.done,
    }
}

/// How many module-declaration captures a stream holds.
pub open spec fn count_module_items(caps: Seq<CaptureView>) -> int
    decreases caps.len(),
{
    if caps.len() == 0 {
        0
    } else {
        count_module_items(caps.drop_last()) + if caps.last().label is ModuleItem {
            1int
        } else {
            0int
        }
    }
}

/// Completed modules plus an anchored open module always account for
/// exactly the module-declaration captures consumed so far.
proof fn lemma_fold_count(caps: Seq<CaptureView>)
    ensures
        fold_state(caps).done.len() + (if fold_state(caps).current is Some && fold_state(
            caps,
        ).anchored {
            1int
        } else {
            0int
        }) == count_module_items(caps),
    decreases caps.len(),
{
    if caps.len() > 0 {
        lemma_fold_count(caps.drop_last());
    }
}

/// Extraction returns one module record per module-declaration capture,
/// provided the stream does not end with a module opened by a stray name
/// capture that never received its declaration. Termination and document
/// order are inherent: `extract_spec` is a total function that only ever
/// appends to the completed sequence.
pub proof fn lemma_module_count(caps: Seq<CaptureView>)
    requires
        fold_state(caps).current is Some ==> fold_state(caps).anchored,
    ensures
        extract_spec(caps).len() == count_module_items(caps),
{
    lemma_fold_count(caps);
}

/// Every port of a module lies within the module's own span.
pub open spec fn module_ports_within(m: ModuleView) -> bool {
    forall|j: int|
        0 <= j < m.ports.len() ==> crate::position::range_within(
            #[trigger] m.ports[j].range,
            m.range,
        )
}

/// A port-name capture only ever commits a staged port whose span lies
/// within the span of the module it joins. The document-ordered capture
/// stream of a real syntax tree has this shape, since a port node is a
/// descendant of its module node.
pub open spec fn port_commit_ok(c: CaptureView, st: ExtractState) -> bool {
    c.label is PortName ==> match st.current {
        Option::Some(m) => st.anchored && crate::position::range_within(st.pending.range, m.range),
        Option::None => true,
    }
}

/// The machine keeps the containment invariant: completed modules contain
/// their ports, an anchored open module contains its ports, and a module
/// opened by a bare name capture has no ports yet.
proof fn lemma_fold_containment(caps: Seq<CaptureView>)
    requires
        forall|i: int|
            0 <= i < caps.len() ==> #[trigger] port_commit_ok(caps[i], fold_state(caps.take(i))),
    ensures
        forall|k: int|
            0 <= k < fold_state(caps).done.len() ==> module_ports_within(
                #[trigger] fold_state(caps).done[k],
            ),
        match fold_state(caps).current {
            Option::Some(m) => if fold_state(caps).anchored {
                module_ports_within(m)
            } else {
                m.ports.len() == 0
            },
            Option::None => true,
        },
    decreases caps.len(),
{
    if caps.len() > 0 {
        let s = caps.drop_last();
        let c = caps.last();
        assert forall|i: int| 0 <= i < s.len() implies #[trigger] port_commit_ok(
            s[i],
            fold_state(s.take(i)),
        ) by {
            assert(s.take(i) =~= caps.take(i));
            assert(port_commit_ok(caps[i], fold_state(caps.take(i))));
        }
        lemma_fold_containment(s);
        let st = fold_state(s);
        assert(caps.take(caps.len() - 1) =~= s);
        assert(port_commit_ok(c, st));
        let post = fold_state(caps);
        assert(post == step(st, c));
        match c.label {
            CaptureLabel::ModuleItem => {
                assert forall|k: int| 0 <= k < post.done.len() implies module_ports_within(
                    #[trigger] post.done[k],
                ) by {
                    if k < st.done.len() {
                        assert(module_ports_within(st.done[k]));
                    }
                }
            },
            CaptureLabel::ModuleName => {
                assert forall|k: int| 0 <= k < post.done.len() implies module_ports_within(
                    #[trigger] post.done[k],
                ) by {
                    if k < st.done.len() {
                        assert(module_ports_within(st.done[k]));
                    }
                }
            },
            CaptureLabel::PortName => {
                match st.current {
                    Option::Some(m) => {
                        let p = PortView {
                            name: c.text,
                            selection_range: c.range,
                            ..st.pending
                        };
                        assert(module_ports_within(ModuleView { ports: m.ports.push(p), ..m }));
                    },
                    Option::None => {},
                }
            },
            _ => {},
        }
    }
}

/// Containment invariant of the extracted outline: every port record of
/// every extracted module has a span contained in its module's span,
/// whenever each committed port was staged within the open module's span.
pub proof fn lemma_ports_within_module(caps: Seq<CaptureView>)
    requires
        forall|i: int|
            0 <= i < caps.len() ==> #[trigger] port_commit_ok(caps[i], fold_state(caps.take(i))),
    ensures
        forall|k: int|
            0 <= k < extract_spec(caps).len() ==> module_ports_within(
                #[trigger] extract_spec(caps)[k],
            ),
{
    lemma_fold_containment(caps);
}

/// Extraction is a function of the capture stream alone: identical
/// streams yield structurally identical outlines, so re-running the
/// extractor on unchanged text and an unchanged query changes nothing.
pub proof fn lemma_extraction_deterministic(a: Seq<CaptureView>, b: Seq<CaptureView>)
    requires
        a == b,
    ensures
        extract_spec(a) == extract_spec(b),
{
}

/// Folding one more capture is one step of the machine.
proof fn lemma_fold_snoc(s: Seq<CaptureView>, c: CaptureView)
    ensures
        fold_state(s.push(c)) == step(fold_state(s), c),
{
    assert(s.push(c).drop_last() =~= s);
    assert(s.push(c).last() == c);
}

/// The mathematical value of an optional module.
pub open spec fn opt_module_view(m: Option<Module>) -> Option<ModuleView> {
    match m {
        Option::Some(m) => Option::Some(m@),
        Option::None => Option::None,
    }
}

/// Folds an ordered capture stream into the sequence of module records it
/// describes, in stream order. This is the symbol-extraction engine: a
/// single pass with a single accumulator, total on every stream.
pub fn fold_captures(captures: &Vec<Capture>) -> (modules: Vec<Module>)
    ensures
        module_views(modules@) == extract_spec(capture_views(captures@)),
{
    let mut all: Vec<Module> = Vec::new();
    let mut current: Option<Module> = Option::None;
    let mut anchored: bool = false;
    let mut pending: Port = Port::new();
    let mut i: usize = 0;
    proof {
        assert(capture_views(captures@).take(0) =~= Seq::<CaptureView>::empty());
        assert(module_views(all@) =~= Seq::<ModuleView>::empty());
    }
    while i < captures.len()
        invariant
            i <= captures.len(),
            fold_state(capture_views(captures@).take(i as int)) == (ExtractState {
                current: opt_module_view(current),
                anchored: anchored,
                pending: pending@,
                done: module_views(all@),
            }),
        decreases captures.len() - i,
    {
        let c = &captures[i];
        let ghost pre = fold_state(capture_views(captures@).take(i as int));
        let ghost cv = captures@[i as int]@;
        proof {
            assert(capture_views(captures@).take(i + 1) =~= capture_views(captures@).take(
                i as int,
            ).push(cv));
            lemma_fold_snoc(capture_views(captures@).take(i as int), cv);
        }
        match c.label {
            CaptureLabel::ModuleItem => {
                let prev = current;
                match prev {
                    Option::Some(m) => {
                        if anchored {
                            let ghost old_all = all@;
                            let ghost vm = m@;
                            all.push(m);
                            current = Option::Some(
                                Module { name: String::new(), ports: Vec::new(), range: c.range },
                            );
                            proof {
                                assert(module_views(all@) =~= module_views(old_all).push(vm));
                            }
                        } else {
                            current = Option::Some(
                                Module { name: m.name, ports: m.ports, range: c.range },
                            );
                            anchored = true;
                        }
                    },
                    Option::None => {
                        current = Option::Some(
                            Module { name: String::new(), ports: Vec::new(), range: c.range },
                        );
                        anchored = true;
                    },
                }
            },
            CaptureLabel::ModuleName => {
                let prev = current;
                match prev {
                    Option::None => {
                        current = Option::Some(
                            Module {
                                name: c.text.clone(),
                                ports: Vec::new(),
                                range: Range::default(),
                            },
                        );
                        anchored = false;
                    },
                    Option::Some(m) => {
                        let named = !m.name.as_str().is_empty();
                        if anchored && named {
                            let ghost old_all = all@;
                            let ghost vm = m@;
                            all.push(m);
                            current = Option::Some(
                                Module {
                                    name: c.text.clone(),
                                    ports: Vec::new(),
                                    range: Range::default(),
                                },
                            );
                            anchored = false;
                            proof {
                                assert(module_views(all@) =~= module_views(old_all).push(vm));
                            }
                        } else {
                            current = Option::Some(
                                Module { name: c.text.clone(), ports: m.ports, range: m.range },
                            );
                        }
                    },
                }
            },
            CaptureLabel::PortName => {
                let staged = pending;
                let committed = Port {
                    name: c.text.clone(),
                    class: staged.class,
                    direction: staged.direction,
                    size: staged.size,
                    range: staged.range,
                    selection_range: c.range,
                };
                let prev = current;
                match prev {
                    Option::Some(m) => {
                        let mut m = m;
                        let ghost old_ports = m.ports@;
                        let ghost vp = committed@;
                        m.ports.push(committed);
                        proof {
                            assert(port_views(m.ports@) =~= port_views(old_ports).push(vp));
                        }
                        current = Option::Some(m);
                        pending = Port::new();
                    },
                    Option::None => {
                        current = Option::None;
                        pending = committed;
                    },
                }
            },
            CaptureLabel::PortClass => {
                pending.class = if c.text == "reg".to_owned() {
                    PortType::Reg
                } else {
                    PortType::Wire
                };
            },
            CaptureLabel::PortDirection => {
                pending.direction = if c.text == "input".to_owned() {
                    PortDir::Input
                } else if c.text == "output".to_owned() {
                    PortDir::Output
                } else {
                    PortDir::Inout
                };
            },
            CaptureLabel::PortSize => {
                pending.size = Option::Some(c.text.clone());
            },
            CaptureLabel::PortItem => {
                pending.range = c.range;
            },
            CaptureLabel::Other => {},
        }
        proof {
            assert(port_views(Seq::<Port>::empty()) =~= Seq::<PortView>::empty());
            let post = step(pre, cv);
            assert(anchored == post.anchored);
            assert(pending@ == post.pending);
            assert(module_views(all@) == post.done);
            assert(opt_module_view(current) == post.current);
        }
        i = i + 1;
    }
    proof {
        assert(capture_views(captures@).take(captures@.len() as int) =~= capture_views(
            captures@,
        ));
    }
    let prev = current;
    match prev {
        Option::Some(m) => {
            let ghost old_all = all@;
            let ghost vm = m@;
            all.push(m);
            proof {
                assert(module_views(all@) =~= module_views(old_all).push(vm));
            }
        },
        Option::None => {},
    }
    all
}

} // verus!
