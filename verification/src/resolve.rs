use vstd::prelude::*;

use crate::position::Position;
use crate::position::contains_position;
use crate::position::is_position_in_range;
use crate::tree::SyntaxNode;
use crate::tree::SyntaxNodeView;
use crate::tree::node_view;
use crate::types::Module;
use crate::types::ModuleView;
use crate::types::Port;
use crate::types::PortView;
use crate::types::module_views;

verus! {

/// The most specific named node whose span contains the cursor, found by
/// descending into the first child containing the cursor at each level
/// and keeping the deepest named node met on that path.
pub open spec fn named_node_at(n: SyntaxNodeView, pos: Position) -> Option<SyntaxNodeView>
    decreases n, n.children.len() + 1,
{
    if !contains_position(n.range, pos) {
        Option::None
    } else {
        match descend_at(n, pos, 0) {
            Option::Some(found) => Option::Some(found),
            Option::None => if n.named {
                Option::Some(n)
            } else {
                Option::None
            },
        }
    }
}

/// Scans the children of `n` from index `i` for the first one containing
/// the cursor and resolves within it.
pub open spec fn descend_at(n: SyntaxNodeView, pos: Position, i: int) -> Option<SyntaxNodeView>
    decreases n, n.children.len() - i,
{
    if 0 <= i < n.children.len() {
        if contains_position(n.children[i].range, pos) {
            named_node_at(n.children[i], pos)
        } else {
            descend_at(n, pos, i + 1)
        }
    } else {
        Option::None
    }
}

/// Finds the most specific named node containing the cursor.
pub fn find_named_node_at<'a>(node: &'a SyntaxNode, pos: Position) -> (r: Option<&'a SyntaxNode>)
    ensures
        match r {
            Option::Some(f) => named_node_at(node_view(*node), pos) == Option::Some(node_view(*f)),
            Option::None => named_node_at(node_view(*node), pos) is None,
        },
    decreases *node,
{
    let ghost nv = node_view(*node);
    if !is_position_in_range(pos, node.range) {
        return Option::None;
    }
    let mut i: usize = 0;
    while i < node.children.len()
        invariant
            i <= node.children@.len(),
            nv == node_view(*node),
            contains_position(nv.range, pos),
            descend_at(nv, pos, 0) == descend_at(nv, pos, i as int),
        decreases node.children@.len() - i,
    {
        proof {
            assert(nv.children[i as int] == node_view(node.children@[i as int]));
        }
        if is_position_in_range(pos, node.children[i].range) {
            let deeper = find_named_node_at(&node.children[i], pos);
            match deeper {
                Option::Some(f) => {
                    return Option::Some(f);
                },
                Option::None => {
                    if node.named {
                        return Option::Some(node);
                    } else {
                        return Option::None;
                    }
                },
            }
        }
        i = i + 1;
    }
    if node.named {
        Option::Some(node)
    } else {
        Option::None
    }
}

/// The identifier text under the cursor: the text of the most specific
/// named node containing the cursor, provided that node is a plain
/// identifier; nothing when the cursor rests on punctuation, a keyword,
/// whitespace, or outside the tree.
pub open spec fn symbol_name_at(root: SyntaxNodeView, pos: Position) -> Option<Seq<char>> {
    match named_node_at(root, pos) {
        Option::Some(f) => if f.kind == "simple_identifier"@ {
            Option::Some(f.text)
        } else {
            Option::None
        },
        Option::None => Option::None,
    }
}

/// Looks up the identifier under the cursor.
pub fn get_symbol_name_at(root: &SyntaxNode, pos: Position) -> (r: Option<String>)
    ensures
        match r {
            Option::Some(s) => symbol_name_at(node_view(*root), pos) == Option::Some(s@),
            Option::None => symbol_name_at(node_view(*root), pos) is None,
        },
{
    let found = find_named_node_at(root, pos);
    match found {
        Option::Some(f) => {
            if f.kind == "simple_identifier".to_owned() {
                Option::Some(f.text.clone())
            } else {
                Option::None
            }
        },
        Option::None => Option::None,
    }
}

/// The first port of `ports` whose span contains the cursor.
pub open spec fn port_in_ports(ports: Seq<PortView>, pos: Position) -> Option<PortView>
    decreases ports.len(),
{
    if ports.len() == 0 {
        Option::None
    } else if contains_position(ports.first().range, pos) {
        Option::Some(ports.first())
    } else {
        port_in_ports(ports.drop_first(), pos)
    }
}

/// The first port record, scanning modules and their ports in order,
/// whose span contains the cursor. Sibling port spans do not overlap, so
/// the first match is the only match.
pub open spec fn spec_port_at(mods: Seq<ModuleView>, pos: Position) -> Option<PortView>
    decreases mods.len(),
{
    if mods.len() == 0 {
        Option::None
    } else {
        match port_in_ports(mods.first().ports, pos) {
            Option::Some(p) => Option::Some(p),
            Option::None => spec_port_at(mods.drop_first(), pos),
        }
    }
}

/// Finds the port record under the cursor, used to answer hover queries.
pub fn find_port_at<'a>(modules: &'a Vec<Module>, pos: Position) -> (r: Option<&'a Port>)
    ensures
        match r {
            Option::Some(p) => spec_port_at(module_views(modules@), pos) == Option::Some(p@),
            Option::None => spec_port_at(module_views(modules@), pos) is None,
        },
{
    let ghost mv = module_views(modules@);
    let mut i: usize = 0;
    proof {
        assert(mv.skip(0) =~= mv);
    }
    while i < modules.len()
        invariant
            i <= modules@.len(),
            mv == module_views(modules@),
            spec_port_at(mv, pos) == spec_port_at(mv.skip(i as int), pos),
        decreases modules@.len() - i,
    {
        let module = &modules[i];
        let ghost pv = module@.ports;
        proof {
            assert(mv.skip(i as int).first() == module@);
            assert(mv.skip(i as int).drop_first() =~= mv.skip(i + 1));
        }
        let mut j: usize = 0;
        proof {
            assert(pv.skip(0) =~= pv);
        }
        while j < module.ports.len()
            invariant
                j <= module.ports@.len(),
                pv == module@.ports,
                mv == module_views(modules@),
                i < modules@.len(),
                modules@[i as int] == *module,
                spec_port_at(mv, pos) == spec_port_at(mv.skip(i as int), pos),
                mv.skip(i as int).first() == module@,
                mv.skip(i as int).drop_first() == mv.skip(i + 1),
                port_in_ports(pv, pos) == port_in_ports(pv.skip(j as int), pos),
            decreases module.ports@.len() - j,
        {
            proof {
                assert(pv.skip(j as int).first() == module.ports@[j as int]@);
                assert(pv.skip(j as int).drop_first() =~= pv.skip(j + 1));
            }
            if is_position_in_range(pos, module.ports[j].range) {
                return Option::Some(&module.ports[j]);
            }
            j = j + 1;
        }
        proof {
            assert(pv.skip(module.ports@.len() as int) =~= Seq::<PortView>::empty());
        }
        i = i + 1;
    }
    proof {
        assert(mv.skip(modules@.len() as int) =~= Seq::<ModuleView>::empty());
    }
    Option::None
}

} // verus!
