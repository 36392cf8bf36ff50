//! What holds of the compiler and the bridge together.

use vstd::prelude::*;

use futuresdr::runtime::Block;
use futuresdr::runtime::Flowgraph;

use crate::blocks::BlockPlan;
use crate::blocks::ESDRBlockInput;
use crate::blocks::ESDRBlockType;
use crate::blocks::SoapySDRBlock;
use crate::consts::FREQ_OFFSET;
use crate::declared::declares_live;
use crate::declared::lemma_declared_node_is_sound;
use crate::declared::lemma_declared_node_live_fields;
use crate::declared::lemma_declared_node_resolves;
use crate::declared::lemma_declared_value_names_its_input;
use crate::engine::links;
use crate::engine::message_inputs;
use crate::engine::registered;
use crate::graph::lemma_input_named_by_nodes_and_inputs;
use crate::graph::ESDRValueType;
use crate::graph::GraphView;
use crate::graph::NodeId;
use crate::radio::RadioState;
use crate::radio::RadioView;
use crate::value::ScalarValue;

verus! {

/// A graph without fault compiles: when the graph is sound by itself, the
/// units match the nodes one for one, every unit has the message input of
/// every live field of its node, and the engine accepts every connection,
/// there is no way in which compiling fails.
pub proof fn lemma_sound_graph_compiles(g: GraphView, units: Seq<Block>)
    requires
        g.structural_fault() is None,
        units.len() == g.nodes.len(),
        forall|n: int| 0 <= n < g.nodes.len() ==> !g.unresolved(units[n], n),
        forall|c: int| 0 <= c < g.connections.len() ==> !g.refused(units, c),
    ensures
        g.compile_fault(units) is None,
{
}

/// A graph whose nodes carry the inputs their kinds declare, whose
/// connections each lead from a stream output to a stream input, and in
/// which no input is fed twice, has no fault by itself.
pub proof fn lemma_declared_graph_is_sound(g: GraphView)
    requires
        forall|n: int| 0 <= n < g.nodes.len() ==> g.as_declared(n),
        forall|c: int| 0 <= c < g.connections.len() ==> !g.misdrawn(c),
        !g.fed_twice(),
    ensures
        g.structural_fault() is None,
{
    assert forall|n: int| 0 <= n < g.nodes.len() implies !g.lacks_input(n) && !g.misbinds_input(
        n,
    ) by {
        lemma_declared_node_is_sound(g, n);
    }
}

/// A graph built from the catalogue compiles: when every node carries the
/// inputs its kind declares, every connection leads from a stream output
/// to a stream input, no input is fed twice, there is one unit for each
/// node, every unit has a message input for each scalar that its node's
/// kind declares as live, and the engine accepts every connection between
/// the units, there is no way in which compiling fails.
pub proof fn lemma_declared_graph_compiles(g: GraphView, units: Seq<Block>)
    requires
        forall|n: int| 0 <= n < g.nodes.len() ==> g.as_declared(n),
        forall|c: int| 0 <= c < g.connections.len() ==> !g.misdrawn(c),
        !g.fed_twice(),
        units.len() == g.nodes.len(),
        forall|n: int, j: int|
            0 <= n < g.nodes.len() && 0 <= j < g.kind(n).ports().len() && (#[trigger] g.kind(
                n,
            ).ports()[j]).updatable ==> message_inputs(units[n]).contains_key(
                g.kind(n).ports()[j].name,
            ),
        forall|c: int| 0 <= c < g.connections.len() ==> !g.refused(units, c),
    ensures
        g.compile_fault(units) is None,
{
    lemma_declared_graph_is_sound(g);
    assert forall|n: int| 0 <= n < g.nodes.len() implies !g.unresolved(units[n], n) by {
        lemma_declared_node_resolves(g, units[n], n);
    }
}

/// An input left open is no fault: a graph that compiles with given units
/// still compiles with them when one of its connections is taken away.
pub proof fn lemma_open_input_still_compiles(g: GraphView, units: Seq<Block>, c: int)
    requires
        0 <= c < g.connections.len(),
        g.compile_fault(units) is None,
    ensures
        g.without_connection(c).compile_fault(units) is None,
{
    let h = g.without_connection(c);
    assert forall|n: int| 0 <= n < h.nodes.len() implies !h.lacks_input(n) && !h.misbinds_input(
        n,
    ) by {
        assert(!g.lacks_input(n));
        assert(!g.misbinds_input(n));
        assert forall|j: int| !h.lacks_port(n, j) && !h.misbinds_port(n, j) by {
            if 0 <= j < h.kind(n).ports().len() {
                lemma_input_named_by_nodes_and_inputs(g, h, n, h.kind(n).ports()[j].name);
                assert(!g.lacks_port(n, j));
                assert(!g.misbinds_port(n, j));
            }
        }
    }
    assert forall|d: int| 0 <= d < h.connections.len() implies !h.misdrawn(d) by {
        let e = if d < c {
            d
        } else {
            d + 1
        };
        assert(h.connections[d] == g.connections[e]);
        assert(!g.misdrawn(e));
    }
    assert forall|d: int| 0 <= d < h.connections.len() implies !h.refused(units, d) by {
        let e = if d < c {
            d
        } else {
            d + 1
        };
        assert(h.connections[d] == g.connections[e]);
        assert(!g.refused(units, e));
    }
    assert forall|a: int, b: int| !h.feed_one(a, b) by {
        if 0 <= a < b < h.connections.len() {
            let x = if a < c {
                a
            } else {
                a + 1
            };
            let y = if b < c {
                b
            } else {
                b + 1
            };
            assert(h.connections[a] == g.connections[x]);
            assert(h.connections[b] == g.connections[y]);
            assert(!g.feed_one(x, y));
        }
    }
    assert forall|n: int| 0 <= n < h.nodes.len() implies !h.unresolved(units[n], n) by {
        assert(!g.unresolved(units[n], n));
        assert forall|k: int| !h.unresolved_at(units[n], n, k) by {
            assert(h.input(n, k) == g.input(n, k));
            assert(!g.unresolved_at(units[n], n, k));
        }
    }
    assert(!h.fed_twice());
    assert(g.structural_fault() is None);
    assert(h.structural_fault() is None);
    assert(units.len() == h.nodes.len());
}

/// An update of a field that is not declared live does nothing: after
/// compiling, on a node that carries the inputs its kind declares, a change
/// of a field that the kind does not declare as a scalar that may be
/// changed live leads to no message call, whatever the value.
pub proof fn lemma_update_of_undeclared_field_is_noop(
    g: GraphView,
    units: Seq<Block>,
    fg: Flowgraph,
    radio: RadioView,
    node: NodeId,
    field: Seq<char>,
    value: ScalarValue,
)
    requires
        g.compiled(units, fg, radio),
        node.0 < g.nodes.len(),
        g.as_declared(node.0 as int),
        forall|j: int|
            0 <= j < g.kind(node.0 as int).ports().len() ==> !declares_live(
                #[trigger] g.kind(node.0 as int).ports()[j],
                field,
            ),
    ensures
        radio.call_for(node, field, value) is None,
{
    lemma_declared_node_live_fields(g, node.0 as int, field);
}

/// Compiling pairs the nodes with the blocks of the flowgraph one to one:
/// every node of the graph has a block and nothing else has, no two nodes
/// share a block, and the blocks of the nodes are all the blocks that the
/// flowgraph holds.
pub proof fn lemma_compiled_pairs_nodes_with_blocks(
    g: GraphView,
    units: Seq<Block>,
    fg: Flowgraph,
    radio: RadioView,
)
    requires
        g.compiled(units, fg, radio),
    ensures
        radio.blocks.dom() == Set::new(|id: NodeId| id.0 < g.nodes.len()),
        radio.blocks.is_injective(),
        radio.blocks.values() == registered(fg).dom(),
{
    assert(radio.blocks.dom() =~= Set::new(|id: NodeId| id.0 < g.nodes.len()));
    assert(radio.blocks.is_injective()) by {
        assert forall|a: NodeId, b: NodeId|
            a != b && radio.blocks.dom().contains(a) && radio.blocks.dom().contains(
                b,
            ) implies #[trigger] radio.blocks[a] != #[trigger] radio.blocks[b] by {}
    }
    assert(radio.blocks.values() =~= registered(fg).dom()) by {
        assert forall|b: usize| radio.blocks.values().contains(b) <==> registered(
            fg,
        ).dom().contains(b) by {
            if radio.blocks.values().contains(b) {
                let id = choose|id: NodeId|
                    radio.blocks.dom().contains(id) && radio.blocks[id] == b;
                assert(radio.blocks.contains_key(id) && radio.blocks[id] == b);
            }
            if registered(fg).contains_key(b) {
                let id = choose|id: NodeId| radio.blocks.contains_key(id) && radio.blocks[id] == b;
                assert(radio.blocks.dom().contains(id));
            }
        }
    }
}

/// Compiling carries the connections over exactly: the flowgraph holds as
/// many connections as the graph; every connection of the graph is among
/// them, from the block of its source node to the block of its sink node,
/// leaving by the stream output and entering by the stream input that the
/// two units have for the names of the connection's two ports; and every
/// connection of the flowgraph is one of the graph.
pub proof fn lemma_compiled_connections(
    g: GraphView,
    units: Seq<Block>,
    fg: Flowgraph,
    radio: RadioView,
)
    requires
        g.compiled(units, fg, radio),
    ensures
        links(fg).len() == g.connections.len(),
        forall|c: int|
            0 <= c < g.connections.len() ==> links(fg).count(
                #[trigger] g.wire(radio.blocks, units, c),
            ) >= 1,
        forall|link: (usize, usize, usize, usize)|
            links(fg).count(link) > 0 ==> exists|c: int|
                0 <= c < g.connections.len() && g.wire(radio.blocks, units, c) == link,
{
    let wires = g.wiring(radio.blocks, units);
    wires.to_multiset_ensures();
    assert forall|c: int| 0 <= c < g.connections.len() implies links(fg).count(
        #[trigger] g.wire(radio.blocks, units, c),
    ) >= 1 by {
        assert(wires[c] == g.wire(radio.blocks, units, c));
        assert(wires.contains(wires[c]));
    }
    assert forall|link: (usize, usize, usize, usize)| links(fg).count(link) > 0 implies exists|
        c: int,
    | 0 <= c < g.connections.len() && g.wire(radio.blocks, units, c) == link by {
        assert(wires.contains(link));
        let c = choose|c: int| 0 <= c < wires.len() && wires[c] == link;
        assert(0 <= c < g.connections.len() && g.wire(radio.blocks, units, c) == link);
    }
}

/// An update of a field that is not live does nothing: after compiling, a
/// change of a field under which the node holds no constant that may be
/// changed live leads to no message call, whatever the value.
pub proof fn lemma_update_of_fixed_field_is_noop(
    g: GraphView,
    units: Seq<Block>,
    fg: Flowgraph,
    radio: RadioView,
    node: NodeId,
    field: Seq<char>,
    value: ScalarValue,
)
    requires
        g.compiled(units, fg, radio),
        !(node.0 < g.nodes.len() && g.live(node.0 as int, field)),
    ensures
        radio.call_for(node, field, value) is None,
{
}

/// An update of a live field is one message call: after compiling, a
/// change of a field under which the node holds a live constant leads to
/// the call to the node's block, at the message input that the node's unit
/// has for the field, carrying the value and the offset of the node's kind.
pub proof fn lemma_update_of_live_field_is_one_call(
    g: GraphView,
    units: Seq<Block>,
    fg: Flowgraph,
    radio: RadioView,
    node: NodeId,
    field: Seq<char>,
    value: ScalarValue,
)
    requires
        g.compiled(units, fg, radio),
        node.0 < g.nodes.len(),
        g.live(node.0 as int, field),
    ensures
        radio.call_for(node, field, value) matches Some(call) && {
            &&& call.block_id == radio.blocks[node]
            &&& call.port_id == message_inputs(units[node.0 as int])[field]
            &&& call.value == value
            &&& call.offset == g.kind(node.0 as int).spec_live_offset(field)
        },
{
    assert(radio.ports.contains_key((node, field)));
    assert(radio.blocks.contains_key(node));
    let port = radio.ports[(node, field)];
}

/// What the widget of a declared live scalar reports is routed: after
/// compiling, on a node whose inputs are the declared ones, the node and
/// the name that a live constant stores, to which its widget addresses a
/// change, are a key of the index, so that the change is one message call
/// to the node's block.
pub proof fn lemma_declared_report_is_one_call(
    g: GraphView,
    units: Seq<Block>,
    fg: Flowgraph,
    radio: RadioView,
    n: int,
    k: int,
    value: ScalarValue,
)
    requires
        g.compiled(units, fg, radio),
        0 <= n < g.nodes.len(),
        g.as_declared(n),
        0 <= k < g.nodes[n].inputs@.len(),
        g.input(n, k).value.updatable(),
    ensures
        g.input(n, k).value matches ESDRValueType::Scalar { node_id, config, .. } && {
            &&& node_id.0 == n
            &&& config.name@ == g.input(n, k).name@
            &&& radio.call_for(node_id, config.name@, value) matches Some(call)
            &&& call.block_id == radio.blocks[node_id]
            &&& call.value == value
        },
{
    lemma_declared_value_names_its_input(g, n, k);
    match g.input(n, k).value {
        ESDRValueType::Scalar { node_id, config, .. } => {
            assert(g.live_at(n, config.name@, k));
            lemma_update_of_live_field_is_one_call(g, units, fg, radio, node_id, config.name@, value);
        },
        ESDRValueType::InputStream { .. } => {},
    }
}

/// After a stop request no update does anything: a pipeline that was asked
/// to stop, whether or not the engine has shut down yet, answers every
/// update with no message call.
pub proof fn lemma_update_after_stop_is_noop(
    radio: RadioView,
    node: NodeId,
    field: Seq<char>,
    value: ScalarValue,
)
    ensures
        radio.stop_requested().call_for(node, field, value) is None,
        radio.stop_requested().stop_completed().call_for(node, field, value) is None,
{
}

/// Stopping twice is stopping once: a second stop request changes nothing
/// and asks for no second termination, and a second completion changes
/// nothing either.
pub proof fn lemma_stop_is_idempotent(radio: RadioView)
    ensures
        radio.stop_requested().stop_requested() == radio.stop_requested(),
        radio.stop_requested().state != RadioState::Running,
        radio.stop_completed().stop_completed() == radio.stop_completed(),
{
}

/// The pipeline only moves forward: neither a stop request nor its
/// completion brings a pipeline back to running, and neither touches the
/// index.
pub proof fn lemma_no_way_back(radio: RadioView)
    ensures
        radio.state != RadioState::Running ==> radio.stop_requested().state
            != RadioState::Running && radio.stop_completed().state != RadioState::Running,
        radio.state == RadioState::Stopped ==> radio.stop_requested() == radio
            && radio.stop_completed() == radio,
        radio.stop_requested().blocks == radio.blocks,
        radio.stop_requested().ports == radio.ports,
        radio.stop_completed().blocks == radio.blocks,
        radio.stop_completed().ports == radio.ports,
{
}

/// The tuner is built and retuned with one offset: the offset that the plan
/// of a tuner carries is the offset that a live update of its frequency
/// carries, and both are `FREQ_OFFSET`.
pub proof fn lemma_one_frequency_offset(input: ESDRBlockInput)
    ensures
        ESDRBlockType::SoapySDR(SoapySDRBlock {  }).plan(input) matches BlockPlan::SoapySDR {
            freq_offset,
            ..
        } && freq_offset == ESDRBlockType::SoapySDR(SoapySDRBlock {  }).spec_live_offset("freq"@)
            && freq_offset == FREQ_OFFSET,
{
}

} // verus!
