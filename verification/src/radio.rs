//! The compiler, which turns a graph and its processing units into a
//! flowgraph and an index, and the bridge, which decides from that index
//! what a live update or a stop request does to the running pipeline.

use vstd::multiset::Multiset;
use vstd::prelude::*;

use futuresdr::runtime::Block;
use futuresdr::runtime::Flowgraph;

use crate::engine::add_block;
use crate::engine::can_connect;
use crate::engine::item_size;
use crate::engine::link_between;
use crate::engine::port_index;
use crate::engine::connect_stream;
use crate::engine::error_text;
use crate::engine::links;
use crate::engine::message_input_id;
use crate::engine::message_inputs;
use crate::engine::new_flowgraph;
use crate::engine::refusal_words;
use crate::engine::registered;
use crate::engine::stream_inputs;
use crate::engine::stream_outputs;
use crate::blocks::BlockPlan;
use crate::blocks::ESDRBlock;
use crate::blocks::ESDRBlockInput;
use crate::blocks::same_text;
use crate::graph::ESDRGraph;
use crate::graph::GraphView;
use crate::graph::NodeId;
use crate::validate::check_structure;
use crate::validate::lemma_sound_nodes_provide;
use crate::validate::CompileError;
use crate::validate::Fault;
use crate::value::ScalarValue;

verus! {

/// Where a running pipeline stands. It only ever moves forward.
#[derive(Clone, Copy, PartialEq, Eq, Structural, Debug)]
pub enum RadioState {
    Running,
    Stopping,
    Stopped,
}

/// Where a live update of one field goes: the message input of the unit,
/// and what is added to the value on the way.
#[derive(Clone, Copy, PartialEq, Eq, Structural, Debug)]
pub struct LivePort {
    pub port_id: usize,
    pub offset: u32,
}

/// One entry of the index of live fields.
#[derive(Debug)]
pub struct FieldPort {
    pub node: NodeId,
    pub field: String,
    pub port: LivePort,
}

/// One message call into the running engine: the value to send is `value`
/// plus `offset`, to message input `port_id` of block `block_id`.
#[derive(Clone, Copy, PartialEq, Eq, Structural, Debug)]
pub struct MessageCall {
    pub block_id: usize,
    pub port_id: usize,
    pub value: ScalarValue,
    pub offset: u32,
}

/// Why a call into the running engine failed, in the engine's words.
#[derive(Debug)]
pub enum RuntimeCallError {
    /// A live update did not reach the engine.
    CallFailed(String),
    /// The engine did not shut down cleanly.
    TerminateFailed(String),
}

/// Whether entry `i` is an entry for `key`.
pub open spec fn holds(entries: Seq<FieldPort>, key: (NodeId, Seq<char>), i: int) -> bool {
    0 <= i < entries.len() && entries[i].node == key.0 && entries[i].field@ == key.1
}

/// Whether entry `i` is the first entry for `key`.
pub open spec fn first_holds(entries: Seq<FieldPort>, key: (NodeId, Seq<char>), i: int) -> bool {
    holds(entries, key, i) && forall|j: int| 0 <= j < i ==> !holds(entries, key, j)
}

/// The index of live fields that a list of entries stands for: a key is in
/// it when some entry is for that key, and goes where the first such entry
/// says.
pub open spec fn port_map(entries: Seq<FieldPort>) -> Map<(NodeId, Seq<char>), LivePort> {
    Map::new(
        |key: (NodeId, Seq<char>)| exists|i: int| holds(entries, key, i),
        |key: (NodeId, Seq<char>)| entries[choose|i: int| first_holds(entries, key, i)].port,
    )
}

/// The index of blocks that a list of block ids stands for: the node at
/// position `n` has the `n`-th id.
pub open spec fn block_map(ids: Seq<usize>) -> Map<NodeId, usize> {
    Map::new(|id: NodeId| id.0 < ids.len(), |id: NodeId| ids[id.0 as int])
}

/// Among the entries for a key there is a first one.
pub proof fn lemma_first_entry(entries: Seq<FieldPort>, key: (NodeId, Seq<char>), i: int)
    requires
        holds(entries, key, i),
    ensures
        exists|j: int| first_holds(entries, key, j),
    decreases i,
{
    if exists|j: int| 0 <= j < i && holds(entries, key, j) {
        let j = choose|j: int| 0 <= j < i && holds(entries, key, j);
        lemma_first_entry(entries, key, j);
    } else {
        assert(first_holds(entries, key, i));
    }
}

/// The first entry for a key is the one that the index goes by.
pub proof fn lemma_port_map_first(entries: Seq<FieldPort>, key: (NodeId, Seq<char>), i: int)
    requires
        first_holds(entries, key, i),
    ensures
        port_map(entries).contains_key(key),
        port_map(entries)[key] == entries[i].port,
{
    let w = choose|w: int| first_holds(entries, key, w);
    assert(holds(entries, key, i));
    if w < i {
        assert(!holds(entries, key, w));
    } else if i < w {
        assert(!holds(entries, key, i));
    }
}

/// What a running pipeline knows: its state, the block of each node, and
/// the port of each live field.
pub struct RadioView {
    pub state: RadioState,
    pub blocks: Map<NodeId, usize>,
    pub ports: Map<(NodeId, Seq<char>), LivePort>,
}

impl RadioView {
    /// The message call that an update of `field` on `node` to `value`
    /// leads to: one call, while the pipeline runs and the field is live;
    /// none otherwise.
    pub open spec fn call_for(self, node: NodeId, field: Seq<char>, value: ScalarValue) -> Option<
        MessageCall,
    > {
        if self.state == RadioState::Running && self.ports.contains_key((node, field))
            && self.blocks.contains_key(node) {
            Some(
                MessageCall {
                    block_id: self.blocks[node],
                    port_id: self.ports[(node, field)].port_id,
                    value,
                    offset: self.ports[(node, field)].offset,
                },
            )
        } else {
            None
        }
    }

    /// The pipeline after a stop request: a running one is stopping, any
    /// other is as it was.
    pub open spec fn stop_requested(self) -> RadioView {
        if self.state == RadioState::Running {
            RadioView { state: RadioState::Stopping, ..self }
        } else {
            self
        }
    }

    /// The pipeline after the engine has shut down: a stopping one is
    /// stopped, any other is as it was.
    pub open spec fn stop_completed(self) -> RadioView {
        if self.state == RadioState::Stopping {
            RadioView { state: RadioState::Stopped, ..self }
        } else {
            self
        }
    }
}

impl GraphView {
    /// Whether the `k`-th input of node `n` is called `field` and holds a
    /// constant that may be changed live.
    pub open spec fn live_at(self, n: int, field: Seq<char>, k: int) -> bool {
        &&& 0 <= k < self.nodes[n].inputs@.len()
        &&& self.input(n, k).name@ == field
        &&& self.input(n, k).value.updatable()
    }

    /// Whether node `n` has an input called `field` that holds a constant
    /// that may be changed live.
    pub open spec fn live(self, n: int, field: Seq<char>) -> bool {
        exists|k: int| self.live_at(n, field, k)
    }

    /// Whether `block`, as the unit of node `n`, lacks the message input of
    /// the `k`-th input of the node, which is live.
    pub open spec fn unresolved_at(self, block: Block, n: int, k: int) -> bool {
        &&& 0 <= k < self.nodes[n].inputs@.len()
        &&& self.input(n, k).value.updatable()
        &&& !message_inputs(block).contains_key(self.input(n, k).name@)
    }

    /// Whether `block`, as the unit of node `n`, lacks the message input of
    /// some live field of the node.
    pub open spec fn unresolved(self, block: Block, n: int) -> bool {
        exists|k: int| self.unresolved_at(block, n, k)
    }

    /// Whether the engine refuses connection `c` between the given units:
    /// the unit of the source node has no stream output, or the unit of the
    /// sink node no stream input, of the port's name, or the two ports carry
    /// items of different sizes.
    pub open spec fn refused(self, units: Seq<Block>, c: int) -> bool {
        let outputs = stream_outputs(units[self.source_node(c)]);
        let inputs = stream_inputs(units[self.sink_node(c)]);
        !(outputs.contains_key(self.source(c).name@) && inputs.contains_key(self.sink(c).name@)
            && item_size(outputs[self.source(c).name@]) == item_size(
            inputs[self.sink(c).name@],
        ))
    }

    /// The engine's words for refusing connection `c` between the given
    /// units.
    pub open spec fn refusal(self, units: Seq<Block>, c: int) -> Seq<char> {
        refusal_words(
            stream_outputs(units[self.source_node(c)]),
            self.source(c).name@,
            stream_inputs(units[self.sink_node(c)]),
            self.sink(c).name@,
        )
    }

    /// Whether connection `c` is the first that the engine refuses between
    /// the given units.
    pub open spec fn first_refused(self, units: Seq<Block>, c: int) -> bool {
        &&& 0 <= c < self.connections.len()
        &&& self.refused(units, c)
        &&& forall|d: int| 0 <= d < c ==> !self.refused(units, d)
    }

    /// The way in which compiling the graph with the given units fails, if
    /// it does: on a fault of the graph by itself; else when the units do
    /// not match the nodes one for one; else when a unit lacks the message
    /// input of a live field; else when the engine refuses a connection.
    pub open spec fn compile_fault(self, units: Seq<Block>) -> Option<Fault> {
        if self.structural_fault() is Some {
            self.structural_fault()
        } else if units.len() != self.nodes.len() {
            Some(Fault::UnknownBlockKind)
        } else if exists|n: int| 0 <= n < self.nodes.len() && self.unresolved(units[n], n) {
            Some(Fault::MessagePortResolutionFailure)
        } else if exists|c: int| 0 <= c < self.connections.len() && self.refused(units, c) {
            Some(Fault::EngineConnectFailure)
        } else {
            None
        }
    }

    /// Connection `c` of the graph in runtime terms: the block of its
    /// source node, the index that the unit of that node has for the stream
    /// output of the name of the connection's output, the block of its sink
    /// node, and the index that the unit of that node has for the stream
    /// input of the name of the connection's input.
    pub open spec fn wire(self, blocks: Map<NodeId, usize>, units: Seq<Block>, c: int) -> (
        usize,
        usize,
        usize,
        usize,
    ) {
        (
            blocks[NodeId(self.source_node(c) as usize)],
            port_index(stream_outputs(units[self.source_node(c)])[self.source(c).name@]),
            blocks[NodeId(self.sink_node(c) as usize)],
            port_index(stream_inputs(units[self.sink_node(c)])[self.sink(c).name@]),
        )
    }

    /// The connections of the graph in runtime terms, in their order.
    pub open spec fn wiring(self, blocks: Map<NodeId, usize>, units: Seq<Block>) -> Seq<
        (usize, usize, usize, usize),
    > {
        Seq::new(self.connections.len(), |c: int| self.wire(blocks, units, c))
    }

    /// Whether `fg` and `radio` are what compiling the graph with the given
    /// units makes.
    ///
    /// The pipeline is running. Every node has a block and nothing else has,
    /// two nodes never share one, and the blocks of the nodes are exactly
    /// the blocks that the flowgraph holds, each with the stream ports of
    /// its node's unit. The flowgraph holds one connection for each
    /// connection of the graph, between the blocks of its two nodes and on
    /// the ports that the two units have for the names of the connection's
    /// output and input, and no other. The live fields are the names under
    /// which a node holds a constant that may be changed live, each with
    /// the message input that the node's unit has for it and the offset of
    /// the node's kind.
    pub open spec fn compiled(self, units: Seq<Block>, fg: Flowgraph, radio: RadioView) -> bool {
        &&& radio.state == RadioState::Running
        &&& forall|id: NodeId| radio.blocks.contains_key(id) <==> id.0 < self.nodes.len()
        &&& forall|a: NodeId, b: NodeId|
            radio.blocks.contains_key(a) && radio.blocks.contains_key(b) && a != b
                ==> radio.blocks[a] != radio.blocks[b]
        &&& forall|b: usize|
            registered(fg).contains_key(b) <==> exists|id: NodeId|
                radio.blocks.contains_key(id) && radio.blocks[id] == b
        &&& forall|id: NodeId|
            radio.blocks.contains_key(id) ==> registered(fg)[#[trigger] radio.blocks[id]] == (
                stream_inputs(units[id.0 as int]),
                stream_outputs(units[id.0 as int]),
            )
        &&& links(fg) == self.wiring(radio.blocks, units).to_multiset()
        &&& forall|id: NodeId, field: Seq<char>|
            radio.ports.contains_key((id, field)) <==> id.0 < self.nodes.len() && self.live(
                id.0 as int,
                field,
            )
        &&& forall|id: NodeId, field: Seq<char>|
            radio.ports.contains_key((id, field)) ==> #[trigger] radio.ports[(id, field)]
                == (LivePort {
                port_id: message_inputs(units[id.0 as int])[field],
                offset: self.kind(id.0 as int).spec_live_offset(field),
            })
    }
}

/// Whether an index entry is right for a node whose unit is `block`: the
/// node holds a live constant under the entry's field, and the entry goes
/// to the message input that the unit has for the field, with the offset of
/// the node's kind.
pub open spec fn sound_entry(g: GraphView, block: Block, e: FieldPort) -> bool {
    &&& e.node.0 < g.nodes.len()
    &&& g.live(e.node.0 as int, e.field@)
    &&& message_inputs(block).contains_key(e.field@)
    &&& e.port == (LivePort {
        port_id: message_inputs(block)[e.field@],
        offset: g.kind(e.node.0 as int).spec_live_offset(e.field@),
    })
}

/// Whether every live input of node `n` has an entry.
pub open spec fn covers(entries: Seq<FieldPort>, g: GraphView, node: NodeId) -> bool {
    forall|k: int|
        0 <= k < g.nodes[node.0 as int].inputs@.len() && (#[trigger] g.input(
            node.0 as int,
            k,
        )).value.updatable() ==> exists|i: int|
            holds(entries, (node, g.input(node.0 as int, k).name@), i)
}

/// Looks up, on the unit of a node, the message input of every live field
/// of the node, and appends an entry for each to the index. Returns `false`,
/// with the index in no particular state, when the unit lacks one.
fn resolve_fields(
    graph: &ESDRGraph,
    node_id: NodeId,
    block: &Block,
    entries: &mut Vec<FieldPort>,
) -> (resolved: bool)
    requires
        graph.wf(),
        node_id.0 < graph@.nodes.len(),
    ensures
        resolved == !graph@.unresolved(*block, node_id.0 as int),
        resolved ==> {
            &&& old(entries)@.len() <= final(entries)@.len()
            &&& final(entries)@.subrange(0, old(entries)@.len() as int) == old(entries)@
            &&& forall|i: int|
                old(entries)@.len() <= i < final(entries)@.len() ==> {
                    &&& (#[trigger] final(entries)@[i]).node == node_id
                    &&& sound_entry(graph@, *block, final(entries)@[i])
                }
            &&& covers(final(entries)@, graph@, node_id)
        },
{
    let ghost g = graph@;
    let ghost n = node_id.0 as int;
    let ghost before = entries@;
    let node = &graph.nodes()[node_id.0];
    let kind = node.user_data.block_type;
    let mut k: usize = 0;
    while k < node.inputs.len()
        invariant
            graph.wf(),
            g == graph@,
            n == node_id.0,
            0 <= n < g.nodes.len(),
            *node == g.nodes[n],
            kind == g.kind(n),
            k <= node.inputs@.len(),
            before.len() <= entries@.len(),
            entries@.subrange(0, before.len() as int) == before,
            forall|i: int|
                before.len() <= i < entries@.len() ==> (#[trigger] entries@[i]).node == node_id
                    && sound_entry(g, *block, entries@[i]),
            forall|j: int| 0 <= j < k ==> !g.unresolved_at(*block, n, j),
            forall|j: int|
                0 <= j < k && (#[trigger] g.input(n, j)).value.updatable() ==> exists|i: int|
                    holds(entries@, (node_id, g.input(n, j).name@), i),
        decreases node.inputs@.len() - k,
    {
        let id = node.inputs[k];
        assert(id == g.nodes[n].inputs@[k as int]);
        let input = graph.get_input(id);
        assert(*input == g.input(n, k as int));
        if input.value.allows_updates() {
            match message_input_id(block, input.name.as_str()) {
                Some(port_id) => {
                    let offset = kind.live_offset(input.name.as_str());
                    let ghost earlier = entries@;
                    entries.push(
                        FieldPort {
                            node: node_id,
                            field: input.name.clone(),
                            port: LivePort { port_id, offset },
                        },
                    );
                    proof {
                        let last = earlier.len() as int;
                        assert(g.live_at(n, input.name@, k as int));
                        assert(entries@.subrange(0, before.len() as int) =~= before);
                        assert(holds(entries@, (node_id, g.input(n, k as int).name@), last));
                        assert forall|j: int|
                            0 <= j < k && (#[trigger] g.input(n, j)).value.updatable() implies exists|
                            i: int,
                        | holds(entries@, (node_id, g.input(n, j).name@), i) by {
                            let i = choose|i: int|
                                holds(earlier, (node_id, g.input(n, j).name@), i);
                            assert(holds(entries@, (node_id, g.input(n, j).name@), i));
                        }
                    }
                },
                None => {
                    assert(g.unresolved_at(*block, n, k as int));
                    return false;
                },
            }
        }
        assert(!g.unresolved_at(*block, n, k as int));
        k = k + 1;
    }
    true
}

/// Entries for a node stay entries when the index grows at its end.
pub proof fn lemma_covers_grow(
    before: Seq<FieldPort>,
    after: Seq<FieldPort>,
    g: GraphView,
    node: NodeId,
)
    requires
        before.len() <= after.len(),
        after.subrange(0, before.len() as int) == before,
        covers(before, g, node),
    ensures
        covers(after, g, node),
{
    let n = node.0 as int;
    assert forall|k: int|
        0 <= k < g.nodes[n].inputs@.len() && (#[trigger] g.input(n, k)).value.updatable() implies exists|
        i: int,
    | holds(after, (node, g.input(n, k).name@), i) by {
        let i = choose|i: int| holds(before, (node, g.input(n, k).name@), i);
        assert(after.subrange(0, before.len() as int)[i] == after[i]);
        assert(holds(after, (node, g.input(n, k).name@), i));
    }
}

/// Compiles a graph: registers the unit of every node with a new flowgraph,
/// connects the blocks as the graph connects its nodes, and builds the
/// index that the running pipeline is steered by. `units` holds the
/// processing unit of each node, in the order of the nodes.
///
/// The graph is judged first, so a graph at fault costs the engine nothing;
/// a refusal by the engine is reported with the engine's words for the
/// first connection that it refused;
/// whenever the attempt fails, the flowgraph in the making is dropped with
/// all that was registered in it. On success the flowgraph is ready to be
/// started, and the pipeline counts as running from then on.
pub fn start(graph: &ESDRGraph, units: Vec<Block>) -> (r: Result<(Flowgraph, Radio), CompileError>)
    requires
        graph.wf(),
    ensures
        match r {
            Ok((fg, radio)) => graph@.compile_fault(units@) is None && graph@.compiled(
                units@,
                fg,
                radio@,
            ),
            Err(e) => {
                &&& graph@.compile_fault(units@) == Some(e.fault())
                &&& e matches CompileError::EngineConnectFailure(reason) ==> exists|c: int|
                    graph@.first_refused(units@, c) && reason@ == graph@.refusal(units@, c)
            },
        },
{
    let ghost g = graph@;
    let ghost all = units@;
    match check_structure(graph) {
        Ok(()) => {},
        Err(e) => {
            return Err(e);
        },
    }
    let count = graph.nodes().len();
    if units.len() != count {
        return Err(CompileError::UnknownBlockKind);
    }
    let mut rest = units;
    let mut fg = new_flowgraph();
    let mut ids: Vec<usize> = Vec::new();
    let mut entries: Vec<FieldPort> = Vec::new();
    let mut n: usize = 0;
    while n < count
        invariant
            graph.wf(),
            g == graph@,
            all == units@,
            g.structural_fault() is None,
            count == g.nodes.len(),
            all.len() == count,
            n <= count,
            rest@ == all.subrange(n as int, count as int),
            ids@.len() == n,
            links(fg) == Multiset::<(usize, usize, usize, usize)>::empty(),
            forall|b: usize|
                registered(fg).contains_key(b) <==> exists|m: int| 0 <= m < n && ids@[m] == b,
            forall|m: int|
                0 <= m < n ==> registered(fg)[#[trigger] ids@[m]] == (
                    stream_inputs(all[m]),
                    stream_outputs(all[m]),
                ),
            forall|a: int, b: int| 0 <= a < b < n ==> ids@[a] != ids@[b],
            forall|m: int| 0 <= m < n ==> !g.unresolved(all[m], m),
            forall|i: int|
                0 <= i < entries@.len() ==> (#[trigger] entries@[i]).node.0 < n && sound_entry(
                    g,
                    all[entries@[i].node.0 as int],
                    entries@[i],
                ),
            forall|id: NodeId| id.0 < n ==> covers(entries@, g, id),
        decreases count - n,
    {
        let ghost reg0 = registered(fg);
        let ghost ids0 = ids@;
        let ghost entries0 = entries@;
        let block = rest.remove(0);
        assert(block == all[n as int]);
        assert(rest@ =~= all.subrange(n + 1, count as int));
        if !resolve_fields(graph, NodeId(n), &block, &mut entries) {
            assert(g.unresolved(all[n as int], n as int));
            return Err(CompileError::MessagePortResolutionFailure);
        }
        let id = add_block(&mut fg, block);
        ids.push(id);
        proof {
            assert forall|b: usize| registered(fg).contains_key(b) <==> exists|m: int|
                0 <= m < n + 1 && ids@[m] == b by {
                if registered(fg).contains_key(b) {
                    if b == id {
                        assert(ids@[n as int] == b);
                    } else {
                        assert(reg0.contains_key(b));
                        let m = choose|m: int| 0 <= m < n && ids0[m] == b;
                        assert(ids@[m] == b);
                    }
                }
                if exists|m: int| 0 <= m < n + 1 && ids@[m] == b {
                    let m = choose|m: int| 0 <= m < n + 1 && ids@[m] == b;
                    if m < n {
                        assert(ids0[m] == b);
                        assert(reg0.contains_key(b));
                    }
                }
            }
            assert forall|m: int| 0 <= m < n + 1 implies registered(fg)[#[trigger] ids@[m]] == (
                stream_inputs(all[m]),
                stream_outputs(all[m]),
            ) by {
                if m < n {
                    assert(ids@[m] == ids0[m]);
                    assert(reg0.contains_key(ids0[m]));
                }
            }
            assert forall|a: int, b: int| 0 <= a < b < n + 1 implies ids@[a] != ids@[b] by {
                assert(ids@[a] == ids0[a]);
                assert(reg0.contains_key(ids0[a]));
                if b < n {
                    assert(ids@[b] == ids0[b]);
                }
            }
            assert forall|i: int| 0 <= i < entries@.len() implies (#[trigger] entries@[i]).node.0
                < n + 1 && sound_entry(g, all[entries@[i].node.0 as int], entries@[i]) by {
                if i < entries0.len() {
                    assert(entries@.subrange(0, entries0.len() as int)[i] == entries@[i]);
                    assert(entries@[i] == entries0[i]);
                }
            }
            assert forall|node: NodeId| node.0 < n + 1 implies covers(entries@, g, node) by {
                if node.0 < n {
                    lemma_covers_grow(entries0, entries@, g, node);
                }
            }
        }
        n = n + 1;
    }
    let drawn = graph.connections().len();
    let ghost wires = g.wiring(block_map(ids@), all);
    proof {
        let none = wires.subrange(0, 0);
        none.to_multiset_ensures();
        vstd::multiset::lemma_multiset_empty_len(none.to_multiset());
    }
    let mut c: usize = 0;
    while c < drawn
        invariant
            graph.wf(),
            g == graph@,
            all == units@,
            g.structural_fault() is None,
            count == g.nodes.len(),
            all.len() == count,
            drawn == g.connections.len(),
            c <= drawn,
            ids@.len() == count,
            wires == g.wiring(block_map(ids@), all),
            links(fg) == wires.subrange(0, c as int).to_multiset(),
            forall|b: usize|
                registered(fg).contains_key(b) <==> exists|m: int| 0 <= m < count && ids@[m] == b,
            forall|m: int|
                0 <= m < count ==> registered(fg)[#[trigger] ids@[m]] == (
                    stream_inputs(all[m]),
                    stream_outputs(all[m]),
                ),
            forall|m: int| 0 <= m < count ==> !g.unresolved(all[m], m),
            forall|d: int| 0 <= d < c ==> !g.refused(all, d),
        decreases drawn - c,
    {
        let (input_id, output_id) = graph.connections()[c];
        assert((input_id, output_id) == g.connections[c as int]);
        let input = graph.get_input(input_id);
        let output = graph.get_output(output_id);
        let src = ids[output.node.0];
        let dst = ids[input.node.0];
        proof {
            let sn = g.source_node(c as int);
            let dn = g.sink_node(c as int);
            assert(src == ids@[sn] && dst == ids@[dn]);
            assert(registered(fg).contains_key(src));
            assert(registered(fg).contains_key(dst));
            assert(wires[c as int] == link_between(
                registered(fg),
                src,
                output.name@,
                dst,
                input.name@,
            ));
            assert(can_connect(registered(fg), src, output.name@, dst, input.name@) == !g.refused(
                all,
                c as int,
            ));
        }
        match connect_stream(&mut fg, src, output.name.as_str(), dst, input.name.as_str()) {
            Ok(()) => {},
            Err(e) => {
                let reason = error_text(&e);
                assert(g.first_refused(all, c as int) && reason@ == g.refusal(all, c as int));
                return Err(CompileError::EngineConnectFailure(reason));
            },
        }
        proof {
            let done = wires.subrange(0, c as int);
            done.to_multiset_ensures();
            assert(wires.subrange(0, c + 1) =~= done.push(wires[c as int]));
        }
        c = c + 1;
    }
    let radio = Radio {
        state: RadioState::Running,
        node_id_to_block_id: ids,
        message_id_for_field: entries,
    };
    proof {
        let view = radio@;
        let list = radio.message_id_for_field@;
        let table = radio.node_id_to_block_id@;
        assert(wires.subrange(0, drawn as int) =~= wires);
        assert forall|b: usize| registered(fg).contains_key(b) <==> exists|id: NodeId|
            view.blocks.contains_key(id) && view.blocks[id] == b by {
            if registered(fg).contains_key(b) {
                let m = choose|m: int| 0 <= m < count && table[m] == b;
                let id = NodeId(m as usize);
                assert(view.blocks.contains_key(id) && view.blocks[id] == b);
            }
            if exists|id: NodeId| view.blocks.contains_key(id) && view.blocks[id] == b {
                let id = choose|id: NodeId| view.blocks.contains_key(id) && view.blocks[id] == b;
                assert(table[id.0 as int] == b);
            }
        }
        assert forall|id: NodeId| view.blocks.contains_key(id) implies registered(fg)[
        #[trigger] view.blocks[id]] == (
            stream_inputs(all[id.0 as int]),
            stream_outputs(all[id.0 as int]),
        ) by {
            assert(view.blocks[id] == table[id.0 as int]);
        }
        assert forall|id: NodeId, field: Seq<char>|
            view.ports.contains_key((id, field)) <==> id.0 < g.nodes.len() && g.live(
                id.0 as int,
                field,
            ) by {
            if view.ports.contains_key((id, field)) {
                let i = choose|i: int| holds(list, (id, field), i);
                assert(sound_entry(g, all[list[i].node.0 as int], list[i]));
            }
            if id.0 < g.nodes.len() && g.live(id.0 as int, field) {
                let k = choose|k: int| g.live_at(id.0 as int, field, k);
                assert(covers(list, g, id));
                assert(g.input(id.0 as int, k).value.updatable());
                let i = choose|i: int| holds(list, (id, g.input(id.0 as int, k).name@), i);
                assert(holds(list, (id, field), i));
            }
        }
        assert forall|id: NodeId, field: Seq<char>|
            view.ports.contains_key((id, field)) implies #[trigger] view.ports[(id, field)] == (
            LivePort {
                port_id: message_inputs(all[id.0 as int])[field],
                offset: g.kind(id.0 as int).spec_live_offset(field),
            }) by {
            let i = choose|i: int| holds(list, (id, field), i);
            lemma_first_entry(list, (id, field), i);
            let w = choose|w: int| first_holds(list, (id, field), w);
            lemma_port_map_first(list, (id, field), w);
            assert(sound_entry(g, all[list[w].node.0 as int], list[w]));
        }
    }
    Ok((fg, radio))
}

/// What a running pipeline knows and where it stands.
///
/// Both indexes are lists. A node's handle is its position, so the block of
/// a node stands at that position; the live fields are few and their keys
/// hold a name, so they are kept in the order in which they were found and
/// looked up by comparing node and name.
#[derive(Debug)]
pub struct Radio {
    state: RadioState,
    node_id_to_block_id: Vec<usize>,
    message_id_for_field: Vec<FieldPort>,
}

impl View for Radio {
    type V = RadioView;

    closed spec fn view(&self) -> RadioView {
        RadioView {
            state: self.state,
            blocks: block_map(self.node_id_to_block_id@),
            ports: port_map(self.message_id_for_field@),
        }
    }
}

impl Radio {
    /// Where the pipeline stands.
    pub fn state(&self) -> (r: RadioState)
        ensures
            r == self@.state,
    {
        self.state
    }

    /// The number of nodes that were compiled: each has one block.
    pub fn block_count(&self) -> (r: usize)
        ensures
            forall|id: NodeId| self@.blocks.contains_key(id) <==> id.0 < r,
    {
        self.node_id_to_block_id.len()
    }

    /// The block that a node was registered as, if the node was compiled.
    pub fn block_id(&self, node_id: NodeId) -> (r: Option<usize>)
        ensures
            r == if self@.blocks.contains_key(node_id) {
                Some(self@.blocks[node_id])
            } else {
                None
            },
    {
        if node_id.0 < self.node_id_to_block_id.len() {
            Some(self.node_id_to_block_id[node_id.0])
        } else {
            None
        }
    }

    /// Where a live update of `field` on a node goes, if the field is live.
    pub fn live_port(&self, node_id: NodeId, field: &str) -> (r: Option<LivePort>)
        ensures
            r == if self@.ports.contains_key((node_id, field@)) {
                Some(self@.ports[(node_id, field@)])
            } else {
                None
            },
    {
        let ghost key = (node_id, field@);
        let ghost list = self.message_id_for_field@;
        let mut i: usize = 0;
        while i < self.message_id_for_field.len()
            invariant
                list == self.message_id_for_field@,
                key == (node_id, field@),
                i <= list.len(),
                forall|j: int| 0 <= j < i ==> !holds(list, key, j),
            decreases list.len() - i,
        {
            let entry = &self.message_id_for_field[i];
            if entry.node == node_id && same_text(entry.field.as_str(), field) {
                proof {
                    assert(first_holds(list, key, i as int));
                    lemma_port_map_first(list, key, i as int);
                }
                return Some(entry.port);
            }
            i = i + 1;
        }
        None
    }

    /// Decides what a change of `field` on a node to `value` does to the
    /// pipeline. While the pipeline runs and the field is live, it is one
    /// message call, to the block of the node and the message input of the
    /// field, with the value as given and the field's offset beside it. In
    /// every other case (the field is not live, the node is not known, the
    /// pipeline is stopping or stopped) nothing is to be done, and that is
    /// no error. The pipeline itself is never changed.
    pub fn update_scalar(&mut self, node_id: NodeId, field: &str, value: ScalarValue) -> (r:
        Option<MessageCall>)
        ensures
            final(self)@ == old(self)@,
            r == old(self)@.call_for(node_id, field@, value),
    {
        if self.state != RadioState::Running {
            return None;
        }
        let port = match self.live_port(node_id, field) {
            Some(port) => port,
            None => {
                return None;
            },
        };
        let block_id = match self.block_id(node_id) {
            Some(block_id) => block_id,
            None => {
                return None;
            },
        };
        Some(MessageCall { block_id, port_id: port.port_id, value, offset: port.offset })
    }

    /// Takes note of how a message call ended. A call that failed is
    /// reported with the engine's words; the pipeline stays as it is either
    /// way.
    pub fn update_done(&self, outcome: Result<(), String>) -> (r: Result<(), RuntimeCallError>)
        ensures
            match outcome {
                Ok(()) => r is Ok,
                Err(text) => r matches Err(RuntimeCallError::CallFailed(reason)) && reason@
                    == text@,
            },
    {
        match outcome {
            Ok(()) => Ok(()),
            Err(text) => Err(RuntimeCallError::CallFailed(text)),
        }
    }

    /// Asks the pipeline to stop. A running pipeline becomes a stopping one
    /// and `true` is returned: the engine is to be terminated and its task
    /// awaited, once. A pipeline that is stopping or stopped stays as it is
    /// and `false` is returned: nothing is to be done.
    pub fn stop(&mut self) -> (terminate: bool)
        ensures
            final(self)@ == old(self)@.stop_requested(),
            terminate == (old(self)@.state == RadioState::Running),
    {
        if self.state == RadioState::Running {
            self.state = RadioState::Stopping;
            true
        } else {
            false
        }
    }

    /// Takes note that the engine has shut down. A stopping pipeline
    /// becomes a stopped one, however the shutdown went; a shutdown that
    /// failed is reported with the engine's words. A pipeline that was not
    /// stopping stays as it is, and nothing is reported.
    pub fn stopped(&mut self, outcome: Result<(), String>) -> (r: Result<(), RuntimeCallError>)
        ensures
            final(self)@ == old(self)@.stop_completed(),
            match outcome {
                Err(text) if old(self)@.state == RadioState::Stopping => r matches Err(
                    RuntimeCallError::TerminateFailed(reason),
                ) && reason@ == text@,
                _ => r is Ok,
            },
    {
        if self.state == RadioState::Stopping {
            self.state = RadioState::Stopped;
            match outcome {
                Ok(()) => Ok(()),
                Err(text) => Err(RuntimeCallError::TerminateFailed(text)),
            }
        } else {
            Ok(())
        }
    }
}

/// Works out what the factory is to build for every node, in the order of
/// the nodes. The graph is judged first: for a graph at fault no plan is
/// made, so no unit is built.
pub fn plans(graph: &ESDRGraph) -> (r: Result<Vec<BlockPlan>, CompileError>)
    requires
        graph.wf(),
    ensures
        match r {
            Ok(list) => {
                &&& graph@.structural_fault() is None
                &&& list@.len() == graph@.nodes.len()
                &&& forall|n: int|
                    0 <= n < list@.len() ==> #[trigger] list@[n] == graph@.kind(n).plan(
                        ESDRBlockInput { graph, node: &graph@.nodes[n] },
                    )
            },
            Err(e) => graph@.structural_fault() == Some(e.fault()),
        },
{
    match check_structure(graph) {
        Ok(()) => {},
        Err(e) => {
            return Err(e);
        },
    }
    let nodes = graph.nodes();
    let mut list: Vec<BlockPlan> = Vec::new();
    let mut n: usize = 0;
    while n < nodes.len()
        invariant
            graph.wf(),
            graph@.structural_fault() is None,
            nodes@ == graph@.nodes,
            n <= nodes@.len(),
            list@.len() == n,
            forall|m: int|
                0 <= m < n ==> #[trigger] list@[m] == graph@.kind(m).plan(
                    ESDRBlockInput { graph, node: &graph@.nodes[m] },
                ),
        decreases nodes@.len() - n,
    {
        let node = &nodes[n];
        let input = ESDRBlockInput::new(graph, node);
        proof {
            lemma_sound_nodes_provide(graph, n as int);
            assert(node.id.0 == n);
        }
        let plan = node.user_data.block_type.block(input);
        list.push(plan);
        n = n + 1;
    }
    Ok(list)
}

} // verus!
