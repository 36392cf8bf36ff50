//! The graph that the editor builds: nodes, their ports, and the connections
//! between ports.
//!
//! The graph records what was drawn, not what makes sense. References inside
//! it always resolve (that is its invariant), but a node may lack a port that
//! its kind declares, a constant may sit where a stream belongs, and an input
//! may be fed twice. Judging that is the compiler's work.

use vstd::prelude::*;

use crate::blocks::ESDRBlockType;
use crate::params::scalar_input;
use crate::params::stream_input;
use crate::params::Direction;
use crate::params::ESDRDataType;
use crate::params::InputStream;
use crate::params::PortDescriptor;
use crate::params::ScalarParam;
use crate::value::ScalarValue;

verus! {

/// Handle of a node: its position in the graph.
#[derive(Clone, Copy, PartialEq, Eq, Structural, Debug, Hash)]
pub struct NodeId(pub usize);

/// Handle of an input port: its position in the graph.
#[derive(Clone, Copy, PartialEq, Eq, Structural, Debug, Hash)]
pub struct InputId(pub usize);

/// Handle of an output port: its position in the graph.
#[derive(Clone, Copy, PartialEq, Eq, Structural, Debug, Hash)]
pub struct OutputId(pub usize);

/// How an input may be satisfied: by a connection, or by a constant.
#[derive(Clone, Copy, PartialEq, Eq, Structural, Debug)]
pub enum InputParamKind {
    ConnectionOnly,
    ConstantOnly,
}

/// What an input currently holds.
#[allow(inconsistent_fields)]
#[derive(Debug)]
pub enum ESDRValueType {
    /// Nothing of its own: the input waits for a connection.
    InputStream { node_id: NodeId, config: InputStream },
    /// A constant, with the declaration it was made from.
    Scalar { node_id: NodeId, value: ScalarValue, config: ScalarParam },
}

impl ESDRValueType {
    /// The constant held, if there is one.
    pub open spec fn constant(self) -> Option<ScalarValue> {
        match self {
            ESDRValueType::Scalar { value, .. } => Some(value),
            ESDRValueType::InputStream { .. } => None,
        }
    }

    /// Whether this is a constant that may be changed while the pipeline
    /// runs.
    pub open spec fn updatable(self) -> bool {
        match self {
            ESDRValueType::Scalar { config, .. } => config.allow_updates,
            ESDRValueType::InputStream { .. } => false,
        }
    }

    /// Computes whether this is a constant that may be changed live.
    pub fn allows_updates(&self) -> (r: bool)
        ensures
            r == self.updatable(),
    {
        match self {
            ESDRValueType::Scalar { config, .. } => config.allow_updates,
            ESDRValueType::InputStream { .. } => false,
        }
    }
}

/// `uuid::Uuid`: a 128-bit identifier.
#[verifier::external_type_specification]
#[verifier::external_body]
pub struct ExUuid(uuid::Uuid);

/// `Uuid::new_v4`: an identifier drawn at random. Nothing is claimed of it.
#[verifier::external_body]
pub(crate) fn fresh_uuid() -> uuid::Uuid {
    uuid::Uuid::new_v4()
}

/// What the editor attaches to a node: an identifier of its own, and the
/// kind it was made from.
#[derive(Clone, Copy, Debug)]
pub struct ESDRNodeData {
    pub uuid: uuid::Uuid,
    pub block_type: ESDRBlockType,
}

/// An input port of a node.
#[derive(Debug)]
pub struct InputParam {
    pub id: InputId,
    pub name: String,
    pub typ: ESDRDataType,
    pub value: ESDRValueType,
    pub kind: InputParamKind,
    pub node: NodeId,
    pub shown_inline: bool,
}

impl InputParam {
    /// The declaration that this input, as it stands, answers to: its
    /// name, that it is an input, whether it holds a constant, the constant
    /// it holds and whether that may be changed live. The input's handle,
    /// its node and what is kept beside the constant are no part of it.
    pub open spec fn descriptor(self) -> PortDescriptor {
        match self.value {
            ESDRValueType::Scalar { value, config, .. } => scalar_input(
                self.name@,
                value.bits,
                config.allow_updates,
            ),
            ESDRValueType::InputStream { .. } => stream_input(self.name@),
        }
    }

    /// Whether what this input holds remembers its node and the
    /// declaration `d`: the node stored in the value is the input's own
    /// node, and the declaration kept in it is `d`, with its name, its
    /// default and whether it may be changed live.
    pub open spec fn remembers(self, d: PortDescriptor) -> bool {
        match self.value {
            ESDRValueType::Scalar { node_id, config, .. } => node_id == self.node && config@ == d,
            ESDRValueType::InputStream { node_id, config } => node_id == self.node && config@
                == d,
        }
    }

    /// Whether this input is what the declaration `d` makes: it holds the
    /// declared default, carries the declared type, takes a constant
    /// exactly when the declaration is of a scalar, is shown inline, and
    /// what it holds remembers its node and the declaration.
    pub open spec fn declared_as(self, d: PortDescriptor) -> bool {
        &&& self.descriptor() == d
        &&& self.typ == d.kind
        &&& self.kind == if d.kind == ESDRDataType::Scalar {
            InputParamKind::ConstantOnly
        } else {
            InputParamKind::ConnectionOnly
        }
        &&& self.shown_inline
        &&& self.remembers(d)
    }
}

/// An output port of a node.
#[derive(Debug)]
pub struct OutputParam {
    pub id: OutputId,
    pub name: String,
    pub node: NodeId,
    pub typ: ESDRDataType,
}

/// A node: one instance of a block kind, with its ports in the order in
/// which they were added.
#[derive(Debug)]
pub struct Node {
    pub id: NodeId,
    pub label: String,
    pub inputs: Vec<InputId>,
    pub outputs: Vec<OutputId>,
    pub user_data: ESDRNodeData,
}

/// The content of a graph.
pub struct GraphView {
    pub nodes: Seq<Node>,
    pub inputs: Seq<InputParam>,
    pub outputs: Seq<OutputParam>,
    /// Each connection feeds the input from the output.
    pub connections: Seq<(InputId, OutputId)>,
}

impl GraphView {
    /// Every handle names the position it stands at, and every reference
    /// from a node to a port, from a port to its node and from a connection
    /// to its two ends resolves.
    pub open spec fn well_formed(self) -> bool {
        &&& forall|n: int| 0 <= n < self.nodes.len() ==> (#[trigger] self.nodes[n]).id.0 == n
        &&& forall|i: int|
            0 <= i < self.inputs.len() ==> (#[trigger] self.inputs[i]).id.0 == i
                && self.inputs[i].node.0 < self.nodes.len()
        &&& forall|o: int|
            0 <= o < self.outputs.len() ==> (#[trigger] self.outputs[o]).id.0 == o
                && self.outputs[o].node.0 < self.nodes.len()
        &&& forall|n: int, k: int|
            0 <= n < self.nodes.len() && 0 <= k < self.nodes[n].inputs@.len() ==> {
                let id = #[trigger] self.nodes[n].inputs@[k];
                id.0 < self.inputs.len() && self.inputs[id.0 as int].node.0 == n
            }
        &&& forall|n: int, k: int|
            0 <= n < self.nodes.len() && 0 <= k < self.nodes[n].outputs@.len() ==> {
                let id = #[trigger] self.nodes[n].outputs@[k];
                id.0 < self.outputs.len() && self.outputs[id.0 as int].node.0 == n
            }
        &&& forall|c: int|
            0 <= c < self.connections.len() ==> (#[trigger] self.connections[c]).0.0
                < self.inputs.len() && self.connections[c].1.0 < self.outputs.len()
    }

    /// The kind of node `n`.
    pub open spec fn kind(self, n: int) -> ESDRBlockType {
        self.nodes[n].user_data.block_type
    }

    /// The `k`-th input of node `n`.
    pub open spec fn input(self, n: int, k: int) -> InputParam {
        self.inputs[self.nodes[n].inputs@[k].0 as int]
    }

    /// Whether the `k`-th input of node `n` is the first one called `name`.
    pub open spec fn is_input_named(self, n: int, name: Seq<char>, k: int) -> bool {
        &&& 0 <= k < self.nodes[n].inputs@.len()
        &&& self.input(n, k).name@ == name
        &&& forall|j: int| 0 <= j < k ==> (#[trigger] self.input(n, j)).name@ != name
    }

    /// The first input of node `n` called `name`, if the node has one.
    pub open spec fn input_named(self, n: int, name: Seq<char>) -> Option<InputParam> {
        if exists|k: int| self.is_input_named(n, name, k) {
            Some(self.input(n, choose|k: int| self.is_input_named(n, name, k)))
        } else {
            None
        }
    }

    /// The constant that node `n` holds under `name`, if its first input of
    /// that name holds one.
    pub open spec fn scalar(self, n: int, name: Seq<char>) -> Option<ScalarValue> {
        match self.input_named(n, name) {
            Some(p) => p.value.constant(),
            None => None,
        }
    }

    /// Whether `after` is this graph with one more port on node `n`, made
    /// from the declaration `d`: an input that holds the declared default
    /// and remembers the node and the declaration, or an output.
    pub open spec fn extended_by(self, after: GraphView, n: int, d: PortDescriptor) -> bool {
        &&& after.nodes.len() == self.nodes.len()
        &&& forall|m: int| 0 <= m < self.nodes.len() && m != n ==> after.nodes[m] == self.nodes[m]
        &&& after.nodes[n].id == self.nodes[n].id
        &&& after.nodes[n].label == self.nodes[n].label
        &&& after.nodes[n].user_data == self.nodes[n].user_data
        &&& after.connections == self.connections
        &&& if d.direction == Direction::Input {
            let had = self.nodes[n].inputs@.len() as int;
            let first = self.inputs.len() as int;
            &&& after.outputs == self.outputs
            &&& after.nodes[n].outputs@ == self.nodes[n].outputs@
            &&& after.inputs.len() == first + 1
            &&& after.inputs.subrange(0, first) == self.inputs
            &&& after.nodes[n].inputs@.len() == had + 1
            &&& after.nodes[n].inputs@.subrange(0, had) == self.nodes[n].inputs@
            &&& after.nodes[n].inputs@[had].0 == first
            &&& after.inputs[first].node.0 == n
            &&& after.inputs[first].declared_as(d)
        } else {
            let had = self.nodes[n].outputs@.len() as int;
            let first = self.outputs.len() as int;
            &&& after.inputs == self.inputs
            &&& after.nodes[n].inputs@ == self.nodes[n].inputs@
            &&& after.outputs.len() == first + 1
            &&& after.outputs.subrange(0, first) == self.outputs
            &&& after.nodes[n].outputs@.len() == had + 1
            &&& after.nodes[n].outputs@.subrange(0, had) == self.nodes[n].outputs@
            &&& after.nodes[n].outputs@[had].0 == first
            &&& after.outputs[first].node.0 == n
            &&& after.outputs[first].name@ == d.name
            &&& after.outputs[first].typ == d.kind
        }
    }

    /// Whether `after` is this graph with more ports on node `n`: one for
    /// each declaration in `ports`, the inputs in their order behind the
    /// inputs the node had, the outputs in theirs behind its outputs, each
    /// port belonging to the node, and each input holding its declared
    /// default and remembering the node and its declaration. Nothing else
    /// differs.
    pub open spec fn grown_by(self, after: GraphView, n: int, ports: Seq<PortDescriptor>) -> bool {
        let ins = ports_toward(ports, Direction::Input);
        let outs = ports_toward(ports, Direction::Output);
        let had_ins = self.nodes[n].inputs@.len() as int;
        let had_outs = self.nodes[n].outputs@.len() as int;
        let first_in = self.inputs.len() as int;
        let first_out = self.outputs.len() as int;
        &&& after.nodes.len() == self.nodes.len()
        &&& forall|m: int| 0 <= m < self.nodes.len() && m != n ==> after.nodes[m] == self.nodes[m]
        &&& after.nodes[n].id == self.nodes[n].id
        &&& after.nodes[n].label == self.nodes[n].label
        &&& after.nodes[n].user_data == self.nodes[n].user_data
        &&& after.connections == self.connections
        &&& after.inputs.len() == first_in + ins.len()
        &&& after.inputs.subrange(0, first_in) == self.inputs
        &&& after.outputs.len() == first_out + outs.len()
        &&& after.outputs.subrange(0, first_out) == self.outputs
        &&& after.nodes[n].inputs@.len() == had_ins + ins.len()
        &&& after.nodes[n].inputs@.subrange(0, had_ins) == self.nodes[n].inputs@
        &&& after.nodes[n].outputs@.len() == had_outs + outs.len()
        &&& after.nodes[n].outputs@.subrange(0, had_outs) == self.nodes[n].outputs@
        &&& forall|p: int|
            had_ins <= p < after.nodes[n].inputs@.len() ==> (#[trigger] after.nodes[n].inputs@[p]).0
                == first_in + (p - had_ins)
        &&& forall|i: int|
            first_in <= i < after.inputs.len() ==> (#[trigger] after.inputs[i]).node.0 == n
                && after.inputs[i].declared_as(ins[i - first_in])
        &&& forall|p: int|
            had_outs <= p < after.nodes[n].outputs@.len() ==> (
            #[trigger] after.nodes[n].outputs@[p]).0 == first_out + (p - had_outs)
        &&& forall|o: int|
            first_out <= o < after.outputs.len() ==> {
                &&& (#[trigger] after.outputs[o]).node.0 == n
                &&& after.outputs[o].name@ == outs[o - first_out].name
                &&& after.outputs[o].typ == outs[o - first_out].kind
            }
    }

    /// This graph without its connection `c`.
    pub open spec fn without_connection(self, c: int) -> GraphView {
        GraphView { connections: self.connections.remove(c), ..self }
    }

    /// The node that the input of connection `c` belongs to.
    pub open spec fn sink_node(self, c: int) -> int {
        self.inputs[self.connections[c].0.0 as int].node.0 as int
    }

    /// The node that the output of connection `c` belongs to.
    pub open spec fn source_node(self, c: int) -> int {
        self.outputs[self.connections[c].1.0 as int].node.0 as int
    }

    /// The input that connection `c` feeds.
    pub open spec fn sink(self, c: int) -> InputParam {
        self.inputs[self.connections[c].0.0 as int]
    }

    /// The output that connection `c` reads.
    pub open spec fn source(self, c: int) -> OutputParam {
        self.outputs[self.connections[c].1.0 as int]
    }
}

/// The declarations in `ports` that point in `direction`, in their order.
pub open spec fn ports_toward(ports: Seq<PortDescriptor>, direction: Direction) -> Seq<
    PortDescriptor,
>
    decreases ports.len(),
{
    if ports.len() == 0 {
        Seq::empty()
    } else if ports.last().direction == direction {
        ports_toward(ports.drop_last(), direction).push(ports.last())
    } else {
        ports_toward(ports.drop_last(), direction)
    }
}

/// Adding one more declared port to a node that has grown by the first `j`
/// declarations of a list makes it a node grown by the first `j + 1`.
pub proof fn lemma_grown_by_one_more(
    g0: GraphView,
    g1: GraphView,
    g2: GraphView,
    n: int,
    ports: Seq<PortDescriptor>,
    j: int,
)
    requires
        0 <= n < g0.nodes.len(),
        0 <= j < ports.len(),
        g0.grown_by(g1, n, ports.take(j)),
        g1.extended_by(g2, n, ports[j]),
    ensures
        g0.grown_by(g2, n, ports.take(j + 1)),
{
    let done = ports.take(j);
    let more = ports.take(j + 1);
    assert(more.drop_last() =~= done);
    assert(more.last() == ports[j]);
    let had_ins = g0.nodes[n].inputs@.len() as int;
    let had_outs = g0.nodes[n].outputs@.len() as int;
    let first_in = g0.inputs.len() as int;
    let first_out = g0.outputs.len() as int;
    let ins1 = ports_toward(done, Direction::Input);
    let outs1 = ports_toward(done, Direction::Output);
    let ins2 = ports_toward(more, Direction::Input);
    let outs2 = ports_toward(more, Direction::Output);
    let node1 = g1.nodes[n];
    let node2 = g2.nodes[n];
    assert forall|m: int| 0 <= m < g0.nodes.len() && m != n implies g2.nodes[m] == g0.nodes[m] by {
        assert(g1.nodes[m] == g0.nodes[m]);
    }
    assert forall|i: int| 0 <= i < g1.inputs.len() implies g2.inputs[i] == g1.inputs[i] by {
        if ports[j].direction == Direction::Input {
            assert(g2.inputs.subrange(0, g1.inputs.len() as int)[i] == g2.inputs[i]);
        }
    }
    assert forall|o: int| 0 <= o < g1.outputs.len() implies g2.outputs[o] == g1.outputs[o] by {
        if ports[j].direction != Direction::Input {
            assert(g2.outputs.subrange(0, g1.outputs.len() as int)[o] == g2.outputs[o]);
        }
    }
    assert forall|p: int| 0 <= p < node1.inputs@.len() implies node2.inputs@[p]
        == node1.inputs@[p] by {
        if ports[j].direction == Direction::Input {
            assert(node2.inputs@.subrange(0, node1.inputs@.len() as int)[p] == node2.inputs@[p]);
        }
    }
    assert forall|p: int| 0 <= p < node1.outputs@.len() implies node2.outputs@[p]
        == node1.outputs@[p] by {
        if ports[j].direction != Direction::Input {
            assert(node2.outputs@.subrange(0, node1.outputs@.len() as int)[p]
                == node2.outputs@[p]);
        }
    }
    assert(g2.inputs.subrange(0, first_in) =~= g0.inputs) by {
        assert forall|i: int| 0 <= i < first_in implies g2.inputs[i] == g0.inputs[i] by {
            assert(g1.inputs.subrange(0, first_in)[i] == g1.inputs[i]);
        }
    }
    assert(g2.outputs.subrange(0, first_out) =~= g0.outputs) by {
        assert forall|o: int| 0 <= o < first_out implies g2.outputs[o] == g0.outputs[o] by {
            assert(g1.outputs.subrange(0, first_out)[o] == g1.outputs[o]);
        }
    }
    assert(node2.inputs@.subrange(0, had_ins) =~= g0.nodes[n].inputs@) by {
        assert forall|p: int| 0 <= p < had_ins implies node2.inputs@[p]
            == g0.nodes[n].inputs@[p] by {
            assert(node1.inputs@.subrange(0, had_ins)[p] == node1.inputs@[p]);
        }
    }
    assert(node2.outputs@.subrange(0, had_outs) =~= g0.nodes[n].outputs@) by {
        assert forall|p: int| 0 <= p < had_outs implies node2.outputs@[p]
            == g0.nodes[n].outputs@[p] by {
            assert(node1.outputs@.subrange(0, had_outs)[p] == node1.outputs@[p]);
        }
    }
    if ports[j].direction == Direction::Input {
        assert(ins2 == ins1.push(ports[j]));
        assert(outs2 == outs1);
    } else {
        assert(outs2 == outs1.push(ports[j]));
        assert(ins2 == ins1);
    }
    assert forall|p: int| had_ins <= p < node2.inputs@.len() implies (#[trigger] node2.inputs@[p]).0
        == first_in + (p - had_ins) by {
        if p < node1.inputs@.len() {
            assert(node1.inputs@[p].0 == first_in + (p - had_ins));
        }
    }
    assert forall|i: int| first_in <= i < g2.inputs.len() implies (#[trigger] g2.inputs[i]).node.0
        == n && g2.inputs[i].declared_as(ins2[i - first_in]) by {
        if i < g1.inputs.len() {
            assert(g1.inputs[i].declared_as(ins1[i - first_in]));
        }
    }
    assert forall|p: int| had_outs <= p < node2.outputs@.len() implies (
    #[trigger] node2.outputs@[p]).0 == first_out + (p - had_outs) by {
        if p < node1.outputs@.len() {
            assert(node1.outputs@[p].0 == first_out + (p - had_outs));
        }
    }
    assert forall|o: int| first_out <= o < g2.outputs.len() implies {
        &&& (#[trigger] g2.outputs[o]).node.0 == n
        &&& g2.outputs[o].name@ == outs2[o - first_out].name
        &&& g2.outputs[o].typ == outs2[o - first_out].kind
    } by {
        if o < g1.outputs.len() {
            assert(g1.outputs[o].name@ == outs1[o - first_out].name);
        }
    }
}

/// If the `k`-th input of a node is the first one called `name`, it is the
/// input that the name stands for.
pub proof fn lemma_input_named(g: GraphView, n: int, name: Seq<char>, k: int)
    requires
        g.is_input_named(n, name, k),
    ensures
        g.input_named(n, name) == Some(g.input(n, k)),
{
    let w = choose|w: int| g.is_input_named(n, name, w);
    if w < k {
        assert(g.input(n, w).name@ != name);
    } else if k < w {
        assert(g.input(n, k).name@ != name);
    }
}

/// Which input a name stands for on a node depends on the nodes and the
/// inputs of the graph alone.
pub proof fn lemma_input_named_by_nodes_and_inputs(
    g: GraphView,
    h: GraphView,
    n: int,
    name: Seq<char>,
)
    requires
        g.nodes == h.nodes,
        g.inputs == h.inputs,
    ensures
        g.input_named(n, name) == h.input_named(n, name),
{
    assert forall|k: int| g.is_input_named(n, name, k) == h.is_input_named(n, name, k) by {
        assert(g.input(n, k) == h.input(n, k));
        if g.is_input_named(n, name, k) {
            assert forall|j: int| 0 <= j < k implies (#[trigger] h.input(n, j)).name@ != name by {
                assert(g.input(n, j) == h.input(n, j));
            }
        }
        if h.is_input_named(n, name, k) {
            assert forall|j: int| 0 <= j < k implies (#[trigger] g.input(n, j)).name@ != name by {
                assert(g.input(n, j) == h.input(n, j));
            }
        }
    }
    if exists|k: int| g.is_input_named(n, name, k) {
        let k = choose|k: int| g.is_input_named(n, name, k);
        assert(h.is_input_named(n, name, k));
        lemma_input_named(g, n, name, k);
        lemma_input_named(h, n, name, k);
        assert(g.input(n, k) == h.input(n, k));
    } else {
        assert forall|k: int| !h.is_input_named(n, name, k) by {
            assert(!g.is_input_named(n, name, k));
        }
    }
}

/// If no input of a node is called `name`, the name stands for none.
pub proof fn lemma_no_input_named(g: GraphView, n: int, name: Seq<char>)
    requires
        forall|k: int|
            0 <= k < g.nodes[n].inputs@.len() ==> (#[trigger] g.input(n, k)).name@ != name,
    ensures
        g.input_named(n, name) is None,
{
}

/// The editable graph.
#[derive(Debug)]
pub struct ESDRGraph {
    nodes: Vec<Node>,
    inputs: Vec<InputParam>,
    outputs: Vec<OutputParam>,
    connections: Vec<(InputId, OutputId)>,
}

impl View for ESDRGraph {
    type V = GraphView;

    closed spec fn view(&self) -> GraphView {
        GraphView {
            nodes: self.nodes@,
            inputs: self.inputs@,
            outputs: self.outputs@,
            connections: self.connections@,
        }
    }
}

impl ESDRGraph {
    /// The invariant of the graph: its content is well formed.
    pub open spec fn wf(&self) -> bool {
        self@.well_formed()
    }

    /// The empty graph.
    pub fn new() -> (g: ESDRGraph)
        ensures
            g.wf(),
            g@.nodes.len() == 0,
            g@.inputs.len() == 0,
            g@.outputs.len() == 0,
            g@.connections.len() == 0,
    {
        ESDRGraph {
            nodes: Vec::new(),
            inputs: Vec::new(),
            outputs: Vec::new(),
            connections: Vec::new(),
        }
    }

    /// The nodes, in the order in which they were added.
    pub fn nodes(&self) -> (r: &Vec<Node>)
        ensures
            r@ == self@.nodes,
    {
        &self.nodes
    }

    /// The connections, in the order in which they were drawn.
    pub fn connections(&self) -> (r: &Vec<(InputId, OutputId)>)
        ensures
            r@ == self@.connections,
    {
        &self.connections
    }

    /// The number of input ports in the graph.
    pub fn input_count(&self) -> (r: usize)
        ensures
            r == self@.inputs.len(),
    {
        self.inputs.len()
    }

    /// The number of output ports in the graph.
    pub fn output_count(&self) -> (r: usize)
        ensures
            r == self@.outputs.len(),
    {
        self.outputs.len()
    }

    /// The input port behind a handle of this graph.
    pub fn get_input(&self, id: InputId) -> (r: &InputParam)
        requires
            id.0 < self@.inputs.len(),
        ensures
            *r == self@.inputs[id.0 as int],
    {
        &self.inputs[id.0]
    }

    /// The output port behind a handle of this graph.
    pub fn get_output(&self, id: OutputId) -> (r: &OutputParam)
        requires
            id.0 < self@.outputs.len(),
        ensures
            *r == self@.outputs[id.0 as int],
    {
        &self.outputs[id.0]
    }

    /// Finds the first input of a node that is called `name`.
    pub fn find_input(&self, node_id: NodeId, name: &str) -> (r: Option<InputId>)
        requires
            self.wf(),
            node_id.0 < self@.nodes.len(),
        ensures
            match r {
                Some(id) => id.0 < self@.inputs.len() && self@.input_named(
                    node_id.0 as int,
                    name@,
                ) == Some(self@.inputs[id.0 as int]),
                None => self@.input_named(node_id.0 as int, name@) is None,
            },
    {
        let node = &self.nodes[node_id.0];
        let ghost n = node_id.0 as int;
        let mut k: usize = 0;
        while k < node.inputs.len()
            invariant
                self.wf(),
                n == node_id.0,
                0 <= n < self@.nodes.len(),
                *node == self@.nodes[n],
                k <= node.inputs@.len(),
                forall|j: int| 0 <= j < k ==> (#[trigger] self@.input(n, j)).name@ != name@,
            decreases node.inputs@.len() - k,
        {
            let id = node.inputs[k];
            assert(id == self@.nodes[n].inputs@[k as int]);
            let p = &self.inputs[id.0];
            if crate::blocks::same_text(p.name.as_str(), name) {
                proof {
                    assert(self@.input(n, k as int) == *p);
                    lemma_input_named(self@, n, name@, k as int);
                }
                return Some(id);
            }
            assert(self@.input(n, k as int).name@ != name@);
            k = k + 1;
        }
        proof {
            lemma_no_input_named(self@, n, name@);
        }
        None
    }

    /// Reads the constant that a node holds under `name`: the value of its
    /// first input of that name, if that input holds a constant.
    pub fn scalar_value(&self, node_id: NodeId, name: &str) -> (r: Option<ScalarValue>)
        requires
            self.wf(),
            node_id.0 < self@.nodes.len(),
        ensures
            r == self@.scalar(node_id.0 as int, name@),
    {
        match self.find_input(node_id, name) {
            Some(id) => match &self.inputs[id.0].value {
                ESDRValueType::Scalar { value, .. } => Some(*value),
                ESDRValueType::InputStream { .. } => None,
            },
            None => None,
        }
    }

    /// Replaces the constant that an input holds. Nothing changes, and
    /// `false` is returned, when the handle is not of this graph or the
    /// input holds no constant. A node whose inputs were the declared ones
    /// keeps them.
    pub fn set_scalar(&mut self, id: InputId, value: ScalarValue) -> (changed: bool)
        requires
            old(self).wf(),
        ensures
            final(self).wf(),
            changed == (id.0 < old(self)@.inputs.len() && old(self)@.inputs[id.0 as int].value
                is Scalar),
            !changed ==> final(self)@ == old(self)@,
            changed ==> {
                &&& final(self)@.nodes == old(self)@.nodes
                &&& final(self)@.outputs == old(self)@.outputs
                &&& final(self)@.connections == old(self)@.connections
                &&& final(self)@.inputs.len() == old(self)@.inputs.len()
                &&& forall|i: int|
                    0 <= i < old(self)@.inputs.len() && i != id.0 ==> final(self)@.inputs[i] == old(
                        self,
                    )@.inputs[i]
                &&& old(self)@.inputs[id.0 as int].value matches ESDRValueType::Scalar {
                    node_id,
                    config,
                    ..
                } && final(self)@.inputs[id.0 as int] == (InputParam {
                    value: ESDRValueType::Scalar { node_id, value, config },
                    ..old(self)@.inputs[id.0 as int]
                })
            },
            forall|n: int|
                0 <= n < old(self)@.nodes.len() && old(self)@.as_declared(n)
                    ==> final(self)@.as_declared(n),
    {
        if id.0 >= self.inputs.len() {
            return false;
        }
        let changed = match &mut self.inputs[id.0].value {
            ESDRValueType::Scalar { value: held, .. } => {
                *held = value;
                true
            },
            ESDRValueType::InputStream { .. } => false,
        };
        proof {
            let g0 = old(self)@;
            let g1 = self@;
            if changed {
                assert forall|i: int| 0 <= i < g1.inputs.len() implies (
                #[trigger] g1.inputs[i]).id.0 == i && g1.inputs[i].node.0 < g1.nodes.len() by {
                    assert(g0.inputs[i].id.0 == i);
                }
                assert forall|n: int, k: int|
                    0 <= n < g1.nodes.len() && 0 <= k < g1.nodes[n].inputs@.len() implies {
                    let i = #[trigger] g1.nodes[n].inputs@[k];
                    i.0 < g1.inputs.len() && g1.inputs[i.0 as int].node.0 == n
                } by {
                    let i = g0.nodes[n].inputs@[k];
                    assert(g0.inputs[i.0 as int].node.0 == n);
                }
                assert forall|c: int| 0 <= c < g1.connections.len() implies (
                #[trigger] g1.connections[c]).0.0 < g1.inputs.len() && g1.connections[c].1.0
                    < g1.outputs.len() by {
                    assert(g1.connections[c] == g0.connections[c]);
                }
            } else {
                assert(g1.inputs =~= g0.inputs);
            }
            assert forall|n: int| 0 <= n < g0.nodes.len() && g0.as_declared(n) implies g1.as_declared(
                n,
            ) by {
                assert forall|k: int| 0 <= k < g0.nodes[n].inputs@.len() implies g1.input(
                    n,
                    k,
                ).keeps(#[trigger] g0.input(n, k)) by {
                    let i = g0.nodes[n].inputs@[k];
                    assert(i.0 < g0.inputs.len());
                }
                crate::declared::lemma_as_declared_kept(g0, g1, n);
            }
        }
        changed
    }

    /// Adds a node without ports and returns its handle.
    pub fn add_node(&mut self, label: String, user_data: ESDRNodeData) -> (id: NodeId)
        requires
            old(self).wf(),
        ensures
            final(self).wf(),
            id.0 == old(self)@.nodes.len(),
            final(self)@.nodes.len() == old(self)@.nodes.len() + 1,
            final(self)@.nodes.subrange(0, id.0 as int) == old(self)@.nodes,
            final(self)@.nodes[id.0 as int].id == id,
            final(self)@.nodes[id.0 as int].label@ == label@,
            final(self)@.nodes[id.0 as int].user_data == user_data,
            final(self)@.nodes[id.0 as int].inputs@.len() == 0,
            final(self)@.nodes[id.0 as int].outputs@.len() == 0,
            final(self)@.inputs == old(self)@.inputs,
            final(self)@.outputs == old(self)@.outputs,
            final(self)@.connections == old(self)@.connections,
            forall|m: int|
                0 <= m < old(self)@.nodes.len() ==> #[trigger] final(self)@.nodes[m] == old(
                    self,
                )@.nodes[m],
    {
        let id = NodeId(self.nodes.len());
        self.nodes.push(Node { id, label, inputs: Vec::new(), outputs: Vec::new(), user_data });
        proof {
            let g0 = old(self)@;
            let g1 = self@;
            assert forall|c: int| 0 <= c < g1.connections.len() implies (
            #[trigger] g1.connections[c]).0.0 < g1.inputs.len() && g1.connections[c].1.0
                < g1.outputs.len() by {
                assert(g1.connections[c] == g0.connections[c]);
            }
            assert(g1.nodes.subrange(0, id.0 as int) =~= g0.nodes);
            assert forall|n: int| 0 <= n < g1.nodes.len() implies (#[trigger] g1.nodes[n]).id.0
                == n by {
                if n < g0.nodes.len() {
                    assert(g1.nodes[n] == g0.nodes[n]);
                }
            }
            assert forall|n: int, k: int|
                0 <= n < g1.nodes.len() && 0 <= k < g1.nodes[n].inputs@.len() implies {
                let i = #[trigger] g1.nodes[n].inputs@[k];
                i.0 < g1.inputs.len() && g1.inputs[i.0 as int].node.0 == n
            } by {
                if n < g0.nodes.len() {
                    assert(g1.nodes[n] == g0.nodes[n]);
                    assert(g0.nodes[n].inputs@[k].0 < g0.inputs.len());
                }
            }
            assert forall|n: int, k: int|
                0 <= n < g1.nodes.len() && 0 <= k < g1.nodes[n].outputs@.len() implies {
                let o = #[trigger] g1.nodes[n].outputs@[k];
                o.0 < g1.outputs.len() && g1.outputs[o.0 as int].node.0 == n
            } by {
                if n < g0.nodes.len() {
                    assert(g1.nodes[n] == g0.nodes[n]);
                    assert(g0.nodes[n].outputs@[k].0 < g0.outputs.len());
                }
            }
        }
        id
    }

    /// Adds an input port to a node of this graph, after the ports the node
    /// already has, and returns its handle.
    pub fn add_input_param(
        &mut self,
        node_id: NodeId,
        name: String,
        typ: ESDRDataType,
        value: ESDRValueType,
        kind: InputParamKind,
        shown_inline: bool,
    ) -> (id: InputId)
        requires
            old(self).wf(),
            node_id.0 < old(self)@.nodes.len(),
        ensures
            final(self).wf(),
            id.0 == old(self)@.inputs.len(),
            final(self)@.inputs.len() == old(self)@.inputs.len() + 1,
            final(self)@.inputs.subrange(0, id.0 as int) == old(self)@.inputs,
            final(self)@.inputs[id.0 as int] == (InputParam {
                id,
                name,
                typ,
                value,
                kind,
                node: node_id,
                shown_inline,
            }),
            final(self)@.nodes.len() == old(self)@.nodes.len(),
            forall|n: int|
                0 <= n < old(self)@.nodes.len() && n != node_id.0 ==> final(self)@.nodes[n] == old(
                    self,
                )@.nodes[n],
            final(self)@.nodes[node_id.0 as int].inputs@ == old(self)@.nodes[node_id.0 as int].inputs@.push(
                id,
            ),
            final(self)@.nodes[node_id.0 as int].outputs@ == old(self)@.nodes[node_id.0 as int].outputs@,
            final(self)@.nodes[node_id.0 as int].label == old(self)@.nodes[node_id.0 as int].label,
            final(self)@.nodes[node_id.0 as int].user_data == old(self)@.nodes[node_id.0 as int].user_data,
            final(self)@.nodes[node_id.0 as int].id == node_id,
            final(self)@.outputs == old(self)@.outputs,
            final(self)@.connections == old(self)@.connections,
    {
        let id = InputId(self.inputs.len());
        self.inputs.push(InputParam { id, name, typ, value, kind, node: node_id, shown_inline });
        self.nodes[node_id.0].inputs.push(id);
        proof {
            let g0 = old(self)@;
            let g1 = self@;
            assert forall|c: int| 0 <= c < g1.connections.len() implies (
            #[trigger] g1.connections[c]).0.0 < g1.inputs.len() && g1.connections[c].1.0
                < g1.outputs.len() by {
                assert(g1.connections[c] == g0.connections[c]);
            }
            assert(g1.inputs.subrange(0, id.0 as int) =~= g0.inputs);
            assert forall|i: int| 0 <= i < g1.inputs.len() implies (#[trigger] g1.inputs[i]).id.0
                == i && g1.inputs[i].node.0 < g1.nodes.len() by {
                if i < g0.inputs.len() {
                    assert(g1.inputs[i] == g0.inputs[i]);
                }
            }
            assert forall|n: int| 0 <= n < g1.nodes.len() implies (#[trigger] g1.nodes[n]).id.0
                == n by {
                assert(g0.nodes[n].id.0 == n);
            }
            assert forall|n: int, k: int|
                0 <= n < g1.nodes.len() && 0 <= k < g1.nodes[n].inputs@.len() implies {
                let i = #[trigger] g1.nodes[n].inputs@[k];
                i.0 < g1.inputs.len() && g1.inputs[i.0 as int].node.0 == n
            } by {
                if n == node_id.0 && k == g0.nodes[n].inputs@.len() {
                } else {
                    let i = g0.nodes[n].inputs@[k];
                    assert(g1.nodes[n].inputs@[k] == i);
                    assert(g1.inputs[i.0 as int] == g0.inputs[i.0 as int]);
                }
            }
            assert forall|n: int, k: int|
                0 <= n < g1.nodes.len() && 0 <= k < g1.nodes[n].outputs@.len() implies {
                let o = #[trigger] g1.nodes[n].outputs@[k];
                o.0 < g1.outputs.len() && g1.outputs[o.0 as int].node.0 == n
            } by {
                let o = g0.nodes[n].outputs@[k];
                assert(g1.nodes[n].outputs@[k] == o);
            }
        }
        id
    }

    /// Adds an output port to a node of this graph, after the ports the node
    /// already has, and returns its handle.
    pub fn add_output_param(&mut self, node_id: NodeId, name: String, typ: ESDRDataType) -> (id:
        OutputId)
        requires
            old(self).wf(),
            node_id.0 < old(self)@.nodes.len(),
        ensures
            final(self).wf(),
            id.0 == old(self)@.outputs.len(),
            final(self)@.outputs.len() == old(self)@.outputs.len() + 1,
            final(self)@.outputs.subrange(0, id.0 as int) == old(self)@.outputs,
            final(self)@.outputs[id.0 as int] == (OutputParam { id, name, node: node_id, typ }),
            final(self)@.nodes.len() == old(self)@.nodes.len(),
            forall|n: int|
                0 <= n < old(self)@.nodes.len() && n != node_id.0 ==> final(self)@.nodes[n] == old(
                    self,
                )@.nodes[n],
            final(self)@.nodes[node_id.0 as int].outputs@ == old(self)@.nodes[node_id.0 as int].outputs@.push(
                id,
            ),
            final(self)@.nodes[node_id.0 as int].inputs@ == old(self)@.nodes[node_id.0 as int].inputs@,
            final(self)@.nodes[node_id.0 as int].label == old(self)@.nodes[node_id.0 as int].label,
            final(self)@.nodes[node_id.0 as int].user_data == old(self)@.nodes[node_id.0 as int].user_data,
            final(self)@.nodes[node_id.0 as int].id == node_id,
            final(self)@.inputs == old(self)@.inputs,
            final(self)@.connections == old(self)@.connections,
    {
        let id = OutputId(self.outputs.len());
        self.outputs.push(OutputParam { id, name, node: node_id, typ });
        self.nodes[node_id.0].outputs.push(id);
        proof {
            let g0 = old(self)@;
            let g1 = self@;
            assert forall|c: int| 0 <= c < g1.connections.len() implies (
            #[trigger] g1.connections[c]).0.0 < g1.inputs.len() && g1.connections[c].1.0
                < g1.outputs.len() by {
                assert(g1.connections[c] == g0.connections[c]);
            }
            assert(g1.outputs.subrange(0, id.0 as int) =~= g0.outputs);
            assert forall|o: int|
                0 <= o < g1.outputs.len() implies (#[trigger] g1.outputs[o]).id.0 == o
                && g1.outputs[o].node.0 < g1.nodes.len() by {
                if o < g0.outputs.len() {
                    assert(g1.outputs[o] == g0.outputs[o]);
                }
            }
            assert forall|n: int| 0 <= n < g1.nodes.len() implies (#[trigger] g1.nodes[n]).id.0
                == n by {
                assert(g0.nodes[n].id.0 == n);
            }
            assert forall|n: int, k: int|
                0 <= n < g1.nodes.len() && 0 <= k < g1.nodes[n].outputs@.len() implies {
                let o = #[trigger] g1.nodes[n].outputs@[k];
                o.0 < g1.outputs.len() && g1.outputs[o.0 as int].node.0 == n
            } by {
                if n == node_id.0 && k == g0.nodes[n].outputs@.len() {
                } else {
                    let o = g0.nodes[n].outputs@[k];
                    assert(g1.nodes[n].outputs@[k] == o);
                    assert(g1.outputs[o.0 as int] == g0.outputs[o.0 as int]);
                }
            }
            assert forall|n: int, k: int|
                0 <= n < g1.nodes.len() && 0 <= k < g1.nodes[n].inputs@.len() implies {
                let i = #[trigger] g1.nodes[n].inputs@[k];
                i.0 < g1.inputs.len() && g1.inputs[i.0 as int].node.0 == n
            } by {
                let i = g0.nodes[n].inputs@[k];
                assert(g1.nodes[n].inputs@[k] == i);
            }
        }
        id
    }

    /// Draws a connection from an output to an input. Nothing is drawn, and
    /// `false` returned, when either handle is not of this graph; whether
    /// the two ports may be connected is not looked at.
    pub fn add_connection(&mut self, output: OutputId, input: InputId) -> (drawn: bool)
        requires
            old(self).wf(),
        ensures
            final(self).wf(),
            drawn == (output.0 < old(self)@.outputs.len() && input.0 < old(self)@.inputs.len()),
            final(self)@.nodes == old(self)@.nodes,
            final(self)@.inputs == old(self)@.inputs,
            final(self)@.outputs == old(self)@.outputs,
            final(self)@.connections == if drawn {
                old(self)@.connections.push((input, output))
            } else {
                old(self)@.connections
            },
    {
        if output.0 < self.outputs.len() && input.0 < self.inputs.len() {
            self.connections.push((input, output));
            proof {
                let g0 = old(self)@;
                let g1 = self@;
                assert forall|c: int| 0 <= c < g1.connections.len() implies (
                #[trigger] g1.connections[c]).0.0 < g1.inputs.len() && g1.connections[c].1.0
                    < g1.outputs.len() by {
                    if c < g0.connections.len() {
                        assert(g1.connections[c] == g0.connections[c]);
                    }
                }
            }
            true
        } else {
            false
        }
    }
}

} // verus!
