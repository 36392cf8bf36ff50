//! What can be wrong with a graph, and the checks that find it before any
//! unit is built or registered.

use vstd::prelude::*;

use crate::blocks::ESDRBlock;
use crate::blocks::ESDRBlockInput;
use crate::graph::ESDRGraph;
use crate::graph::ESDRValueType;
use crate::graph::GraphView;
use crate::graph::InputParam;
use crate::graph::InputParamKind;
use crate::graph::NodeId;
use crate::params::descriptors;
use crate::params::Direction;
use crate::params::ESDRDataType;
use crate::params::Param;
use crate::params::PortDescriptor;

verus! {

/// The ways in which a compile attempt fails.
#[derive(Clone, Copy, PartialEq, Eq, Structural, Debug)]
pub enum Fault {
    /// The units handed in do not match the nodes one for one: some node's
    /// kind has no unit.
    UnknownBlockKind,
    /// A node lacks an input that its kind declares.
    MissingRequiredInput,
    /// A declared input holds the wrong thing (a constant where a stream
    /// belongs, or the reverse), or a connection ends at a port that takes
    /// none or joins ports that are not both streams.
    PortTypeMismatch,
    /// Two connections feed one input.
    DuplicateConnection,
    /// The engine refused a stream connection.
    EngineConnectFailure,
    /// A unit lacks the message input of a field that may be changed live.
    MessagePortResolutionFailure,
}

/// A failed compile attempt. A refusal by the engine comes with the
/// engine's words for it.
#[derive(Debug)]
pub enum CompileError {
    UnknownBlockKind,
    MissingRequiredInput,
    PortTypeMismatch,
    DuplicateConnection,
    EngineConnectFailure(String),
    MessagePortResolutionFailure,
}

impl CompileError {
    /// The way in which the attempt failed, without the engine's words.
    pub open spec fn fault(self) -> Fault {
        match self {
            CompileError::UnknownBlockKind => Fault::UnknownBlockKind,
            CompileError::MissingRequiredInput => Fault::MissingRequiredInput,
            CompileError::PortTypeMismatch => Fault::PortTypeMismatch,
            CompileError::DuplicateConnection => Fault::DuplicateConnection,
            CompileError::EngineConnectFailure(_) => Fault::EngineConnectFailure,
            CompileError::MessagePortResolutionFailure => Fault::MessagePortResolutionFailure,
        }
    }

    /// Computes the way in which the attempt failed.
    pub fn kind(&self) -> (r: Fault)
        ensures
            r == self.fault(),
    {
        match self {
            CompileError::UnknownBlockKind => Fault::UnknownBlockKind,
            CompileError::MissingRequiredInput => Fault::MissingRequiredInput,
            CompileError::PortTypeMismatch => Fault::PortTypeMismatch,
            CompileError::DuplicateConnection => Fault::DuplicateConnection,
            CompileError::EngineConnectFailure(_) => Fault::EngineConnectFailure,
            CompileError::MessagePortResolutionFailure => Fault::MessagePortResolutionFailure,
        }
    }
}

/// Whether an input holds what the declaration `d` asks for: it carries the
/// declared type, and it holds a constant exactly when a scalar is declared.
pub open spec fn fits(d: PortDescriptor, p: InputParam) -> bool {
    &&& p.typ == d.kind
    &&& (p.value is Scalar) == (d.kind == ESDRDataType::Scalar)
}

impl GraphView {
    /// Whether the `j`-th declared port of node `n`'s kind is an input that
    /// the node does not have.
    pub open spec fn lacks_port(self, n: int, j: int) -> bool {
        let ports = self.kind(n).ports();
        &&& 0 <= j < ports.len()
        &&& ports[j].direction == Direction::Input
        &&& self.input_named(n, ports[j].name) is None
    }

    /// Whether node `n` lacks an input that its kind declares.
    pub open spec fn lacks_input(self, n: int) -> bool {
        exists|j: int| self.lacks_port(n, j)
    }

    /// Whether the `j`-th declared port of node `n`'s kind is an input that
    /// the node has, holding the wrong thing.
    pub open spec fn misbinds_port(self, n: int, j: int) -> bool {
        let ports = self.kind(n).ports();
        &&& 0 <= j < ports.len()
        &&& ports[j].direction == Direction::Input
        &&& self.input_named(n, ports[j].name) matches Some(p) && !fits(ports[j], p)
    }

    /// Whether some declared input of node `n` holds the wrong thing.
    pub open spec fn misbinds_input(self, n: int) -> bool {
        exists|j: int| self.misbinds_port(n, j)
    }

    /// Whether connection `c` should not have been drawn: it does not lead
    /// from a stream output to a stream input that takes connections.
    pub open spec fn misdrawn(self, c: int) -> bool {
        !(self.sink(c).typ == ESDRDataType::Stream && self.sink(c).kind
            == InputParamKind::ConnectionOnly && self.source(c).typ == ESDRDataType::Stream)
    }

    /// Whether connections `a` and `b`, in this order, feed one input.
    pub open spec fn feed_one(self, a: int, b: int) -> bool {
        0 <= a < b < self.connections.len() && self.connections[a].0 == self.connections[b].0
    }

    /// Whether some input is fed by two connections.
    pub open spec fn fed_twice(self) -> bool {
        exists|a: int, b: int| self.feed_one(a, b)
    }

    /// What is wrong with the graph by itself, if anything. A missing input
    /// anywhere is reported before a mismatch anywhere, and a mismatch
    /// before an input fed twice.
    pub open spec fn structural_fault(self) -> Option<Fault> {
        if exists|n: int| 0 <= n < self.nodes.len() && self.lacks_input(n) {
            Some(Fault::MissingRequiredInput)
        } else if (exists|n: int| 0 <= n < self.nodes.len() && self.misbinds_input(n)) || (
        exists|c: int| 0 <= c < self.connections.len() && self.misdrawn(c)) {
            Some(Fault::PortTypeMismatch)
        } else if self.fed_twice() {
            Some(Fault::DuplicateConnection)
        } else {
            None
        }
    }
}

/// Tells whether a node lacks an input that its kind declares.
pub fn node_lacks_input(graph: &ESDRGraph, node_id: NodeId) -> (r: bool)
    requires
        graph.wf(),
        node_id.0 < graph@.nodes.len(),
    ensures
        r == graph@.lacks_input(node_id.0 as int),
{
    let ghost n = node_id.0 as int;
    let kind = graph.nodes()[node_id.0].user_data.block_type;
    let params = kind.params();
    let mut j: usize = 0;
    while j < params.len()
        invariant
            graph.wf(),
            n == node_id.0,
            0 <= n < graph@.nodes.len(),
            kind == graph@.kind(n),
            descriptors(params@) == kind.ports(),
            j <= params@.len(),
            forall|i: int| 0 <= i < j ==> !graph@.lacks_port(n, i),
        decreases params@.len() - j,
    {
        assert(descriptors(params@)[j as int] == params@[j as int]@);
        let missing = match &params[j] {
            Param::Scalar(p) => match graph.find_input(node_id, p.name.as_str()) {
                Some(_) => false,
                None => true,
            },
            Param::InputStream(p) => match graph.find_input(node_id, p.name.as_str()) {
                Some(_) => false,
                None => true,
            },
            Param::OutputStream(_) => false,
        };
        if missing {
            assert(graph@.lacks_port(n, j as int));
            return true;
        }
        assert(!graph@.lacks_port(n, j as int));
        j = j + 1;
    }
    false
}

/// Tells whether some declared input of a node holds the wrong thing.
pub fn node_misbinds_input(graph: &ESDRGraph, node_id: NodeId) -> (r: bool)
    requires
        graph.wf(),
        node_id.0 < graph@.nodes.len(),
    ensures
        r == graph@.misbinds_input(node_id.0 as int),
{
    let ghost n = node_id.0 as int;
    let kind = graph.nodes()[node_id.0].user_data.block_type;
    let params = kind.params();
    let mut j: usize = 0;
    while j < params.len()
        invariant
            graph.wf(),
            n == node_id.0,
            0 <= n < graph@.nodes.len(),
            kind == graph@.kind(n),
            descriptors(params@) == kind.ports(),
            j <= params@.len(),
            forall|i: int| 0 <= i < j ==> !graph@.misbinds_port(n, i),
        decreases params@.len() - j,
    {
        assert(descriptors(params@)[j as int] == params@[j as int]@);
        let wrong = match &params[j] {
            Param::Scalar(p) => match graph.find_input(node_id, p.name.as_str()) {
                Some(id) => {
                    let held = graph.get_input(id);
                    !(held.typ == ESDRDataType::Scalar && holds_constant(&held.value))
                },
                None => false,
            },
            Param::InputStream(p) => match graph.find_input(node_id, p.name.as_str()) {
                Some(id) => {
                    let held = graph.get_input(id);
                    !(held.typ == ESDRDataType::Stream && !holds_constant(&held.value))
                },
                None => false,
            },
            Param::OutputStream(_) => false,
        };
        if wrong {
            assert(graph@.misbinds_port(n, j as int));
            return true;
        }
        assert(!graph@.misbinds_port(n, j as int));
        j = j + 1;
    }
    false
}

/// Tells whether an input holds a constant.
pub fn holds_constant(value: &ESDRValueType) -> (r: bool)
    ensures
        r == (*value is Scalar),
{
    match value {
        ESDRValueType::Scalar { .. } => true,
        ESDRValueType::InputStream { .. } => false,
    }
}

/// Tells whether a connection of the graph should not have been drawn.
pub fn connection_misdrawn(graph: &ESDRGraph, c: usize) -> (r: bool)
    requires
        graph.wf(),
        c < graph@.connections.len(),
    ensures
        r == graph@.misdrawn(c as int),
{
    let (input, output) = graph.connections()[c];
    let sink = graph.get_input(input);
    let source = graph.get_output(output);
    !(sink.typ == ESDRDataType::Stream && sink.kind == InputParamKind::ConnectionOnly
        && source.typ == ESDRDataType::Stream)
}

/// Tells whether some input of the graph is fed by two connections.
pub fn some_input_fed_twice(graph: &ESDRGraph) -> (r: bool)
    requires
        graph.wf(),
    ensures
        r == graph@.fed_twice(),
{
    let connections = graph.connections();
    let mut b: usize = 0;
    while b < connections.len()
        invariant
            connections@ == graph@.connections,
            b <= connections@.len(),
            forall|x: int, y: int| 0 <= x < y < b ==> !graph@.feed_one(x, y),
        decreases connections@.len() - b,
    {
        let mut a: usize = 0;
        while a < b
            invariant
                connections@ == graph@.connections,
                b < connections@.len(),
                a <= b,
                forall|x: int, y: int| 0 <= x < y < b ==> !graph@.feed_one(x, y),
                forall|x: int| 0 <= x < a ==> !graph@.feed_one(x, b as int),
            decreases b - a,
        {
            if connections[a].0 == connections[b].0 {
                assert(graph@.feed_one(a as int, b as int));
                return true;
            }
            a = a + 1;
        }
        b = b + 1;
    }
    false
}

/// Checks the graph by itself: every node has the inputs that its kind
/// declares, each holding what is declared, every connection leads from a
/// stream output to a stream input, and no input is fed twice.
pub fn check_structure(graph: &ESDRGraph) -> (r: Result<(), CompileError>)
    requires
        graph.wf(),
    ensures
        match r {
            Ok(()) => graph@.structural_fault() is None,
            Err(e) => graph@.structural_fault() == Some(e.fault()),
        },
{
    let count = graph.nodes().len();
    let mut n: usize = 0;
    while n < count
        invariant
            graph.wf(),
            count == graph@.nodes.len(),
            n <= count,
            forall|m: int| 0 <= m < n ==> !graph@.lacks_input(m),
        decreases count - n,
    {
        if node_lacks_input(graph, NodeId(n)) {
            return Err(CompileError::MissingRequiredInput);
        }
        n = n + 1;
    }
    let mut n: usize = 0;
    while n < count
        invariant
            graph.wf(),
            count == graph@.nodes.len(),
            n <= count,
            forall|m: int| 0 <= m < count ==> !graph@.lacks_input(m),
            forall|m: int| 0 <= m < n ==> !graph@.misbinds_input(m),
        decreases count - n,
    {
        if node_misbinds_input(graph, NodeId(n)) {
            return Err(CompileError::PortTypeMismatch);
        }
        n = n + 1;
    }
    let drawn = graph.connections().len();
    let mut c: usize = 0;
    while c < drawn
        invariant
            graph.wf(),
            count == graph@.nodes.len(),
            drawn == graph@.connections.len(),
            c <= drawn,
            forall|m: int| 0 <= m < count ==> !graph@.lacks_input(m),
            forall|m: int| 0 <= m < count ==> !graph@.misbinds_input(m),
            forall|d: int| 0 <= d < c ==> !graph@.misdrawn(d),
        decreases drawn - c,
    {
        if connection_misdrawn(graph, c) {
            return Err(CompileError::PortTypeMismatch);
        }
        c = c + 1;
    }
    if some_input_fed_twice(graph) {
        return Err(CompileError::DuplicateConnection);
    }
    Ok(())
}

/// In a graph without structural fault, every node holds a constant for
/// every scalar that its kind declares.
pub proof fn lemma_sound_nodes_provide(graph: &ESDRGraph, n: int)
    requires
        graph.wf(),
        0 <= n < graph@.nodes.len(),
        graph@.structural_fault() is None,
    ensures
        (ESDRBlockInput { graph, node: &graph@.nodes[n] }).provides(graph@.kind(n)),
{
    let g = graph@;
    let kind = g.kind(n);
    let input = ESDRBlockInput { graph, node: &g.nodes[n] };
    assert(g.nodes[n].id.0 == n);
    assert(!g.lacks_input(n));
    assert(!g.misbinds_input(n));
    assert forall|j: int|
        0 <= j < kind.ports().len() && (#[trigger] kind.ports()[j]).kind
            == ESDRDataType::Scalar implies input.value(kind.ports()[j].name) is Some by {
        assert(kind.ports()[j].direction == Direction::Input);
        assert(!g.lacks_port(n, j));
        assert(!g.misbinds_port(n, j));
    }
}

} // verus!
