//! Nodes that carry the ports their kind declares, and why such nodes pass
//! every check that looks at a node alone.

use vstd::prelude::*;

use futuresdr::runtime::Block;

use crate::blocks::ESDRBlockType;
use crate::engine::message_inputs;
use crate::graph::ports_toward;
use crate::graph::ESDRValueType;
use crate::graph::GraphView;
use crate::graph::InputParam;
use crate::graph::InputParamKind;
use crate::params::Direction;
use crate::params::ESDRDataType;
use crate::params::PortDescriptor;
use crate::validate::fits;

verus! {

impl InputParam {
    /// Whether this input is one that the declaration `d` could have made
    /// and the editor then changed the value of: it has the declared name
    /// and type, takes a constant exactly when a scalar is declared, holds
    /// one exactly then, may be changed live exactly when declared so, and
    /// what it holds remembers its node and the declaration.
    pub open spec fn answers(self, d: PortDescriptor) -> bool {
        &&& self.name@ == d.name
        &&& self.typ == d.kind
        &&& self.kind == if d.kind == ESDRDataType::Scalar {
            InputParamKind::ConstantOnly
        } else {
            InputParamKind::ConnectionOnly
        }
        &&& (self.value is Scalar) == (d.kind == ESDRDataType::Scalar)
        &&& self.value.updatable() == d.updatable
        &&& self.remembers(d)
    }

    /// Whether this input is `was` but for the constant it holds: name,
    /// type, kind and node are the same, and it holds the same kind of
    /// thing with the same node and the same declaration kept in it.
    pub open spec fn keeps(self, was: InputParam) -> bool {
        &&& self.name@ == was.name@
        &&& self.typ == was.typ
        &&& self.kind == was.kind
        &&& self.node == was.node
        &&& match (self.value, was.value) {
            (
                ESDRValueType::Scalar { node_id: a, config: c, .. },
                ESDRValueType::Scalar { node_id: b, config: e, .. },
            ) => a == b && c@ == e@,
            (
                ESDRValueType::InputStream { node_id: a, config: c },
                ESDRValueType::InputStream { node_id: b, config: e },
            ) => a == b && c@ == e@,
            _ => false,
        }
    }
}

impl GraphView {
    /// Whether the inputs of node `n` are the inputs that its kind
    /// declares, one for one and in order, each belonging to the node.
    pub open spec fn as_declared(self, n: int) -> bool {
        let ins = ports_toward(self.kind(n).ports(), Direction::Input);
        &&& self.nodes[n].inputs@.len() == ins.len()
        &&& forall|k: int|
            0 <= k < ins.len() ==> (#[trigger] self.input(n, k)).node.0 == n && self.input(
                n,
                k,
            ).answers(ins[k])
    }
}

/// Whether `d` is a scalar input called `field` that may be changed live.
pub open spec fn declares_live(d: PortDescriptor, field: Seq<char>) -> bool {
    d.direction == Direction::Input && d.kind == ESDRDataType::Scalar && d.name == field
        && d.updatable
}

/// Every stream input in the catalogue is called `in` and every stream
/// output `out`.
pub proof fn lemma_stream_port_names(kind: ESDRBlockType, j: int)
    requires
        0 <= j < kind.ports().len(),
        kind.ports()[j].kind == ESDRDataType::Stream,
    ensures
        kind.ports()[j].name == if kind.ports()[j].direction == Direction::Input {
            "in"@
        } else {
            "out"@
        },
{
}

/// Every declaration that points in a direction is among the declarations
/// selected for that direction.
pub proof fn lemma_selected_has(ports: Seq<PortDescriptor>, direction: Direction, j: int)
    requires
        0 <= j < ports.len(),
        ports[j].direction == direction,
    ensures
        exists|k: int|
            0 <= k < ports_toward(ports, direction).len() && #[trigger] ports_toward(
                ports,
                direction,
            )[k] == ports[j],
    decreases ports.len(),
{
    let all = ports_toward(ports, direction);
    if j == ports.len() - 1 {
        assert(all[all.len() - 1] == ports[j]);
    } else {
        lemma_selected_has(ports.drop_last(), direction, j);
        let rest = ports_toward(ports.drop_last(), direction);
        let k = choose|k: int| 0 <= k < rest.len() && #[trigger] rest[k] == ports.drop_last()[j];
        assert(all[k] == ports[j]);
    }
}

/// Every declaration selected for a direction is one of the declarations
/// and points in that direction.
pub proof fn lemma_selected_from(ports: Seq<PortDescriptor>, direction: Direction, k: int)
    requires
        0 <= k < ports_toward(ports, direction).len(),
    ensures
        exists|j: int|
            0 <= j < ports.len() && #[trigger] ports[j] == ports_toward(ports, direction)[k]
                && ports[j].direction == direction,
    decreases ports.len(),
{
    let all = ports_toward(ports, direction);
    let rest = ports_toward(ports.drop_last(), direction);
    if ports.last().direction == direction && k == all.len() - 1 {
        assert(ports[ports.len() - 1] == all[k]);
    } else {
        assert(all[k] == rest[k]);
        lemma_selected_from(ports.drop_last(), direction, k);
        let j = choose|j: int|
            0 <= j < ports.drop_last().len() && #[trigger] ports.drop_last()[j] == rest[k]
                && ports.drop_last()[j].direction == direction;
        assert(ports[j] == all[k]);
    }
}

/// No kind declares two inputs of one name.
pub proof fn lemma_input_names_differ(kind: ESDRBlockType, a: int, b: int)
    requires
        0 <= a < ports_toward(kind.ports(), Direction::Input).len(),
        0 <= b < ports_toward(kind.ports(), Direction::Input).len(),
        ports_toward(kind.ports(), Direction::Input)[a].name == ports_toward(
            kind.ports(),
            Direction::Input,
        )[b].name,
    ensures
        a == b,
{
    let ports = kind.ports();
    let ins = ports_toward(ports, Direction::Input);
    reveal_with_fuel(ports_toward, 6);
    reveal_strlit("in");
    reveal_strlit("freq");
    reveal_strlit("gain");
    reveal_strlit("cutoff");
    reveal_strlit("transition");
    match kind {
        ESDRBlockType::SoapySDR(_) => {
            assert(ports.drop_last().last() == ports[1]);
            assert(ports.drop_last().drop_last().last() == ports[0]);
            assert(ins.len() == 2);
            assert(ins[0].name == "freq"@ && ins[1].name == "gain"@);
            assert("freq"@[0] != "gain"@[0]);
        },
        ESDRBlockType::Resamp2(_) => {
            assert(ports.drop_last().last() == ports[2]);
            assert(ports.drop_last().drop_last().last() == ports[1]);
            assert(ports.drop_last().drop_last().drop_last().last() == ports[0]);
            assert(ins.len() == 3);
            assert(ins[0].name == "in"@ && ins[1].name == "cutoff"@ && ins[2].name
                == "transition"@);
            assert("in"@.len() == 2 && "cutoff"@.len() == 6 && "transition"@.len() == 10);
        },
        ESDRBlockType::AudioOutput(_) => {
            assert(ins.len() == 1);
        },
        _ => {
            assert(ports.drop_last().last() == ports[0]);
            assert(ins.len() == 1);
        },
    }
}

/// Among the inputs of a node that are called `name` there is a first one.
pub proof fn lemma_first_input(g: GraphView, n: int, name: Seq<char>, k: int)
    requires
        0 <= k < g.nodes[n].inputs@.len(),
        g.input(n, k).name@ == name,
    ensures
        exists|w: int| 0 <= w <= k && g.is_input_named(n, name, w),
    decreases k,
{
    if exists|j: int| 0 <= j < k && (#[trigger] g.input(n, j)).name@ == name {
        let j = choose|j: int| 0 <= j < k && (#[trigger] g.input(n, j)).name@ == name;
        lemma_first_input(g, n, name, j);
    } else {
        assert(g.is_input_named(n, name, k));
    }
}

/// A node whose inputs are the declared ones lacks no declared input and
/// holds under each what is declared.
pub proof fn lemma_declared_node_is_sound(g: GraphView, n: int)
    requires
        g.as_declared(n),
    ensures
        !g.lacks_input(n),
        !g.misbinds_input(n),
{
    let ports = g.kind(n).ports();
    let ins = ports_toward(ports, Direction::Input);
    assert forall|j: int| !g.lacks_port(n, j) && !g.misbinds_port(n, j) by {
        if 0 <= j < ports.len() && ports[j].direction == Direction::Input {
            let name = ports[j].name;
            lemma_selected_has(ports, Direction::Input, j);
            let k = choose|k: int| 0 <= k < ins.len() && #[trigger] ins[k] == ports[j];
            assert(g.input(n, k).answers(ins[k]));
            lemma_first_input(g, n, name, k);
            let w = choose|w: int| 0 <= w <= k && g.is_input_named(n, name, w);
            crate::graph::lemma_input_named(g, n, name, w);
            assert(g.input(n, w).answers(ins[w]));
            lemma_input_names_differ(g.kind(n), w, k);
            assert(fits(ports[j], g.input(n, k)));
        }
    }
}

/// A node whose inputs are the declared ones holds a live constant under
/// exactly the names of the scalars that its kind declares as live.
pub proof fn lemma_declared_node_live_fields(g: GraphView, n: int, field: Seq<char>)
    requires
        g.as_declared(n),
    ensures
        g.live(n, field) <==> exists|j: int|
            0 <= j < g.kind(n).ports().len() && declares_live(
                #[trigger] g.kind(n).ports()[j],
                field,
            ),
{
    let ports = g.kind(n).ports();
    let ins = ports_toward(ports, Direction::Input);
    if g.live(n, field) {
        let k = choose|k: int| g.live_at(n, field, k);
        assert(g.input(n, k).answers(ins[k]));
        lemma_selected_from(ports, Direction::Input, k);
        let j = choose|j: int|
            0 <= j < ports.len() && #[trigger] ports[j] == ins[k] && ports[j].direction
                == Direction::Input;
        assert(declares_live(ports[j], field));
    }
    if exists|j: int| 0 <= j < ports.len() && declares_live(#[trigger] ports[j], field) {
        let j = choose|j: int| 0 <= j < ports.len() && declares_live(#[trigger] ports[j], field);
        lemma_selected_has(ports, Direction::Input, j);
        let k = choose|k: int| 0 <= k < ins.len() && #[trigger] ins[k] == ports[j];
        assert(g.input(n, k).answers(ins[k]));
        assert(g.live_at(n, field, k));
    }
}

/// A unit that has a message input for every scalar that the kind of its
/// node declares as live resolves every live field of a node whose inputs
/// are the declared ones.
pub proof fn lemma_declared_node_resolves(g: GraphView, block: Block, n: int)
    requires
        g.as_declared(n),
        forall|j: int|
            0 <= j < g.kind(n).ports().len() && (#[trigger] g.kind(n).ports()[j]).updatable
                ==> message_inputs(block).contains_key(g.kind(n).ports()[j].name),
    ensures
        !g.unresolved(block, n),
{
    let ports = g.kind(n).ports();
    let ins = ports_toward(ports, Direction::Input);
    assert forall|k: int| !g.unresolved_at(block, n, k) by {
        if 0 <= k < g.nodes[n].inputs@.len() && g.input(n, k).value.updatable() {
            assert(g.input(n, k).answers(ins[k]));
            lemma_selected_from(ports, Direction::Input, k);
            let j = choose|j: int|
                0 <= j < ports.len() && #[trigger] ports[j] == ins[k] && ports[j].direction
                    == Direction::Input;
            assert(ports[j].updatable);
        }
    }
}

/// Putting the declared ports on a node that had no input makes its inputs
/// the declared ones.
pub proof fn lemma_built_node_is_as_declared(
    before: GraphView,
    after: GraphView,
    n: int,
    kind: ESDRBlockType,
)
    requires
        0 <= n < before.nodes.len(),
        before.kind(n) == kind,
        before.nodes[n].inputs@.len() == 0,
        before.grown_by(after, n, kind.ports()),
    ensures
        after.as_declared(n),
{
    let ins = ports_toward(kind.ports(), Direction::Input);
    let first = before.inputs.len() as int;
    assert forall|k: int| 0 <= k < ins.len() implies (#[trigger] after.input(n, k)).node.0 == n
        && after.input(n, k).answers(ins[k]) by {
        assert(after.nodes[n].inputs@[k].0 == first + k);
        assert(after.inputs[first + k].declared_as(ins[k]));
    }
}

/// A node whose inputs are the declared ones stays so while it stays the
/// same node and each of its inputs changes at most in the constant it
/// holds, whatever else changes in the graph.
pub proof fn lemma_as_declared_kept(before: GraphView, after: GraphView, n: int)
    requires
        before.as_declared(n),
        after.nodes[n] == before.nodes[n],
        forall|k: int|
            0 <= k < before.nodes[n].inputs@.len() ==> after.input(n, k).keeps(
                #[trigger] before.input(n, k),
            ),
    ensures
        after.as_declared(n),
{
    let ins = ports_toward(before.kind(n).ports(), Direction::Input);
    assert forall|k: int| 0 <= k < ins.len() implies (#[trigger] after.input(n, k)).node.0 == n
        && after.input(n, k).answers(ins[k]) by {
        assert(before.input(n, k).answers(ins[k]));
        assert(after.input(n, k).keeps(before.input(n, k)));
    }
}

/// The widget of a declared scalar addresses its report to the key under
/// which the compiler indexes the field: on a node whose inputs are the
/// declared ones, the constant under a live input stores the node itself,
/// and the declaration kept beside it has the name of the input.
pub proof fn lemma_declared_value_names_its_input(g: GraphView, n: int, k: int)
    requires
        g.as_declared(n),
        0 <= k < g.nodes[n].inputs@.len(),
    ensures
        match g.input(n, k).value {
            ESDRValueType::Scalar { node_id, config, .. } => node_id.0 == n && config.name@
                == g.input(n, k).name@ && config.allow_updates == g.input(n, k).value.updatable(),
            ESDRValueType::InputStream { node_id, config } => node_id.0 == n && config.name@
                == g.input(n, k).name@,
        },
{
    let ins = ports_toward(g.kind(n).ports(), Direction::Input);
    assert(g.input(n, k).answers(ins[k]));
}

/// A node whose inputs are the declared ones stays so when ports are put
/// on another node.
pub proof fn lemma_as_declared_beside_growth(
    before: GraphView,
    after: GraphView,
    grown: int,
    ports: Seq<PortDescriptor>,
    n: int,
)
    requires
        before.well_formed(),
        0 <= n < before.nodes.len(),
        n != grown,
        before.grown_by(after, grown, ports),
        before.as_declared(n),
    ensures
        after.as_declared(n),
{
    assert(after.nodes[n] == before.nodes[n]);
    assert forall|k: int| 0 <= k < before.nodes[n].inputs@.len() implies after.input(n, k)
        == #[trigger] before.input(n, k) by {
        let id = before.nodes[n].inputs@[k];
        assert(id.0 < before.inputs.len());
        assert(after.inputs.subrange(0, before.inputs.len() as int)[id.0 as int]
            == after.inputs[id.0 as int]);
    }
    lemma_as_declared_kept(before, after, n);
}

} // verus!
