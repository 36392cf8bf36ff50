//! What the editor needs from the catalogue and from the running pipeline:
//! the list of kinds, the ports to put on a new node, what a widget reports
//! when its value changes, and where such a report goes.

use vstd::prelude::*;

use crate::blocks::AudioOutputBlock;
use crate::blocks::ESDRBlock;
use crate::blocks::ESDRBlockType;
use crate::blocks::FMDemodulatorBlock;
use crate::blocks::Resamp1Block;
use crate::blocks::Resamp2Block;
use crate::blocks::ShiftBlock;
use crate::blocks::SoapySDRBlock;
use crate::declared::lemma_as_declared_beside_growth;
use crate::declared::lemma_built_node_is_as_declared;
use crate::graph::fresh_uuid;
use crate::graph::lemma_grown_by_one_more;
use crate::graph::ESDRGraph;
use crate::graph::ESDRNodeData;
use crate::graph::ESDRValueType;
use crate::graph::NodeId;
use crate::params::descriptors;
use crate::params::ESDRDataType;
use crate::params::InputStream;
use crate::params::OutputStream;
use crate::params::ParamTrait;
use crate::params::ScalarParam;
use crate::radio::MessageCall;
use crate::radio::Radio;
use crate::value::ScalarValue;

verus! {

/// A changed scalar: the node, the field, and the new value.
#[derive(Debug)]
pub struct UpdateScalarPayload {
    pub node_id: NodeId,
    pub field: String,
    pub value: ScalarValue,
}

/// What a widget reports to the editor.
#[derive(Debug)]
pub enum ESDRResponse {
    UpdateScalar(UpdateScalarPayload),
}

impl ESDRResponse {
    /// Whether this is the report that `field` on `node_id` is now `value`.
    pub open spec fn is_update(self, node_id: NodeId, field: Seq<char>, value: ScalarValue) -> bool {
        match self {
            ESDRResponse::UpdateScalar(p) => p.node_id == node_id && p.field@ == field && p.value
                == value,
        }
    }
}

/// The state that the editor keeps for the graph as a whole: none.
#[derive(Clone, Copy, Default, Debug)]
pub struct ESDRGraphState {}

/// The catalogue of block kinds.
#[derive(Clone, Copy, Default, Debug)]
pub struct AllESDRBlockTypes;

impl AllESDRBlockTypes {
    /// The kinds, in the order in which the editor lists them.
    pub open spec fn kinds() -> Seq<ESDRBlockType> {
        seq![
            ESDRBlockType::SoapySDR(SoapySDRBlock {  }),
            ESDRBlockType::Shift(ShiftBlock {  }),
            ESDRBlockType::Resamp1(Resamp1Block {  }),
            ESDRBlockType::FMDemodulator(FMDemodulatorBlock {  }),
            ESDRBlockType::Resamp2(Resamp2Block {  }),
            ESDRBlockType::AudioOutput(AudioOutputBlock {  }),
        ]
    }

    /// Lists every block kind, in the order of the catalogue.
    pub fn all_kinds(&self) -> (r: Vec<ESDRBlockType>)
        ensures
            r@ == Self::kinds(),
    {
        let r = vec![
            ESDRBlockType::SoapySDR(SoapySDRBlock {  }),
            ESDRBlockType::Shift(ShiftBlock {  }),
            ESDRBlockType::Resamp1(Resamp1Block {  }),
            ESDRBlockType::FMDemodulator(FMDemodulatorBlock {  }),
            ESDRBlockType::Resamp2(Resamp2Block {  }),
            ESDRBlockType::AudioOutput(AudioOutputBlock {  }),
        ];
        assert(r@ =~= Self::kinds());
        r
    }
}

impl ESDRDataType {
    /// The colour in which ports of this type are drawn, as red, green and
    /// blue.
    pub fn data_type_color(&self) -> (r: (u8, u8, u8))
        ensures
            r == match *self {
                ESDRDataType::Stream => (38u8, 109u8, 211u8),
                ESDRDataType::Scalar => (238u8, 207u8, 109u8),
            },
    {
        match self {
            ESDRDataType::Stream => (38, 109, 211),
            ESDRDataType::Scalar => (238, 207, 109),
        }
    }

    /// The word for this type.
    pub fn name(&self) -> (r: &'static str)
        ensures
            r@ == match *self {
                ESDRDataType::Stream => "stream"@,
                ESDRDataType::Scalar => "scalar"@,
            },
    {
        match self {
            ESDRDataType::Stream => "stream",
            ESDRDataType::Scalar => "scalar",
        }
    }
}

impl ESDRBlockType {
    /// The name under which the kind is found in the catalogue.
    pub fn node_finder_label(&self) -> (r: &'static str)
        ensures
            r@ == self.label(),
    {
        (*self).name()
    }

    /// The name that a node of the kind shows.
    pub fn node_graph_label(&self) -> (r: String)
        ensures
            r@ == self.label(),
    {
        self.node_finder_label().to_owned()
    }

    /// What a new node of the kind carries: a fresh identifier and the
    /// kind.
    pub fn user_data(&self) -> (r: ESDRNodeData)
        ensures
            r.block_type == *self,
    {
        ESDRNodeData { uuid: fresh_uuid(), block_type: *self }
    }

    /// Puts on a node every port that the kind declares, in declaration
    /// order, behind the ports the node already has. On a new node of this
    /// kind the inputs are then the declared ones, and every other node
    /// whose inputs were the declared ones keeps them.
    pub fn build_node(&self, graph: &mut ESDRGraph, node_id: NodeId)
        requires
            old(graph).wf(),
            node_id.0 < old(graph)@.nodes.len(),
        ensures
            final(graph).wf(),
            old(graph)@.grown_by(final(graph)@, node_id.0 as int, self.ports()),
            old(graph)@.kind(node_id.0 as int) == *self && old(
                graph,
            )@.nodes[node_id.0 as int].inputs@.len() == 0 ==> final(graph)@.as_declared(
                node_id.0 as int,
            ),
            forall|m: int|
                0 <= m < old(graph)@.nodes.len() && m != node_id.0 && old(graph)@.as_declared(m)
                    ==> final(graph)@.as_declared(m),
    {
        let ghost g0 = graph@;
        let ghost n = node_id.0 as int;
        let ghost ports = self.ports();
        let params = (*self).params();
        proof {
            assert(ports.take(0) =~= Seq::empty());
            assert(g0.inputs.subrange(0, g0.inputs.len() as int) =~= g0.inputs);
            assert(g0.outputs.subrange(0, g0.outputs.len() as int) =~= g0.outputs);
            assert(g0.nodes[n].inputs@.subrange(0, g0.nodes[n].inputs@.len() as int)
                =~= g0.nodes[n].inputs@);
            assert(g0.nodes[n].outputs@.subrange(0, g0.nodes[n].outputs@.len() as int)
                =~= g0.nodes[n].outputs@);
        }
        let mut j: usize = 0;
        while j < params.len()
            invariant
                graph.wf(),
                n == node_id.0,
                0 <= n < g0.nodes.len(),
                ports == self.ports(),
                descriptors(params@) == ports,
                j <= params@.len(),
                g0.grown_by(graph@, n, ports.take(j as int)),
            decreases params@.len() - j,
        {
            let ghost g1 = graph@;
            let param = params[j].clone();
            assert(descriptors(params@)[j as int] == params@[j as int]@);
            param.add_param(graph, node_id);
            proof {
                lemma_grown_by_one_more(g0, g1, graph@, n, ports, j as int);
            }
            j = j + 1;
        }
        proof {
            assert(ports.take(params@.len() as int) =~= ports);
            if g0.kind(n) == *self && g0.nodes[n].inputs@.len() == 0 {
                lemma_built_node_is_as_declared(g0, graph@, n, *self);
            }
            assert forall|m: int|
                0 <= m < g0.nodes.len() && m != n && g0.as_declared(m) implies graph@.as_declared(
                m,
            ) by {
                lemma_as_declared_beside_growth(g0, graph@, n, ports, m);
            }
        }
    }
}

impl ScalarParam {
    /// What the widget of a scalar reports: when its value was changed, the
    /// one update of this field on the node to the value it now shows;
    /// else nothing.
    pub fn widget(&self, node_id: NodeId, value: ScalarValue, changed: bool) -> (r: Vec<
        ESDRResponse,
    >)
        ensures
            changed ==> r@.len() == 1 && r@[0].is_update(node_id, self.name@, value),
            !changed ==> r@.len() == 0,
    {
        let mut responses = Vec::new();
        if changed {
            responses.push(
                ESDRResponse::UpdateScalar(
                    UpdateScalarPayload { node_id, field: self.name.clone(), value },
                ),
            );
        }
        responses
    }
}

impl InputStream {
    /// What the widget of a stream input reports: nothing.
    pub fn widget(&self, _node_id: NodeId) -> (r: Vec<ESDRResponse>)
        ensures
            r@.len() == 0,
    {
        Vec::new()
    }
}

impl OutputStream {
    /// What the widget of a stream output reports: nothing.
    pub fn widget(&self, _node_id: NodeId) -> (r: Vec<ESDRResponse>)
        ensures
            r@.len() == 0,
    {
        Vec::new()
    }
}

impl ESDRValueType {
    /// Lets the widget of an input act on what the input holds. `edited` is
    /// the value that the user has just set, if any. A constant takes the
    /// new value and reports the one update that follows from it; without
    /// an edit, and for an input that holds no constant, nothing changes
    /// and nothing is reported.
    pub fn value_widget(&mut self, edited: Option<ScalarValue>) -> (r: Vec<ESDRResponse>)
        ensures
            match (*old(self), edited) {
                (ESDRValueType::Scalar { node_id, value, config }, Some(v)) => {
                    &&& *final(self) == (ESDRValueType::Scalar { node_id, value: v, config })
                    &&& r@.len() == 1
                    &&& r@[0].is_update(node_id, config.name@, v)
                },
                _ => *final(self) == *old(self) && r@.len() == 0,
            },
    {
        match self {
            ESDRValueType::Scalar { node_id, value, config } => match edited {
                Some(v) => {
                    *value = v;
                    config.widget(*node_id, v, true)
                },
                None => config.widget(*node_id, *value, false),
            },
            ESDRValueType::InputStream { node_id, config } => config.widget(*node_id),
        }
    }
}

/// What the run button asks for.
#[derive(Clone, Copy, PartialEq, Eq, Structural, Debug)]
pub enum RunAction {
    /// Compile the graph and start the pipeline.
    Launch,
    /// Stop the running pipeline and let it go.
    Stop,
    /// Leave things as they are.
    Nothing,
}

/// What the run button asks for, given whether a pipeline is running and
/// whether the button was clicked: a click stops the running pipeline, or
/// launches one where none runs; without a click nothing happens. So at
/// most one pipeline is alive at any time.
pub open spec fn run_action(running: bool, clicked: bool) -> RunAction {
    if !clicked {
        RunAction::Nothing
    } else if running {
        RunAction::Stop
    } else {
        RunAction::Launch
    }
}

/// Decides what the run button asks for.
pub fn toggle(running: bool, clicked: bool) -> (r: RunAction)
    ensures
        r == run_action(running, clicked),
{
    if !clicked {
        RunAction::Nothing
    } else if running {
        RunAction::Stop
    } else {
        RunAction::Launch
    }
}

/// Hands a widget's report to the pipeline, if one is running: the report
/// of a changed scalar becomes the message call that the pipeline decides
/// on. Without a pipeline nothing is to be done.
pub fn route(radio: &mut Option<Radio>, response: &ESDRResponse) -> (r: Option<MessageCall>)
    ensures
        match (*old(radio), *final(radio), *response) {
            (Some(before), Some(after), ESDRResponse::UpdateScalar(p)) => after@ == before@ && r
                == before@.call_for(p.node_id, p.field@, p.value),
            (None, None, _) => r is None,
            _ => false,
        },
{
    match response {
        ESDRResponse::UpdateScalar(p) => match radio {
            Some(radio) => radio.update_scalar(p.node_id, p.field.as_str(), p.value),
            None => None,
        },
    }
}

} // verus!
