//! Port declarations of the block kinds, and the builders that write them.

use vstd::prelude::*;

use crate::graph::ESDRGraph;
use crate::graph::ESDRValueType;
use crate::graph::InputParamKind;
use crate::graph::NodeId;
use crate::value::ScalarValue;

verus! {

/// Which way data moves through a port.
#[derive(Clone, Copy, PartialEq, Eq, Structural, Debug)]
pub enum Direction {
    Input,
    Output,
}

/// What a port carries: a continuous stream of samples, or one configuration
/// value.
#[derive(Clone, Copy, PartialEq, Eq, Structural, Debug)]
pub enum ESDRDataType {
    Stream,
    Scalar,
}

/// The mathematical content of a port declaration.
///
/// `default_value` and `updatable` are meaningful for scalar ports only; a
/// stream port has the zero scalar and `false` there.
pub struct PortDescriptor {
    pub name: Seq<char>,
    pub direction: Direction,
    pub kind: ESDRDataType,
    pub default_value: ScalarValue,
    pub updatable: bool,
}

/// Descriptor of a stream input.
pub open spec fn stream_input(name: Seq<char>) -> PortDescriptor {
    PortDescriptor {
        name,
        direction: Direction::Input,
        kind: ESDRDataType::Stream,
        default_value: ScalarValue { bits: 0 },
        updatable: false,
    }
}

/// Descriptor of a stream output.
pub open spec fn stream_output(name: Seq<char>) -> PortDescriptor {
    PortDescriptor {
        name,
        direction: Direction::Output,
        kind: ESDRDataType::Stream,
        default_value: ScalarValue { bits: 0 },
        updatable: false,
    }
}

/// Descriptor of a scalar input.
pub open spec fn scalar_input(name: Seq<char>, default_bits: u64, updatable: bool) -> PortDescriptor {
    PortDescriptor {
        name,
        direction: Direction::Input,
        kind: ESDRDataType::Scalar,
        default_value: ScalarValue { bits: default_bits },
        updatable,
    }
}

/// A scalar input: a named configuration value with its default, and whether
/// it may be changed while the pipeline runs.
#[derive(Debug)]
pub struct ScalarParam {
    pub name: String,
    pub initial_value: ScalarValue,
    pub allow_updates: bool,
}

/// A stream input.
#[derive(Debug)]
pub struct InputStream {
    pub name: String,
}

/// A stream output.
#[derive(Debug)]
pub struct OutputStream {
    pub name: String,
}

/// One declared port of a block kind.
#[derive(Debug)]
pub enum Param {
    Scalar(ScalarParam),
    InputStream(InputStream),
    OutputStream(OutputStream),
}

impl View for ScalarParam {
    type V = PortDescriptor;

    open spec fn view(&self) -> PortDescriptor {
        scalar_input(self.name@, self.initial_value.bits, self.allow_updates)
    }
}

impl View for InputStream {
    type V = PortDescriptor;

    open spec fn view(&self) -> PortDescriptor {
        stream_input(self.name@)
    }
}

impl View for OutputStream {
    type V = PortDescriptor;

    open spec fn view(&self) -> PortDescriptor {
        stream_output(self.name@)
    }
}

impl View for Param {
    type V = PortDescriptor;

    open spec fn view(&self) -> PortDescriptor {
        match *self {
            Param::Scalar(p) => p@,
            Param::InputStream(p) => p@,
            Param::OutputStream(p) => p@,
        }
    }
}

impl Clone for ScalarParam {
    fn clone(&self) -> (r: ScalarParam)
        ensures
            r@ == self@,
    {
        ScalarParam {
            name: self.name.clone(),
            initial_value: self.initial_value,
            allow_updates: self.allow_updates,
        }
    }
}

impl Clone for InputStream {
    fn clone(&self) -> (r: InputStream)
        ensures
            r@ == self@,
    {
        InputStream { name: self.name.clone() }
    }
}

impl Clone for OutputStream {
    fn clone(&self) -> (r: OutputStream)
        ensures
            r@ == self@,
    {
        OutputStream { name: self.name.clone() }
    }
}

impl Clone for Param {
    fn clone(&self) -> (r: Param)
        ensures
            r@ == self@,
    {
        match self {
            Param::Scalar(p) => Param::Scalar(p.clone()),
            Param::InputStream(p) => Param::InputStream(p.clone()),
            Param::OutputStream(p) => Param::OutputStream(p.clone()),
        }
    }
}

/// What every declared port can do: put itself on a node.
pub trait ParamTrait: Sized {
    /// The declaration that this value holds.
    spec fn port(self) -> PortDescriptor;

    /// Adds the declared port to a node of the graph: an input holds the
    /// declared default and remembers its declaration, an output is a stream.
    fn add_param(self, graph: &mut ESDRGraph, node_id: NodeId)
        requires
            old(graph).wf(),
            node_id.0 < old(graph)@.nodes.len(),
        ensures
            final(graph).wf(),
            old(graph)@.extended_by(final(graph)@, node_id.0 as int, self.port()),
    ;
}

impl ParamTrait for ScalarParam {
    open spec fn port(self) -> PortDescriptor {
        self@
    }

    fn add_param(self, graph: &mut ESDRGraph, node_id: NodeId) {
        let name = self.name.clone();
        let value = self.initial_value;
        graph.add_input_param(
            node_id,
            name,
            ESDRDataType::Scalar,
            ESDRValueType::Scalar { node_id, value, config: self },
            InputParamKind::ConstantOnly,
            true,
        );
        proof {
            let had = old(graph)@.nodes[node_id.0 as int].inputs@;
            assert(graph@.nodes[node_id.0 as int].inputs@.subrange(0, had.len() as int) =~= had);
        }
    }
}

impl ParamTrait for InputStream {
    open spec fn port(self) -> PortDescriptor {
        self@
    }

    fn add_param(self, graph: &mut ESDRGraph, node_id: NodeId) {
        let name = self.name.clone();
        graph.add_input_param(
            node_id,
            name,
            ESDRDataType::Stream,
            ESDRValueType::InputStream { node_id, config: self },
            InputParamKind::ConnectionOnly,
            true,
        );
        proof {
            let had = old(graph)@.nodes[node_id.0 as int].inputs@;
            assert(graph@.nodes[node_id.0 as int].inputs@.subrange(0, had.len() as int) =~= had);
        }
    }
}

impl ParamTrait for OutputStream {
    open spec fn port(self) -> PortDescriptor {
        self@
    }

    fn add_param(self, graph: &mut ESDRGraph, node_id: NodeId) {
        let name = self.name.clone();
        graph.add_output_param(node_id, name, ESDRDataType::Stream);
        proof {
            let had = old(graph)@.nodes[node_id.0 as int].outputs@;
            assert(graph@.nodes[node_id.0 as int].outputs@.subrange(0, had.len() as int) =~= had);
        }
    }
}

impl ParamTrait for Param {
    open spec fn port(self) -> PortDescriptor {
        self@
    }

    fn add_param(self, graph: &mut ESDRGraph, node_id: NodeId) {
        match self {
            Param::Scalar(p) => p.add_param(graph, node_id),
            Param::InputStream(p) => p.add_param(graph, node_id),
            Param::OutputStream(p) => p.add_param(graph, node_id),
        }
    }
}

/// The descriptors of a list of declared ports, in order.
pub open spec fn descriptors(params: Seq<Param>) -> Seq<PortDescriptor> {
    Seq::new(params.len(), |i: int| params[i]@)
}

impl Param {
    /// Starts the declaration of a stream input called `name`.
    pub fn input_stream(name: &str) -> (b: InputStreamBuilder)
        ensures
            b.name matches Some(n) && n@ == name@,
    {
        InputStreamBuilder::default().name(name)
    }

    /// Starts the declaration of a stream output called `name`.
    pub fn output_stream(name: &str) -> (b: OutputStreamBuilder)
        ensures
            b.name matches Some(n) && n@ == name@,
    {
        OutputStreamBuilder::default().name(name)
    }

    /// Starts the declaration of a scalar input called `name`; until set
    /// otherwise its default is zero and it cannot be changed live.
    pub fn scalar(name: &str) -> (b: ScalarParamBuilder)
        ensures
            b.name matches Some(n) && n@ == name@,
            b.initial_value is None,
            b.allow_updates is None,
    {
        ScalarParamBuilder::default().name(name)
    }
}

/// Collects the fields of a [`ScalarParam`]. A field that was never set takes
/// its default when the parameter is built; the name has none.
#[derive(Debug)]
pub struct ScalarParamBuilder {
    pub name: Option<String>,
    pub initial_value: Option<ScalarValue>,
    pub allow_updates: Option<bool>,
}

impl Default for ScalarParamBuilder {
    fn default() -> (b: ScalarParamBuilder)
        ensures
            b.name is None,
            b.initial_value is None,
            b.allow_updates is None,
    {
        ScalarParamBuilder { name: None, initial_value: None, allow_updates: None }
    }
}

impl ScalarParamBuilder {
    /// Sets the name.
    pub fn name(self, name: &str) -> (b: ScalarParamBuilder)
        ensures
            b.name matches Some(n) && n@ == name@,
            b.initial_value == self.initial_value,
            b.allow_updates == self.allow_updates,
    {
        ScalarParamBuilder {
            name: Some(name.to_owned()),
            initial_value: self.initial_value,
            allow_updates: self.allow_updates,
        }
    }

    /// Sets the default value.
    pub fn initial_value(self, value: ScalarValue) -> (b: ScalarParamBuilder)
        ensures
            b.name == self.name,
            b.initial_value == Some(value),
            b.allow_updates == self.allow_updates,
    {
        ScalarParamBuilder {
            name: self.name,
            initial_value: Some(value),
            allow_updates: self.allow_updates,
        }
    }

    /// Sets whether the value may be changed while the pipeline runs.
    pub fn allow_updates(self, allow: bool) -> (b: ScalarParamBuilder)
        ensures
            b.name == self.name,
            b.initial_value == self.initial_value,
            b.allow_updates == Some(allow),
    {
        ScalarParamBuilder {
            name: self.name,
            initial_value: self.initial_value,
            allow_updates: Some(allow),
        }
    }

    /// The descriptor that `build` produces.
    pub open spec fn built(&self) -> PortDescriptor
        recommends
            self.name is Some,
    {
        scalar_input(
            self.name->0@,
            match self.initial_value {
                Some(v) => v.bits,
                None => 0,
            },
            match self.allow_updates {
                Some(a) => a,
                None => false,
            },
        )
    }

    /// Builds the declared scalar input. The name must have been set.
    pub fn build(&self) -> (p: Param)
        requires
            self.name is Some,
        ensures
            p is Scalar,
            p@ == self.built(),
    {
        let name = match &self.name {
            Some(n) => n.clone(),
            None => String::new(),
        };
        let initial_value = match self.initial_value {
            Some(v) => v,
            None => ScalarValue::zero(),
        };
        let allow_updates = match self.allow_updates {
            Some(a) => a,
            None => false,
        };
        Param::Scalar(ScalarParam { name, initial_value, allow_updates })
    }
}

/// Collects the name of an [`InputStream`].
#[derive(Debug)]
pub struct InputStreamBuilder {
    pub name: Option<String>,
}

impl Default for InputStreamBuilder {
    fn default() -> (b: InputStreamBuilder)
        ensures
            b.name is None,
    {
        InputStreamBuilder { name: None }
    }
}

impl InputStreamBuilder {
    /// Sets the name.
    pub fn name(self, name: &str) -> (b: InputStreamBuilder)
        ensures
            b.name matches Some(n) && n@ == name@,
    {
        InputStreamBuilder { name: Some(name.to_owned()) }
    }

    /// Builds the declared stream input. The name must have been set.
    pub fn build(&self) -> (p: Param)
        requires
            self.name is Some,
        ensures
            p is InputStream,
            p@ == stream_input(self.name->0@),
    {
        let name = match &self.name {
            Some(n) => n.clone(),
            None => String::new(),
        };
        Param::InputStream(InputStream { name })
    }
}

/// Collects the name of an [`OutputStream`].
#[derive(Debug)]
pub struct OutputStreamBuilder {
    pub name: Option<String>,
}

impl Default for OutputStreamBuilder {
    fn default() -> (b: OutputStreamBuilder)
        ensures
            b.name is None,
    {
        OutputStreamBuilder { name: None }
    }
}

impl OutputStreamBuilder {
    /// Sets the name.
    pub fn name(self, name: &str) -> (b: OutputStreamBuilder)
        ensures
            b.name matches Some(n) && n@ == name@,
    {
        OutputStreamBuilder { name: Some(name.to_owned()) }
    }

    /// Builds the declared stream output. The name must have been set.
    pub fn build(&self) -> (p: Param)
        requires
            self.name is Some,
        ensures
            p is OutputStream,
            p@ == stream_output(self.name->0@),
    {
        let name = match &self.name {
            Some(n) => n.clone(),
            None => String::new(),
        };
        Param::OutputStream(OutputStream { name })
    }
}

} // verus!
