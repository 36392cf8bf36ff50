//! The catalogue of block kinds: what each is called and which ports it
//! declares.

use vstd::prelude::*;

use crate::consts::audio_intermediate_rate;
use crate::consts::intermediate_rate;
use crate::consts::AUDIO_MULT;
use crate::consts::AUDIO_RATE;
use crate::consts::FREQ_OFFSET;
use crate::consts::RATE;
use crate::graph::ESDRGraph;
use crate::graph::Node;
use crate::params::descriptors;
use crate::params::scalar_input;
use crate::params::stream_input;
use crate::params::stream_output;
use crate::params::ESDRDataType;
use crate::params::Param;
use crate::params::PortDescriptor;
use crate::value::ScalarValue;

verus! {

/// Default tuner frequency: 90.9 MHz.
pub const DEFAULT_FREQ: u64 = 0x4195_AC18_8000_0000;

/// Default tuner gain: 30.
pub const DEFAULT_GAIN: u64 = 0x403E_0000_0000_0000;

/// Default cutoff of the audio filter: 2 kHz.
pub const DEFAULT_CUTOFF: u64 = 0x409F_4000_0000_0000;

/// Default transition width of the audio filter: 10 kHz.
pub const DEFAULT_TRANSITION: u64 = 0x40C3_8800_0000_0000;

/// The tuner: samples from a software-defined radio.
#[derive(Clone, Copy, Default, PartialEq, Eq, Structural, Debug)]
pub struct SoapySDRBlock {}

/// The frequency shifter that undoes the tuner's offset.
#[derive(Clone, Copy, Default, PartialEq, Eq, Structural, Debug)]
pub struct ShiftBlock {}

/// The first resampler, from the tuner's rate to the intermediate rate.
#[derive(Clone, Copy, Default, PartialEq, Eq, Structural, Debug)]
pub struct Resamp1Block {}

/// The FM demodulator.
#[derive(Clone, Copy, Default, PartialEq, Eq, Structural, Debug)]
pub struct FMDemodulatorBlock {}

/// The filtering resampler, from the intermediate rate to the audio rate.
#[derive(Clone, Copy, Default, PartialEq, Eq, Structural, Debug)]
pub struct Resamp2Block {}

/// The audio sink.
#[derive(Clone, Copy, Default, PartialEq, Eq, Structural, Debug)]
pub struct AudioOutputBlock {}

/// The closed set of block kinds.
#[derive(Clone, Copy, PartialEq, Eq, Structural, Debug)]
pub enum ESDRBlockType {
    SoapySDR(SoapySDRBlock),
    Shift(ShiftBlock),
    Resamp1(Resamp1Block),
    FMDemodulator(FMDemodulatorBlock),
    Resamp2(Resamp2Block),
    AudioOutput(AudioOutputBlock),
}

impl ESDRBlockType {
    /// The name under which the kind is listed.
    pub open spec fn label(self) -> Seq<char> {
        match self {
            ESDRBlockType::SoapySDR(_) => "Soapy SDR"@,
            ESDRBlockType::Shift(_) => "Shift"@,
            ESDRBlockType::Resamp1(_) => "Resamp 1"@,
            ESDRBlockType::FMDemodulator(_) => "FM Demodulator"@,
            ESDRBlockType::Resamp2(_) => "Resamp 2"@,
            ESDRBlockType::AudioOutput(_) => "Audio Output"@,
        }
    }

    /// The ports the kind declares, in declaration order.
    pub open spec fn ports(self) -> Seq<PortDescriptor> {
        match self {
            ESDRBlockType::SoapySDR(_) => seq![
                stream_output("out"@),
                scalar_input("freq"@, DEFAULT_FREQ, true),
                scalar_input("gain"@, DEFAULT_GAIN, false),
            ],
            ESDRBlockType::Shift(_) => seq![stream_input("in"@), stream_output("out"@)],
            ESDRBlockType::Resamp1(_) => seq![stream_input("in"@), stream_output("out"@)],
            ESDRBlockType::FMDemodulator(_) => seq![stream_input("in"@), stream_output("out"@)],
            ESDRBlockType::Resamp2(_) => seq![
                stream_input("in"@),
                scalar_input("cutoff"@, DEFAULT_CUTOFF, false),
                scalar_input("transition"@, DEFAULT_TRANSITION, false),
                stream_output("out"@),
            ],
            ESDRBlockType::AudioOutput(_) => seq![stream_input("in"@)],
        }
    }

    /// What is added to a value of `field` before it is sent to a running
    /// unit of this kind: the tuner's frequency is set off by `FREQ_OFFSET`,
    /// every other field goes out as it is.
    pub open spec fn spec_live_offset(self, field: Seq<char>) -> u32 {
        if self is SoapySDR && field == "freq"@ {
            FREQ_OFFSET
        } else {
            0
        }
    }

    /// Computes the offset that a live update of `field` carries.
    pub fn live_offset(self, field: &str) -> (r: u32)
        ensures
            r == self.spec_live_offset(field@),
    {
        match self {
            ESDRBlockType::SoapySDR(_) => if same_text(field, "freq") {
                FREQ_OFFSET
            } else {
                0
            },
            _ => 0,
        }
    }
}

/// Whether two strings hold the same characters.
pub fn same_text(a: &str, b: &str) -> (r: bool)
    ensures
        r == (a@ == b@),
{
    let x = a.to_owned();
    let y = b.to_owned();
    x == y
}

/// What a node hands to the factory of its kind: the constants it holds.
pub struct ESDRBlockInput<'a> {
    pub graph: &'a ESDRGraph,
    pub node: &'a Node,
}

impl<'a> ESDRBlockInput<'a> {
    /// The node is a node of the graph, and the graph is well formed.
    pub open spec fn wf(&self) -> bool {
        &&& self.graph.wf()
        &&& self.node.id.0 < self.graph@.nodes.len()
        &&& *self.node == self.graph@.nodes[self.node.id.0 as int]
    }

    /// The constant that the node holds under `name`, if it holds one.
    pub open spec fn value(&self, name: Seq<char>) -> Option<ScalarValue> {
        self.graph@.scalar(self.node.id.0 as int, name)
    }

    /// Whether the node holds a constant for every scalar that `kind`
    /// declares.
    pub open spec fn provides(&self, kind: ESDRBlockType) -> bool {
        forall|j: int|
            0 <= j < kind.ports().len() && (#[trigger] kind.ports()[j]).kind
                == ESDRDataType::Scalar ==> self.value(kind.ports()[j].name) is Some
    }

    /// The input that a node of a graph hands to its factory.
    pub fn new(graph: &'a ESDRGraph, node: &'a Node) -> (r: ESDRBlockInput<'a>)
        ensures
            r.graph == graph,
            r.node == node,
    {
        ESDRBlockInput { graph, node }
    }

    /// Reads the constant held under `name`. The node must hold one: a
    /// factory asks only for the scalars that its kind declares.
    pub fn scalar(&self, name: &str) -> (r: ScalarValue)
        requires
            self.wf(),
            self.value(name@) is Some,
        ensures
            Some(r) == self.value(name@),
    {
        match self.graph.scalar_value(self.node.id, name) {
            Some(v) => v,
            None => ScalarValue::zero(),
        }
    }
}

/// What the factory of a kind is to build, in plain values. Frequencies and
/// rates are whole hertz; scalars are handed on as the node holds them.
#[derive(Clone, Copy, PartialEq, Eq, Structural, Debug)]
pub enum BlockPlan {
    /// A tuner set to `freq` plus `freq_offset`, sampling at `sample_rate`.
    SoapySDR { freq: ScalarValue, freq_offset: u32, sample_rate: u32, gain: ScalarValue },
    /// A shifter that moves the signal by `offset` at `sample_rate`.
    Shift { offset: u32, sample_rate: u32 },
    /// A resampler by the ratio `interp / decim`.
    Resamp1 { interp: u32, decim: u32 },
    /// A demodulator; it has nothing to configure.
    FMDemodulator,
    /// A low-pass filter with `cutoff` and `transition`, both relative to
    /// `sample_rate`, that resamples by `interp / decim`.
    Resamp2 {
        cutoff: ScalarValue,
        transition: ScalarValue,
        sample_rate: u32,
        interp: u32,
        decim: u32,
    },
    /// An audio sink of `channels` channels at `sample_rate`.
    AudioOutput { sample_rate: u32, channels: u16 },
}

impl ESDRBlockType {
    /// What the factory of this kind is to build from the constants of a
    /// node that holds all the scalars the kind declares.
    pub open spec fn plan(self, input: ESDRBlockInput) -> BlockPlan {
        match self {
            ESDRBlockType::SoapySDR(_) => BlockPlan::SoapySDR {
                freq: input.value("freq"@)->0,
                freq_offset: FREQ_OFFSET,
                sample_rate: RATE,
                gain: input.value("gain"@)->0,
            },
            ESDRBlockType::Shift(_) => BlockPlan::Shift { offset: FREQ_OFFSET, sample_rate: RATE },
            ESDRBlockType::Resamp1(_) => BlockPlan::Resamp1 {
                interp: intermediate_rate() as u32,
                decim: RATE,
            },
            ESDRBlockType::FMDemodulator(_) => BlockPlan::FMDemodulator,
            ESDRBlockType::Resamp2(_) => BlockPlan::Resamp2 {
                cutoff: input.value("cutoff"@)->0,
                transition: input.value("transition"@)->0,
                sample_rate: intermediate_rate() as u32,
                interp: 1,
                decim: AUDIO_MULT,
            },
            ESDRBlockType::AudioOutput(_) => BlockPlan::AudioOutput {
                sample_rate: AUDIO_RATE,
                channels: 1,
            },
        }
    }
}

/// What every block kind offers.
pub trait ESDRBlock: Sized {
    /// The kind that this value stands for.
    spec fn kind(self) -> ESDRBlockType;

    /// The name under which the kind is listed.
    fn name(self) -> (r: &'static str)
        ensures
            r@ == self.kind().label(),
    ;

    /// What the factory is to build for a node of this kind, from the
    /// constants that the node holds.
    fn block(self, input: ESDRBlockInput) -> (r: BlockPlan)
        requires
            input.wf(),
            input.provides(self.kind()),
        ensures
            r == self.kind().plan(input),
    ;

    /// The ports that the kind declares, in declaration order.
    fn params(self) -> (r: Vec<Param>)
        ensures
            descriptors(r@) == self.kind().ports(),
    ;
}

impl ESDRBlock for SoapySDRBlock {
    open spec fn kind(self) -> ESDRBlockType {
        ESDRBlockType::SoapySDR(self)
    }

    fn name(self) -> (r: &'static str) {
        "Soapy SDR"
    }

    fn block(self, input: ESDRBlockInput) -> (r: BlockPlan) {
        assert(self.kind().ports()[1].name == "freq"@);
        assert(self.kind().ports()[2].name == "gain"@);
        BlockPlan::SoapySDR {
            freq: input.scalar("freq"),
            freq_offset: FREQ_OFFSET,
            sample_rate: RATE,
            gain: input.scalar("gain"),
        }
    }

    fn params(self) -> (r: Vec<Param>) {
        let r = vec![
            Param::output_stream("out").build(),
            Param::scalar("freq").initial_value(ScalarValue::from_bits(DEFAULT_FREQ)).allow_updates(
                true,
            ).build(),
            Param::scalar("gain").initial_value(ScalarValue::from_bits(DEFAULT_GAIN)).build(),
        ];
        assert(descriptors(r@) =~= self.kind().ports());
        r
    }
}

impl ESDRBlock for ShiftBlock {
    open spec fn kind(self) -> ESDRBlockType {
        ESDRBlockType::Shift(self)
    }

    fn name(self) -> (r: &'static str) {
        "Shift"
    }

    fn block(self, _input: ESDRBlockInput) -> (r: BlockPlan) {
        BlockPlan::Shift { offset: FREQ_OFFSET, sample_rate: RATE }
    }

    fn params(self) -> (r: Vec<Param>) {
        let r = vec![Param::input_stream("in").build(), Param::output_stream("out").build()];
        assert(descriptors(r@) =~= self.kind().ports());
        r
    }
}

impl ESDRBlock for Resamp1Block {
    open spec fn kind(self) -> ESDRBlockType {
        ESDRBlockType::Resamp1(self)
    }

    fn name(self) -> (r: &'static str) {
        "Resamp 1"
    }

    fn block(self, _input: ESDRBlockInput) -> (r: BlockPlan) {
        let interp = audio_intermediate_rate();
        let decim = RATE;
        BlockPlan::Resamp1 { interp, decim }
    }

    fn params(self) -> (r: Vec<Param>) {
        let r = vec![Param::input_stream("in").build(), Param::output_stream("out").build()];
        assert(descriptors(r@) =~= self.kind().ports());
        r
    }
}

impl ESDRBlock for FMDemodulatorBlock {
    open spec fn kind(self) -> ESDRBlockType {
        ESDRBlockType::FMDemodulator(self)
    }

    fn name(self) -> (r: &'static str) {
        "FM Demodulator"
    }

    fn block(self, _input: ESDRBlockInput) -> (r: BlockPlan) {
        BlockPlan::FMDemodulator
    }

    fn params(self) -> (r: Vec<Param>) {
        let r = vec![Param::input_stream("in").build(), Param::output_stream("out").build()];
        assert(descriptors(r@) =~= self.kind().ports());
        r
    }
}

impl ESDRBlock for Resamp2Block {
    open spec fn kind(self) -> ESDRBlockType {
        ESDRBlockType::Resamp2(self)
    }

    fn name(self) -> (r: &'static str) {
        "Resamp 2"
    }

    fn block(self, input: ESDRBlockInput) -> (r: BlockPlan) {
        assert(self.kind().ports()[1].name == "cutoff"@);
        assert(self.kind().ports()[2].name == "transition"@);
        BlockPlan::Resamp2 {
            cutoff: input.scalar("cutoff"),
            transition: input.scalar("transition"),
            sample_rate: audio_intermediate_rate(),
            interp: 1,
            decim: AUDIO_MULT,
        }
    }

    fn params(self) -> (r: Vec<Param>) {
        let r = vec![
            Param::input_stream("in").build(),
            Param::scalar("cutoff").initial_value(ScalarValue::from_bits(DEFAULT_CUTOFF)).build(),
            Param::scalar("transition").initial_value(
                ScalarValue::from_bits(DEFAULT_TRANSITION),
            ).build(),
            Param::output_stream("out").build(),
        ];
        assert(descriptors(r@) =~= self.kind().ports());
        r
    }
}

impl ESDRBlock for AudioOutputBlock {
    open spec fn kind(self) -> ESDRBlockType {
        ESDRBlockType::AudioOutput(self)
    }

    fn name(self) -> (r: &'static str) {
        "Audio Output"
    }

    fn block(self, _input: ESDRBlockInput) -> (r: BlockPlan) {
        BlockPlan::AudioOutput { sample_rate: AUDIO_RATE, channels: 1 }
    }

    fn params(self) -> (r: Vec<Param>) {
        let r = vec![Param::input_stream("in").build()];
        assert(descriptors(r@) =~= self.kind().ports());
        r
    }
}

impl ESDRBlock for ESDRBlockType {
    open spec fn kind(self) -> ESDRBlockType {
        self
    }

    fn name(self) -> (r: &'static str) {
        match self {
            ESDRBlockType::SoapySDR(b) => b.name(),
            ESDRBlockType::Shift(b) => b.name(),
            ESDRBlockType::Resamp1(b) => b.name(),
            ESDRBlockType::FMDemodulator(b) => b.name(),
            ESDRBlockType::Resamp2(b) => b.name(),
            ESDRBlockType::AudioOutput(b) => b.name(),
        }
    }

    fn block(self, input: ESDRBlockInput) -> (r: BlockPlan) {
        match self {
            ESDRBlockType::SoapySDR(b) => b.block(input),
            ESDRBlockType::Shift(b) => b.block(input),
            ESDRBlockType::Resamp1(b) => b.block(input),
            ESDRBlockType::FMDemodulator(b) => b.block(input),
            ESDRBlockType::Resamp2(b) => b.block(input),
            ESDRBlockType::AudioOutput(b) => b.block(input),
        }
    }

    fn params(self) -> (r: Vec<Param>) {
        match self {
            ESDRBlockType::SoapySDR(b) => b.params(),
            ESDRBlockType::Shift(b) => b.params(),
            ESDRBlockType::Resamp1(b) => b.params(),
            ESDRBlockType::FMDemodulator(b) => b.params(),
            ESDRBlockType::Resamp2(b) => b.params(),
            ESDRBlockType::AudioOutput(b) => b.params(),
        }
    }
}

} // verus!
