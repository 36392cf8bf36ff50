use std::future::Future;
use std::pin::Pin;

use esdr::blocks::AudioOutputBlock;
use esdr::blocks::ESDRBlockType;
use esdr::blocks::ShiftBlock;
use esdr::blocks::SoapySDRBlock;
use esdr::graph::ESDRGraph;
use esdr::graph::ESDRValueType;
use esdr::graph::InputParamKind;
use esdr::graph::NodeId;
use esdr::params::ESDRDataType;
use esdr::params::InputStream;
use esdr::params::ScalarParam;
use esdr::radio::plans;
use esdr::radio::start;
use esdr::radio::LivePort;
use esdr::radio::RadioState;
use esdr::ui::AllESDRBlockTypes;
use esdr::validate::check_structure;
use esdr::validate::connection_misdrawn;
use esdr::validate::holds_constant;
use esdr::validate::node_lacks_input;
use esdr::validate::node_misbinds_input;
use esdr::validate::some_input_fed_twice;
use esdr::validate::CompileError;
use esdr::validate::Fault;
use esdr::value::ScalarValue;
use futuresdr::blocks::Apply;
use futuresdr::blocks::NullSink;
use futuresdr::blocks::NullSource;
use futuresdr::runtime::Block;
use futuresdr::runtime::BlockMeta;
use futuresdr::runtime::BlockMetaBuilder;
use futuresdr::runtime::Kernel;
use futuresdr::runtime::MessageIo;
use futuresdr::runtime::MessageIoBuilder;
use futuresdr::runtime::Pmt;
use futuresdr::runtime::StreamIoBuilder;

struct Tuner;

impl Kernel for Tuner {}

fn on_message<'a>(
    _tuner: &'a mut Tuner,
    _mio: &'a mut MessageIo<Tuner>,
    _meta: &'a mut BlockMeta,
    p: Pmt,
) -> Pin<Box<dyn Future<Output = anyhow::Result<Pmt>> + Send + 'a>> {
    Box::pin(async move { Ok(p) })
}

fn tuner() -> Block {
    Block::new(
        BlockMetaBuilder::new("Tuner").build(),
        StreamIoBuilder::new().add_output("out", 8).build(),
        MessageIoBuilder::<Tuner>::new()
            .add_input("gain", on_message)
            .add_input("freq", on_message)
            .build(),
        Tuner,
    )
}

fn wide_to_wide() -> Block {
    Apply::new(|v: &u64| *v)
}

fn wide_to_narrow() -> Block {
    Apply::new(|v: &u64| *v as u32)
}

fn narrow_to_narrow() -> Block {
    Apply::new(|v: &u32| *v)
}

fn sink() -> Block {
    NullSink::<u32>::new()
}

fn chain_units() -> Vec<Block> {
    vec![tuner(), wide_to_wide(), wide_to_wide(), wide_to_narrow(), narrow_to_narrow(), sink()]
}

fn place(graph: &mut ESDRGraph, kind: ESDRBlockType) -> NodeId {
    let id = graph.add_node(kind.node_graph_label(), kind.user_data());
    kind.build_node(graph, id);
    id
}

fn join(graph: &mut ESDRGraph, from: NodeId, to: NodeId) {
    let out = graph.nodes()[from.0].outputs[0];
    let feed = graph.find_input(to, "in").unwrap();
    assert!(graph.add_connection(out, feed));
}

fn chain() -> (ESDRGraph, Vec<NodeId>) {
    let mut graph = ESDRGraph::new();
    let mut nodes = Vec::new();
    for kind in AllESDRBlockTypes.all_kinds() {
        nodes.push(place(&mut graph, kind));
    }
    for i in 0..5 {
        join(&mut graph, nodes[i], nodes[i + 1]);
    }
    (graph, nodes)
}

fn fault_of(graph: &ESDRGraph, units: Vec<Block>) -> Fault {
    match start(graph, units) {
        Ok(_) => panic!("the graph compiled"),
        Err(e) => e.kind(),
    }
}

#[test]
fn chain_compiles_to_six_blocks_and_one_live_field() {
    let (graph, nodes) = chain();
    assert_eq!(graph.connections().len(), 5);
    let (_flowgraph, radio) = start(&graph, chain_units()).expect("the chain compiles");
    assert_eq!(radio.state(), RadioState::Running);
    assert_eq!(radio.block_count(), 6);
    let mut blocks: Vec<usize> = nodes.iter().map(|n| radio.block_id(*n).unwrap()).collect();
    assert_eq!(blocks, vec![0, 1, 2, 3, 4, 5]);
    blocks.sort();
    blocks.dedup();
    assert_eq!(blocks.len(), 6);
    assert_eq!(radio.block_id(NodeId(6)), None);

    assert_eq!(
        radio.live_port(nodes[0], "freq"),
        Some(LivePort { port_id: 1, offset: 250_000 })
    );
    let mut live = 0;
    for node in graph.nodes() {
        for input in &node.inputs {
            let name = &graph.get_input(*input).name;
            if radio.live_port(node.id, name).is_some() {
                live += 1;
                assert_eq!((node.id, name.as_str()), (nodes[0], "freq"));
            }
        }
    }
    assert_eq!(live, 1);
    assert_eq!(radio.live_port(nodes[0], "gain"), None);
    assert_eq!(radio.live_port(nodes[4], "cutoff"), None);
    assert_eq!(radio.live_port(nodes[1], "freq"), None);
}

#[test]
fn unconnected_stream_input_still_compiles() {
    let mut graph = ESDRGraph::new();
    let tuner_node = place(&mut graph, ESDRBlockType::SoapySDR(SoapySDRBlock {}));
    let shift = place(&mut graph, ESDRBlockType::Shift(ShiftBlock {}));
    let lonely = place(&mut graph, ESDRBlockType::AudioOutput(AudioOutputBlock {}));
    join(&mut graph, tuner_node, shift);
    assert!(check_structure(&graph).is_ok());
    let result = start(&graph, vec![tuner(), wide_to_wide(), sink()]);
    let (_flowgraph, radio) = result.expect("an open stream input is no fault");
    assert_eq!(radio.block_count(), 3);
    assert!(radio.block_id(lonely).is_some());
}

#[test]
fn empty_graph_compiles_to_nothing() {
    let graph = ESDRGraph::new();
    let (_flowgraph, radio) = start(&graph, Vec::new()).expect("nothing to refuse");
    assert_eq!(radio.block_count(), 0);
    assert_eq!(radio.block_id(NodeId(0)), None);
    assert_eq!(plans(&graph).unwrap().len(), 0);
}

#[test]
fn node_without_its_ports_lacks_required_input() {
    let (mut graph, _) = chain();
    let kind = ESDRBlockType::Shift(ShiftBlock {});
    let bare = graph.add_node(kind.node_graph_label(), kind.user_data());
    assert!(node_lacks_input(&graph, bare));
    assert!(!node_lacks_input(&graph, NodeId(0)));
    assert!(matches!(check_structure(&graph), Err(CompileError::MissingRequiredInput)));
    assert!(matches!(plans(&graph), Err(CompileError::MissingRequiredInput)));
    let mut units = chain_units();
    units.push(wide_to_wide());
    assert_eq!(fault_of(&graph, units), Fault::MissingRequiredInput);
}

#[test]
fn constant_in_place_of_stream_is_a_type_mismatch() {
    let (mut graph, _) = chain();
    let kind = ESDRBlockType::Shift(ShiftBlock {});
    let odd = graph.add_node(kind.node_graph_label(), kind.user_data());
    graph.add_input_param(
        odd,
        "in".to_string(),
        ESDRDataType::Scalar,
        ESDRValueType::Scalar {
            node_id: odd,
            value: ScalarValue::zero(),
            config: ScalarParam {
                name: "in".to_string(),
                initial_value: ScalarValue::zero(),
                allow_updates: false,
            },
        },
        InputParamKind::ConstantOnly,
        true,
    );
    assert!(!node_lacks_input(&graph, odd));
    assert!(node_misbinds_input(&graph, odd));
    assert!(!node_misbinds_input(&graph, NodeId(1)));
    assert!(matches!(check_structure(&graph), Err(CompileError::PortTypeMismatch)));
    let mut units = chain_units();
    units.push(wide_to_wide());
    assert_eq!(fault_of(&graph, units), Fault::PortTypeMismatch);
}

#[test]
fn stream_in_place_of_constant_is_a_type_mismatch() {
    let mut graph = ESDRGraph::new();
    let kind = ESDRBlockType::SoapySDR(SoapySDRBlock {});
    let odd = graph.add_node(kind.node_graph_label(), kind.user_data());
    for name in ["freq", "gain"] {
        graph.add_input_param(
            odd,
            name.to_string(),
            ESDRDataType::Stream,
            ESDRValueType::InputStream {
                node_id: odd,
                config: InputStream { name: name.to_string() },
            },
            InputParamKind::ConnectionOnly,
            true,
        );
    }
    assert!(node_misbinds_input(&graph, odd));
    assert_eq!(fault_of(&graph, vec![tuner()]), Fault::PortTypeMismatch);
}

#[test]
fn connection_into_a_constant_is_a_type_mismatch() {
    let (mut graph, nodes) = chain();
    let out = graph.nodes()[nodes[3].0].outputs[0];
    let cutoff = graph.find_input(nodes[4], "cutoff").unwrap();
    assert!(graph.add_connection(out, cutoff));
    assert!(!connection_misdrawn(&graph, 0));
    assert!(connection_misdrawn(&graph, 5));
    assert!(matches!(check_structure(&graph), Err(CompileError::PortTypeMismatch)));
    assert_eq!(fault_of(&graph, chain_units()), Fault::PortTypeMismatch);
}

#[test]
fn input_fed_twice_is_a_duplicate_connection() {
    let (mut graph, nodes) = chain();
    assert!(!some_input_fed_twice(&graph));
    join(&mut graph, nodes[0], nodes[2]);
    assert!(some_input_fed_twice(&graph));
    assert!(matches!(check_structure(&graph), Err(CompileError::DuplicateConnection)));
    assert!(matches!(plans(&graph), Err(CompileError::DuplicateConnection)));
    assert_eq!(fault_of(&graph, chain_units()), Fault::DuplicateConnection);
}

#[test]
fn missing_input_is_reported_before_other_faults() {
    let (mut graph, nodes) = chain();
    join(&mut graph, nodes[0], nodes[2]);
    let out = graph.nodes()[nodes[3].0].outputs[0];
    let cutoff = graph.find_input(nodes[4], "cutoff").unwrap();
    assert!(graph.add_connection(out, cutoff));
    assert_eq!(fault_of(&graph, chain_units()), Fault::PortTypeMismatch);
    let kind = ESDRBlockType::Shift(ShiftBlock {});
    graph.add_node(kind.node_graph_label(), kind.user_data());
    assert_eq!(fault_of(&graph, chain_units()), Fault::MissingRequiredInput);
}

#[test]
fn wrong_number_of_units_is_an_unknown_kind() {
    let (graph, _) = chain();
    let mut short = chain_units();
    short.pop();
    assert_eq!(fault_of(&graph, short), Fault::UnknownBlockKind);
    let mut long = chain_units();
    long.push(sink());
    assert_eq!(fault_of(&graph, long), Fault::UnknownBlockKind);
    assert!(matches!(start(&graph, Vec::new()), Err(CompileError::UnknownBlockKind)));
}

#[test]
fn unit_without_the_message_input_fails_resolution() {
    let (graph, _) = chain();
    let mut units = chain_units();
    units[0] = NullSource::<u64>::new();
    assert!(matches!(start(&graph, units), Err(CompileError::MessagePortResolutionFailure)));
}

#[test]
fn engine_refusal_is_a_connect_failure_with_its_words() {
    let (graph, _) = chain();
    let mut units = chain_units();
    units[1] = narrow_to_narrow();
    match start(&graph, units) {
        Err(CompileError::EngineConnectFailure(reason)) => {
            assert_eq!(reason, "item sizes do not match")
        }
        other => panic!("expected a refusal, got {:?}", other.map(|_| ())),
    }
    let mut units = chain_units();
    units[5] = tuner();
    match start(&graph, units) {
        Err(CompileError::EngineConnectFailure(reason)) => {
            assert_eq!(reason, "invalid dst port name")
        }
        other => panic!("expected a refusal, got {:?}", other.map(|_| ())),
    }
}

#[test]
fn refusal_comes_with_the_words_for_the_first_refused_connection() {
    let (graph, _) = chain();
    let mut units = chain_units();
    units[1] = NullSink::<u64>::new();
    units[4] = wide_to_wide();
    match start(&graph, units) {
        Err(CompileError::EngineConnectFailure(reason)) => {
            assert_eq!(reason, "invalid src port name")
        }
        other => panic!("expected a refusal, got {:?}", other.map(|_| ())),
    }
    let mut units = chain_units();
    units[2] = NullSource::<u64>::new();
    units[4] = wide_to_wide();
    match start(&graph, units) {
        Err(CompileError::EngineConnectFailure(reason)) => {
            assert_eq!(reason, "invalid dst port name")
        }
        other => panic!("expected a refusal, got {:?}", other.map(|_| ())),
    }
}

#[test]
fn resolution_failure_is_reported_before_a_refusal() {
    let (graph, _) = chain();
    let mut units = chain_units();
    units[0] = NullSource::<u64>::new();
    units[1] = narrow_to_narrow();
    assert_eq!(fault_of(&graph, units), Fault::MessagePortResolutionFailure);
}

#[test]
fn plans_go_with_the_nodes() {
    let (graph, _) = chain();
    let list = plans(&graph).expect("the chain is sound");
    assert_eq!(list.len(), 6);
    assert!(matches!(list[0], esdr::blocks::BlockPlan::SoapySDR { .. }));
    assert!(matches!(list[5], esdr::blocks::BlockPlan::AudioOutput { .. }));
}

#[test]
fn holds_constant_tells_the_variants_apart() {
    let (graph, _) = chain();
    let freq = graph.find_input(NodeId(0), "freq").unwrap();
    let feed = graph.find_input(NodeId(1), "in").unwrap();
    assert!(holds_constant(&graph.get_input(freq).value));
    assert!(!holds_constant(&graph.get_input(feed).value));
}

#[test]
fn error_kinds_match_their_variants() {
    assert_eq!(CompileError::UnknownBlockKind.kind(), Fault::UnknownBlockKind);
    assert_eq!(CompileError::MissingRequiredInput.kind(), Fault::MissingRequiredInput);
    assert_eq!(CompileError::PortTypeMismatch.kind(), Fault::PortTypeMismatch);
    assert_eq!(CompileError::DuplicateConnection.kind(), Fault::DuplicateConnection);
    assert_eq!(
        CompileError::EngineConnectFailure("no".to_string()).kind(),
        Fault::EngineConnectFailure
    );
    assert_eq!(
        CompileError::MessagePortResolutionFailure.kind(),
        Fault::MessagePortResolutionFailure
    );
}
