use esdr::blocks::ESDRBlockType;
use esdr::blocks::Resamp2Block;
use esdr::blocks::ShiftBlock;
use esdr::blocks::SoapySDRBlock;
use esdr::graph::ESDRGraph;
use esdr::graph::ESDRValueType;
use esdr::graph::InputId;
use esdr::graph::InputParamKind;
use esdr::graph::NodeId;
use esdr::graph::OutputId;
use esdr::params::ESDRDataType;
use esdr::params::InputStream;
use esdr::params::OutputStream;
use esdr::params::ParamTrait;
use esdr::params::ScalarParam;
use esdr::value::ScalarValue;

fn place(graph: &mut ESDRGraph, kind: ESDRBlockType) -> NodeId {
    let id = graph.add_node(kind.node_graph_label(), kind.user_data());
    kind.build_node(graph, id);
    id
}

#[test]
fn empty_graph_has_nothing() {
    let graph = ESDRGraph::new();
    assert!(graph.nodes().is_empty());
    assert!(graph.connections().is_empty());
    assert_eq!(graph.input_count(), 0);
    assert_eq!(graph.output_count(), 0);
}

#[test]
fn handles_are_positions() {
    let mut graph = ESDRGraph::new();
    let kind = ESDRBlockType::Shift(ShiftBlock {});
    let a = graph.add_node("first".to_string(), kind.user_data());
    let b = graph.add_node("second".to_string(), kind.user_data());
    assert_eq!(a, NodeId(0));
    assert_eq!(b, NodeId(1));
    assert_eq!(graph.nodes()[1].label, "second");
    assert_eq!(graph.nodes()[1].id, b);
    assert_eq!(graph.nodes()[0].user_data.block_type, kind);
    assert!(graph.nodes()[0].inputs.is_empty());
    assert!(graph.nodes()[0].outputs.is_empty());
}

#[test]
fn build_node_adds_declared_ports_in_order() {
    let mut graph = ESDRGraph::new();
    let tuner = place(&mut graph, ESDRBlockType::SoapySDR(SoapySDRBlock {}));
    let filter = place(&mut graph, ESDRBlockType::Resamp2(Resamp2Block {}));
    assert_eq!(graph.nodes()[tuner.0].inputs, vec![InputId(0), InputId(1)]);
    assert_eq!(graph.nodes()[tuner.0].outputs, vec![OutputId(0)]);
    assert_eq!(graph.nodes()[filter.0].inputs, vec![InputId(2), InputId(3), InputId(4)]);
    assert_eq!(graph.nodes()[filter.0].outputs, vec![OutputId(1)]);
    let names: Vec<String> =
        (0..5).map(|i| graph.get_input(InputId(i)).name.clone()).collect();
    assert_eq!(names, vec!["freq", "gain", "in", "cutoff", "transition"]);
    assert_eq!(graph.get_output(OutputId(1)).name, "out");
    assert_eq!(graph.get_output(OutputId(1)).node, filter);
    assert_eq!(graph.get_output(OutputId(1)).typ, ESDRDataType::Stream);

    let freq = graph.get_input(InputId(0));
    assert_eq!(freq.node, tuner);
    assert_eq!(freq.typ, ESDRDataType::Scalar);
    assert_eq!(freq.kind, InputParamKind::ConstantOnly);
    assert!(freq.value.allows_updates());
    match &freq.value {
        ESDRValueType::Scalar { node_id, value, config } => {
            assert_eq!(*node_id, tuner);
            assert_eq!(f64::from_bits(value.to_bits()), 90_900_000.0);
            assert_eq!(config.name, "freq");
        }
        other => panic!("not a constant: {:?}", other),
    }
    let stream = graph.get_input(InputId(2));
    assert_eq!(stream.typ, ESDRDataType::Stream);
    assert_eq!(stream.kind, InputParamKind::ConnectionOnly);
    assert!(!stream.value.allows_updates());
    assert!(matches!(stream.value, ESDRValueType::InputStream { .. }));
}

#[test]
fn add_param_puts_one_port_on_the_node() {
    let mut graph = ESDRGraph::new();
    let kind = ESDRBlockType::Shift(ShiftBlock {});
    let node = graph.add_node("bare".to_string(), kind.user_data());
    ScalarParam {
        name: "level".to_string(),
        initial_value: ScalarValue::from_bits(7),
        allow_updates: true,
    }
    .add_param(&mut graph, node);
    InputStream { name: "feed".to_string() }.add_param(&mut graph, node);
    OutputStream { name: "tap".to_string() }.add_param(&mut graph, node);
    assert_eq!(graph.input_count(), 2);
    assert_eq!(graph.output_count(), 1);
    assert_eq!(graph.scalar_value(node, "level"), Some(ScalarValue::from_bits(7)));
    assert_eq!(graph.find_input(node, "feed"), Some(InputId(1)));
    assert_eq!(graph.get_output(OutputId(0)).name, "tap");
}

#[test]
fn lookup_finds_the_first_input_of_a_name() {
    let mut graph = ESDRGraph::new();
    let tuner = place(&mut graph, ESDRBlockType::SoapySDR(SoapySDRBlock {}));
    let shift = place(&mut graph, ESDRBlockType::Shift(ShiftBlock {}));
    assert_eq!(graph.find_input(tuner, "freq"), Some(InputId(0)));
    assert_eq!(graph.find_input(tuner, "gain"), Some(InputId(1)));
    assert_eq!(graph.find_input(tuner, "in"), None);
    assert_eq!(graph.find_input(shift, "in"), Some(InputId(2)));
    assert_eq!(graph.find_input(shift, "freq"), None);
    let twin = graph.add_input_param(
        tuner,
        "gain".to_string(),
        ESDRDataType::Scalar,
        ESDRValueType::Scalar {
            node_id: tuner,
            value: ScalarValue::from_bits(1),
            config: ScalarParam {
                name: "gain".to_string(),
                initial_value: ScalarValue::from_bits(1),
                allow_updates: false,
            },
        },
        InputParamKind::ConstantOnly,
        true,
    );
    assert_eq!(twin, InputId(3));
    assert_eq!(graph.find_input(tuner, "gain"), Some(InputId(1)));
}

#[test]
fn scalar_value_reads_constants_only() {
    let mut graph = ESDRGraph::new();
    let tuner = place(&mut graph, ESDRBlockType::SoapySDR(SoapySDRBlock {}));
    let shift = place(&mut graph, ESDRBlockType::Shift(ShiftBlock {}));
    assert_eq!(
        graph.scalar_value(tuner, "gain"),
        Some(ScalarValue::from_bits(30.0f64.to_bits()))
    );
    assert_eq!(graph.scalar_value(tuner, "none"), None);
    assert_eq!(graph.scalar_value(shift, "in"), None);
}

#[test]
fn set_scalar_changes_constants_only() {
    let mut graph = ESDRGraph::new();
    let tuner = place(&mut graph, ESDRBlockType::SoapySDR(SoapySDRBlock {}));
    let shift = place(&mut graph, ESDRBlockType::Shift(ShiftBlock {}));
    let gain = graph.find_input(tuner, "gain").unwrap();
    let feed = graph.find_input(shift, "in").unwrap();
    assert!(graph.set_scalar(gain, ScalarValue::from_bits(12.5f64.to_bits())));
    assert_eq!(
        graph.scalar_value(tuner, "gain"),
        Some(ScalarValue::from_bits(12.5f64.to_bits()))
    );
    assert_eq!(
        graph.scalar_value(tuner, "freq"),
        Some(ScalarValue::from_bits(90_900_000.0f64.to_bits()))
    );
    assert!(!graph.get_input(gain).value.allows_updates());
    assert!(!graph.set_scalar(feed, ScalarValue::from_bits(1)));
    assert!(!graph.set_scalar(InputId(99), ScalarValue::from_bits(1)));
    assert!(matches!(graph.get_input(feed).value, ESDRValueType::InputStream { .. }));
}

#[test]
fn connections_need_both_ends() {
    let mut graph = ESDRGraph::new();
    let tuner = place(&mut graph, ESDRBlockType::SoapySDR(SoapySDRBlock {}));
    let shift = place(&mut graph, ESDRBlockType::Shift(ShiftBlock {}));
    let out = graph.nodes()[tuner.0].outputs[0];
    let feed = graph.find_input(shift, "in").unwrap();
    assert!(!graph.add_connection(OutputId(9), feed));
    assert!(!graph.add_connection(out, InputId(9)));
    assert!(graph.connections().is_empty());
    assert!(graph.add_connection(out, feed));
    assert!(graph.add_connection(out, feed));
    assert_eq!(graph.connections(), &vec![(feed, out), (feed, out)]);
}

#[test]
fn values_remember_their_node_and_declaration() {
    let mut graph = ESDRGraph::new();
    let shift = place(&mut graph, ESDRBlockType::Shift(ShiftBlock {}));
    let tuner = place(&mut graph, ESDRBlockType::SoapySDR(SoapySDRBlock {}));
    let filter = place(&mut graph, ESDRBlockType::Resamp2(Resamp2Block {}));
    for node in [shift, tuner, filter] {
        assert_eq!(graph.nodes()[node.0].label, graph.nodes()[node.0].user_data.block_type.node_graph_label());
        for id in graph.nodes()[node.0].inputs.clone() {
            let input = graph.get_input(id);
            assert_eq!(input.node, node);
            assert!(input.shown_inline);
            match &input.value {
                ESDRValueType::Scalar { node_id, value, config } => {
                    assert_eq!(*node_id, node);
                    assert_eq!(config.name, input.name);
                    assert_eq!(config.initial_value, *value);
                    assert_eq!(config.allow_updates, input.name == "freq");
                }
                ESDRValueType::InputStream { node_id, config } => {
                    assert_eq!(*node_id, node);
                    assert_eq!(config.name, input.name);
                }
            }
        }
        for id in graph.nodes()[node.0].outputs.clone() {
            assert_eq!(graph.get_output(id).node, node);
        }
    }
    let gain = graph.find_input(tuner, "gain").unwrap();
    assert!(graph.set_scalar(gain, ScalarValue::from_bits(3)));
    match &graph.get_input(gain).value {
        ESDRValueType::Scalar { node_id, value, config } => {
            assert_eq!(*node_id, tuner);
            assert_eq!(value.to_bits(), 3);
            assert_eq!(config.name, "gain");
            assert_eq!(f64::from_bits(config.initial_value.to_bits()), 30.0);
        }
        other => panic!("not a constant: {:?}", other),
    }
}
