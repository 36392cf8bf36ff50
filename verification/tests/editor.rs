use esdr::blocks::ESDRBlockType;
use esdr::blocks::SoapySDRBlock;
use esdr::graph::ESDRGraph;
use esdr::graph::ESDRValueType;
use esdr::graph::NodeId;
use esdr::params::ESDRDataType;
use esdr::params::InputStream;
use esdr::params::OutputStream;
use esdr::params::ScalarParam;
use esdr::radio::start;
use esdr::radio::MessageCall;
use esdr::radio::Radio;
use esdr::ui::route;
use esdr::ui::toggle;
use esdr::ui::ESDRGraphState;
use esdr::ui::ESDRResponse;
use esdr::ui::RunAction;
use esdr::ui::UpdateScalarPayload;
use esdr::value::ScalarValue;
use futuresdr::runtime::BlockMetaBuilder;
use futuresdr::runtime::Kernel;
use futuresdr::runtime::MessageIo;
use futuresdr::runtime::MessageIoBuilder;
use futuresdr::runtime::Pmt;
use futuresdr::runtime::StreamIoBuilder;

struct Dial;

impl Kernel for Dial {}

fn turn<'a>(
    _dial: &'a mut Dial,
    _mio: &'a mut MessageIo<Dial>,
    _meta: &'a mut futuresdr::runtime::BlockMeta,
    p: Pmt,
) -> std::pin::Pin<Box<dyn std::future::Future<Output = anyhow::Result<Pmt>> + Send + 'a>> {
    Box::pin(async move { Ok(p) })
}

fn lone_tuner() -> (NodeId, Radio) {
    let mut graph = ESDRGraph::new();
    let kind = ESDRBlockType::SoapySDR(SoapySDRBlock {});
    let node = graph.add_node(kind.node_graph_label(), kind.user_data());
    kind.build_node(&mut graph, node);
    let unit = futuresdr::runtime::Block::new(
        BlockMetaBuilder::new("Dial").build(),
        StreamIoBuilder::new().add_output("out", 8).build(),
        MessageIoBuilder::<Dial>::new().add_input("freq", turn).build(),
        Dial,
    );
    let (_flowgraph, radio) = start(&graph, vec![unit]).expect("one tuner compiles");
    (node, radio)
}

fn updates(responses: &[ESDRResponse]) -> Vec<(NodeId, String, u64)> {
    responses
        .iter()
        .map(|r| match r {
            ESDRResponse::UpdateScalar(p) => (p.node_id, p.field.clone(), p.value.to_bits()),
        })
        .collect()
}

#[test]
fn data_types_have_their_colours_and_words() {
    assert_eq!(ESDRDataType::Stream.data_type_color(), (38, 109, 211));
    assert_eq!(ESDRDataType::Scalar.data_type_color(), (238, 207, 109));
    assert_eq!(ESDRDataType::Stream.name(), "stream");
    assert_eq!(ESDRDataType::Scalar.name(), "scalar");
    let _ = ESDRGraphState::default();
}

#[test]
fn scalar_widget_reports_a_change_once() {
    let param = ScalarParam {
        name: "freq".to_string(),
        initial_value: ScalarValue::from_bits(1),
        allow_updates: true,
    };
    let changed = param.widget(NodeId(3), ScalarValue::from_bits(9), true);
    assert_eq!(updates(&changed), vec![(NodeId(3), "freq".to_string(), 9)]);
    assert!(param.widget(NodeId(3), ScalarValue::from_bits(9), false).is_empty());
}

#[test]
fn stream_widgets_report_nothing() {
    assert!(InputStream { name: "in".to_string() }.widget(NodeId(0)).is_empty());
    assert!(OutputStream { name: "out".to_string() }.widget(NodeId(0)).is_empty());
}

#[test]
fn value_widget_takes_the_edit_and_reports_it() {
    let mut held = ESDRValueType::Scalar {
        node_id: NodeId(2),
        value: ScalarValue::from_bits(5),
        config: ScalarParam {
            name: "gain".to_string(),
            initial_value: ScalarValue::from_bits(5),
            allow_updates: false,
        },
    };
    assert!(held.value_widget(None).is_empty());
    let reported = held.value_widget(Some(ScalarValue::from_bits(8)));
    assert_eq!(updates(&reported), vec![(NodeId(2), "gain".to_string(), 8)]);
    match &held {
        ESDRValueType::Scalar { value, config, node_id } => {
            assert_eq!(value.to_bits(), 8);
            assert_eq!(config.initial_value.to_bits(), 5);
            assert_eq!(*node_id, NodeId(2));
        }
        other => panic!("not a constant: {:?}", other),
    }
    let mut stream = ESDRValueType::InputStream {
        node_id: NodeId(2),
        config: InputStream { name: "in".to_string() },
    };
    assert!(stream.value_widget(Some(ScalarValue::from_bits(8))).is_empty());
    assert!(matches!(stream, ESDRValueType::InputStream { .. }));
}

#[test]
fn reports_go_to_the_running_pipeline() {
    let (node, radio) = lone_tuner();
    let mut session = Some(radio);
    let report = |field: &str| {
        ESDRResponse::UpdateScalar(UpdateScalarPayload {
            node_id: node,
            field: field.to_string(),
            value: ScalarValue::from_bits(100_000_000.0f64.to_bits()),
        })
    };
    assert_eq!(
        route(&mut session, &report("freq")),
        Some(MessageCall {
            block_id: 0,
            port_id: 0,
            value: ScalarValue::from_bits(100_000_000.0f64.to_bits()),
            offset: 250_000,
        })
    );
    assert_eq!(route(&mut session, &report("gain")), None);
    assert!(session.is_some());
    let mut idle: Option<Radio> = None;
    assert_eq!(route(&mut idle, &report("freq")), None);
    assert!(idle.is_none());
}

#[test]
fn run_button_launches_or_stops_on_a_click_only() {
    assert_eq!(toggle(false, true), RunAction::Launch);
    assert_eq!(toggle(true, true), RunAction::Stop);
    assert_eq!(toggle(false, false), RunAction::Nothing);
    assert_eq!(toggle(true, false), RunAction::Nothing);
}

#[test]
fn report_of_a_declared_widget_is_routed_to_its_node() {
    let mut graph = ESDRGraph::new();
    let kind = ESDRBlockType::SoapySDR(SoapySDRBlock {});
    let first = graph.add_node(kind.node_graph_label(), kind.user_data());
    kind.build_node(&mut graph, first);
    let second = graph.add_node(kind.node_graph_label(), kind.user_data());
    kind.build_node(&mut graph, second);
    let dial = || {
        futuresdr::runtime::Block::new(
            BlockMetaBuilder::new("Dial").build(),
            StreamIoBuilder::new().add_output("out", 8).build(),
            MessageIoBuilder::<Dial>::new().add_input("freq", turn).build(),
            Dial,
        )
    };
    let (_flowgraph, radio) = start(&graph, vec![dial(), dial()]).expect("two tuners compile");
    let freq = graph.find_input(second, "freq").unwrap();
    let mut held = match &graph.get_input(freq).value {
        ESDRValueType::Scalar { node_id, value, config } => ESDRValueType::Scalar {
            node_id: *node_id,
            value: *value,
            config: config.clone(),
        },
        other => panic!("not a constant: {:?}", other),
    };
    let reports = held.value_widget(Some(ScalarValue::from_bits(77)));
    assert_eq!(updates(&reports), vec![(second, "freq".to_string(), 77)]);
    let mut session = Some(radio);
    let call = route(&mut session, &reports[0]).expect("the report is routed");
    assert_eq!(call.block_id, session.as_ref().unwrap().block_id(second).unwrap());
    assert_eq!(call.block_id, 1);
    assert_eq!(call.value, ScalarValue::from_bits(77));
}
