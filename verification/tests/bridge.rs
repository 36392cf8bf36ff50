use std::future::Future;
use std::pin::Pin;
use std::sync::Arc;
use std::sync::Mutex;
use std::time::Duration;
use std::time::Instant;

use esdr::blocks::BlockPlan;
use esdr::consts::FREQ_OFFSET;
use esdr::graph::ESDRGraph;
use esdr::graph::NodeId;
use esdr::radio::plans;
use esdr::radio::start;
use esdr::radio::MessageCall;
use esdr::radio::Radio;
use esdr::radio::RadioState;
use esdr::radio::RuntimeCallError;
use esdr::ui::AllESDRBlockTypes;
use esdr::value::ScalarValue;
use futuresdr::async_io::block_on;
use futuresdr::blocks::Apply;
use futuresdr::blocks::NullSink;
use futuresdr::runtime::Block;
use futuresdr::runtime::BlockMeta;
use futuresdr::runtime::BlockMetaBuilder;
use futuresdr::runtime::Flowgraph;
use futuresdr::runtime::Kernel;
use futuresdr::runtime::MessageIo;
use futuresdr::runtime::MessageIoBuilder;
use futuresdr::runtime::Pmt;
use futuresdr::runtime::Runtime;
use futuresdr::runtime::StreamIoBuilder;

struct Recorder {
    seen: Arc<Mutex<Vec<f64>>>,
}

impl Kernel for Recorder {}

fn record<'a>(
    recorder: &'a mut Recorder,
    _mio: &'a mut MessageIo<Recorder>,
    _meta: &'a mut BlockMeta,
    p: Pmt,
) -> Pin<Box<dyn Future<Output = anyhow::Result<Pmt>> + Send + 'a>> {
    Box::pin(async move {
        if let Pmt::F64(v) = &p {
            recorder.seen.lock().unwrap().push(*v);
        }
        Ok(p)
    })
}

fn recording_tuner(seen: Arc<Mutex<Vec<f64>>>) -> Block {
    Block::new(
        BlockMetaBuilder::new("Tuner").build(),
        StreamIoBuilder::new().add_output("out", 8).build(),
        MessageIoBuilder::<Recorder>::new().add_input("freq", record).build(),
        Recorder { seen },
    )
}

fn scalar(number: f64) -> ScalarValue {
    ScalarValue::from_bits(number.to_bits())
}

fn compiled_chain(seen: Arc<Mutex<Vec<f64>>>) -> (ESDRGraph, Vec<NodeId>, Flowgraph, Radio) {
    let mut graph = ESDRGraph::new();
    let mut nodes = Vec::new();
    for kind in AllESDRBlockTypes.all_kinds() {
        let id = graph.add_node(kind.node_graph_label(), kind.user_data());
        kind.build_node(&mut graph, id);
        nodes.push(id);
    }
    for i in 0..5 {
        let out = graph.nodes()[nodes[i].0].outputs[0];
        let feed = graph.find_input(nodes[i + 1], "in").unwrap();
        assert!(graph.add_connection(out, feed));
    }
    let units = vec![
        recording_tuner(seen),
        Apply::new(|v: &u64| *v),
        Apply::new(|v: &u64| *v),
        Apply::new(|v: &u64| *v as u32),
        Apply::new(|v: &u32| *v),
        NullSink::<u32>::new(),
    ];
    let (flowgraph, radio) = start(&graph, units).expect("the chain compiles");
    (graph, nodes, flowgraph, radio)
}

fn running_radio() -> (Vec<NodeId>, Radio) {
    let (_graph, nodes, _flowgraph, radio) = compiled_chain(Arc::new(Mutex::new(Vec::new())));
    (nodes, radio)
}

#[test]
fn retune_is_one_call_with_the_offset_of_the_build() {
    let (graph, nodes, _flowgraph, mut radio) = compiled_chain(Arc::new(Mutex::new(Vec::new())));
    let call = radio
        .update_scalar(nodes[0], "freq", scalar(100_000_000.0))
        .expect("the frequency is live");
    assert_eq!(
        call,
        MessageCall {
            block_id: radio.block_id(nodes[0]).unwrap(),
            port_id: 0,
            value: scalar(100_000_000.0),
            offset: 250_000,
        }
    );
    assert_eq!(f64::from_bits(call.value.to_bits()) + call.offset as f64, 100_250_000.0);
    match plans(&graph).unwrap()[0] {
        BlockPlan::SoapySDR { freq_offset, .. } => {
            assert_eq!(freq_offset, call.offset);
            assert_eq!(freq_offset, FREQ_OFFSET);
        }
        other => panic!("not a tuner: {:?}", other),
    }
    assert_eq!(radio.state(), RadioState::Running);
}

#[test]
fn retune_reaches_the_running_engine_once() {
    let seen = Arc::new(Mutex::new(Vec::new()));
    let (_graph, nodes, flowgraph, mut radio) = compiled_chain(seen.clone());
    let runtime = Runtime::new();
    let (task, mut handle) = block_on(runtime.start(flowgraph));

    assert_eq!(radio.update_scalar(nodes[0], "gain", scalar(10.0)), None);
    let call = radio.update_scalar(nodes[0], "freq", scalar(100_000_000.0)).unwrap();
    let value = f64::from_bits(call.value.to_bits()) + call.offset as f64;
    let sent = block_on(handle.call(call.block_id, call.port_id, Pmt::F64(value)));
    assert!(radio.update_done(sent.map_err(|e| e.to_string())).is_ok());

    let deadline = Instant::now() + Duration::from_secs(10);
    while seen.lock().unwrap().is_empty() && Instant::now() < deadline {
        block_on(futuresdr::async_io::Timer::after(Duration::from_millis(10)));
    }
    assert_eq!(*seen.lock().unwrap(), vec![100_250_000.0]);

    assert!(radio.stop());
    let ended = block_on(async {
        handle.terminate().await?;
        task.await.map(|_| ())
    });
    let _ = radio.stopped(ended.map_err(|e| e.to_string()));
    assert_eq!(radio.state(), RadioState::Stopped);
    assert!(!radio.stop());
    assert_eq!(radio.update_scalar(nodes[0], "freq", scalar(1.0)), None);
    assert_eq!(*seen.lock().unwrap(), vec![100_250_000.0]);
}

#[test]
fn update_of_a_fixed_field_does_nothing() {
    let (nodes, mut radio) = running_radio();
    assert_eq!(radio.update_scalar(nodes[0], "gain", scalar(10.0)), None);
    assert_eq!(radio.update_scalar(nodes[4], "cutoff", scalar(10.0)), None);
    assert_eq!(radio.update_scalar(nodes[4], "transition", scalar(10.0)), None);
    assert_eq!(radio.update_scalar(nodes[1], "in", scalar(10.0)), None);
    assert_eq!(radio.update_scalar(nodes[1], "freq", scalar(10.0)), None);
    assert_eq!(radio.update_scalar(nodes[0], "", scalar(10.0)), None);
    assert_eq!(radio.state(), RadioState::Running);
    assert!(radio.update_scalar(nodes[0], "freq", scalar(10.0)).is_some());
}

#[test]
fn update_of_an_unknown_node_does_nothing() {
    let (_, mut radio) = running_radio();
    assert_eq!(radio.update_scalar(NodeId(6), "freq", scalar(10.0)), None);
    assert_eq!(radio.update_scalar(NodeId(usize::MAX), "freq", scalar(10.0)), None);
    assert_eq!(radio.state(), RadioState::Running);
}

#[test]
fn update_after_stop_does_nothing() {
    let (nodes, mut radio) = running_radio();
    assert!(radio.update_scalar(nodes[0], "freq", scalar(10.0)).is_some());
    assert!(radio.stop());
    assert_eq!(radio.state(), RadioState::Stopping);
    assert_eq!(radio.update_scalar(nodes[0], "freq", scalar(10.0)), None);
    assert!(radio.stopped(Ok(())).is_ok());
    assert_eq!(radio.state(), RadioState::Stopped);
    assert_eq!(radio.update_scalar(nodes[0], "freq", scalar(10.0)), None);
    assert_eq!(radio.live_port(nodes[0], "freq").map(|p| p.offset), Some(250_000));
}

#[test]
fn stop_asks_for_termination_once() {
    let (_, mut radio) = running_radio();
    assert!(radio.stop());
    assert!(!radio.stop());
    assert_eq!(radio.state(), RadioState::Stopping);
    assert!(radio.stopped(Ok(())).is_ok());
    assert!(!radio.stop());
    assert!(radio.stopped(Ok(())).is_ok());
    assert!(radio.stopped(Err("late".to_string())).is_ok());
    assert_eq!(radio.state(), RadioState::Stopped);
    assert_eq!(radio.block_count(), 6);
}

#[test]
fn completion_without_a_stop_request_changes_nothing() {
    let (nodes, mut radio) = running_radio();
    assert!(radio.stopped(Err("nobody asked".to_string())).is_ok());
    assert_eq!(radio.state(), RadioState::Running);
    assert!(radio.update_scalar(nodes[0], "freq", scalar(10.0)).is_some());
}

#[test]
fn failed_shutdown_still_stops_and_is_reported() {
    let (_, mut radio) = running_radio();
    assert!(radio.stop());
    match radio.stopped(Err("Flowgraph was terminated".to_string())) {
        Err(RuntimeCallError::TerminateFailed(reason)) => {
            assert_eq!(reason, "Flowgraph was terminated")
        }
        other => panic!("expected a report, got {:?}", other),
    }
    assert_eq!(radio.state(), RadioState::Stopped);
}

#[test]
fn failed_update_is_reported_and_the_pipeline_keeps_running() {
    let (nodes, mut radio) = running_radio();
    assert!(radio.update_done(Ok(())).is_ok());
    match radio.update_done(Err("send failed".to_string())) {
        Err(RuntimeCallError::CallFailed(reason)) => assert_eq!(reason, "send failed"),
        other => panic!("expected a report, got {:?}", other),
    }
    assert_eq!(radio.state(), RadioState::Running);
    assert!(radio.update_scalar(nodes[0], "freq", scalar(10.0)).is_some());
}

#[test]
fn update_hands_the_value_on_unchanged() {
    let (nodes, mut radio) = running_radio();
    for number in [0.0, -1.5, 87.5e6, f64::MAX, f64::INFINITY] {
        let call = radio.update_scalar(nodes[0], "freq", scalar(number)).unwrap();
        assert_eq!(call.value, scalar(number));
        assert_eq!(call.offset, 250_000);
    }
    let nan = ScalarValue::from_bits(f64::NAN.to_bits());
    assert_eq!(radio.update_scalar(nodes[0], "freq", nan).unwrap().value, nan);
}
