//! The execution engine, as far as the compiler uses it: processing units,
//! the flowgraph that collects them, and the calls that fill it.
//!
//! Nothing in this file is proved. Each function below makes one call into
//! the engine, and its contract is what the engine's source shows of that
//! call, stated over the names declared here.

use vstd::multiset::Multiset;
use vstd::prelude::*;

use futuresdr::runtime::Block;
use futuresdr::runtime::Flowgraph;

verus! {

/// `futuresdr::runtime::Flowgraph`: the blocks registered so far and the
/// stream connections between them.
#[verifier::external_type_specification]
#[verifier::external_body]
pub struct ExFlowgraph(futuresdr::runtime::Flowgraph);

/// `futuresdr::runtime::Block`: one processing unit with its ports.
#[verifier::external_type_specification]
#[verifier::external_body]
pub struct ExBlock(futuresdr::runtime::Block);

/// `anyhow::Error`: what the engine hands back when a call fails.
#[verifier::external_type_specification]
#[verifier::external_body]
pub struct ExError(anyhow::Error);

/// The message inputs of a block: each name with the id of the first message
/// input that carries it.
pub uninterp spec fn message_inputs(block: Block) -> Map<Seq<char>, usize>;

/// The stream inputs of a block: each name with the index and the item
/// size, in bytes, of the first stream input that carries it.
pub uninterp spec fn stream_inputs(block: Block) -> Map<Seq<char>, (usize, usize)>;

/// The stream outputs of a block: each name with the index and the item
/// size, in bytes, of the first stream output that carries it.
pub uninterp spec fn stream_outputs(block: Block) -> Map<Seq<char>, (usize, usize)>;

/// The blocks that a flowgraph holds: each id with the stream inputs and the
/// stream outputs of the block registered under it.
pub uninterp spec fn registered(fg: Flowgraph) -> Map<
    usize,
    (Map<Seq<char>, (usize, usize)>, Map<Seq<char>, (usize, usize)>),
>;

/// The stream connections that a flowgraph holds, each as the id of the
/// block it leaves, the index of the stream output it leaves by, the id of
/// the block it enters, and the index of the stream input it enters by.
pub uninterp spec fn links(fg: Flowgraph) -> Multiset<(usize, usize, usize, usize)>;

/// The words of an error: what its `Display` writes.
pub uninterp spec fn words(error: anyhow::Error) -> Seq<char>;

/// The engine's words for refusing a stream connection between two
/// registered blocks, given the stream outputs of the source and the stream
/// inputs of the destination: the source port is looked up first, then the
/// destination port, then the item sizes are compared.
pub open spec fn refusal_words(
    outputs: Map<Seq<char>, (usize, usize)>,
    src_port: Seq<char>,
    inputs: Map<Seq<char>, (usize, usize)>,
    dst_port: Seq<char>,
) -> Seq<char> {
    if !outputs.contains_key(src_port) {
        "invalid src port name"@
    } else if !inputs.contains_key(dst_port) {
        "invalid dst port name"@
    } else {
        "item sizes do not match"@
    }
}

/// The index of a stream port, of what a block's port map holds for a name.
pub open spec fn port_index(port: (usize, usize)) -> usize {
    port.0
}

/// The item size of a stream port, in bytes, of what a block's port map
/// holds for a name.
pub open spec fn item_size(port: (usize, usize)) -> usize {
    port.1
}

/// Whether the engine accepts a stream connection between two ports, given
/// the blocks it holds: both blocks are registered, the source has a stream
/// output and the destination a stream input of the given names, and the two
/// ports carry items of one size.
pub open spec fn can_connect(
    blocks: Map<usize, (Map<Seq<char>, (usize, usize)>, Map<Seq<char>, (usize, usize)>)>,
    src: usize,
    src_port: Seq<char>,
    dst: usize,
    dst_port: Seq<char>,
) -> bool {
    &&& blocks.contains_key(src)
    &&& blocks.contains_key(dst)
    &&& blocks[src].1.contains_key(src_port)
    &&& blocks[dst].0.contains_key(dst_port)
    &&& item_size(blocks[src].1[src_port]) == item_size(blocks[dst].0[dst_port])
}

/// The connection that the engine makes between two ports, given the blocks
/// it holds: from the source block by the output of that name to the
/// destination block by the input of that name.
pub open spec fn link_between(
    blocks: Map<usize, (Map<Seq<char>, (usize, usize)>, Map<Seq<char>, (usize, usize)>)>,
    src: usize,
    src_port: Seq<char>,
    dst: usize,
    dst_port: Seq<char>,
) -> (usize, usize, usize, usize) {
    (src, port_index(blocks[src].1[src_port]), dst, port_index(blocks[dst].0[dst_port]))
}

/// `Flowgraph::new`: a flowgraph without blocks and without connections.
#[verifier::external_body]
pub(crate) fn new_flowgraph() -> (fg: Flowgraph)
    ensures
        registered(fg).dom() == Set::<usize>::empty(),
        links(fg) == Multiset::<(usize, usize, usize, usize)>::empty(),
{
    Flowgraph::new()
}

/// `Flowgraph::add_block`: the block is registered under an id that no block
/// of the flowgraph has, with the stream ports it came with; the blocks
/// already there and the connections stay as they are.
#[verifier::external_body]
pub(crate) fn add_block(fg: &mut Flowgraph, block: Block) -> (id: usize)
    ensures
        !registered(*old(fg)).contains_key(id),
        registered(*final(fg)) == registered(*old(fg)).insert(
            id,
            (stream_inputs(block), stream_outputs(block)),
        ),
        links(*final(fg)) == links(*old(fg)),
{
    fg.add_block(block)
}

/// `Block::message_input_name_to_id`: the id of the first message input of
/// that name, if the block has one.
#[verifier::external_body]
pub(crate) fn message_input_id(block: &Block, name: &str) -> (r: Option<usize>)
    ensures
        r == if message_inputs(*block).contains_key(name@) {
            Some(message_inputs(*block)[name@])
        } else {
            None
        },
{
    block.message_input_name_to_id(name)
}

/// `Flowgraph::connect_stream`: the connection is made exactly when the
/// engine can make it, and then it is the one connection added, between
/// the first output and the first input of the given names; a refusal
/// leaves the flowgraph as it was, and between two registered blocks it
/// comes with the engine's words for what was wrong with the ports.
#[verifier::external_body]
pub(crate) fn connect_stream(
    fg: &mut Flowgraph,
    src: usize,
    src_port: &str,
    dst: usize,
    dst_port: &str,
) -> (r: Result<(), anyhow::Error>)
    ensures
        r is Ok == can_connect(registered(*old(fg)), src, src_port@, dst, dst_port@),
        registered(*final(fg)) == registered(*old(fg)),
        links(*final(fg)) == if r is Ok {
            links(*old(fg)).insert(
                link_between(registered(*old(fg)), src, src_port@, dst, dst_port@),
            )
        } else {
            links(*old(fg))
        },
        r matches Err(e) ==> (registered(*old(fg)).contains_key(src) && registered(
            *old(fg),
        ).contains_key(dst) ==> words(e) == refusal_words(
            registered(*old(fg))[src].1,
            src_port@,
            registered(*old(fg))[dst].0,
            dst_port@,
        )),
{
    fg.connect_stream(src, src_port, dst, dst_port)
}

/// `anyhow::Error`'s `Display`: the words of the error, as a string.
#[verifier::external_body]
pub(crate) fn error_text(error: &anyhow::Error) -> (text: String)
    ensures
        text@ == words(*error),
{
    format!("{}", error)
}

} // verus!
