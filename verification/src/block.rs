//! Blocks: the positioned units of a diagram, each with its input and output
//! terminals. What terminals a block has follows from its kind alone.

use vstd::prelude::*;
use crate::geometry::{Pos2, Vec2};
use crate::terminal::{Terminal, TerminalKind, TerminalView};
use crate::text::{decimal, decimal_chars, string_of};

verus! {

/// The kinds of block in a mathematical model.
#[derive(Debug, Clone, Copy, PartialEq, Eq, Structural)]
pub enum ModelKind {
    Process,
    Summing,
    Input,
    Output,
}

/// The kinds of block in an execution graph.
#[derive(Debug, Clone, Copy, PartialEq, Eq, Structural)]
pub enum NodeKind {
    Rust,
    Python,
    Input,
    Output,
}

/// What a block is.
#[derive(Debug, Clone, Copy, PartialEq, Eq, Structural)]
pub enum BlockKind {
    Model(ModelKind),
    Node(NodeKind),
}

/// The outline that a kind gives its blocks: their size and how many
/// terminals they have on each side.
#[derive(Debug, Clone, Copy, PartialEq, Eq, Structural)]
pub struct BlockShape {
    pub size: Vec2,
    pub inputs: usize,
    pub outputs: usize,
}

/// The outline of each kind of model block.
pub open spec fn model_shape(kind: ModelKind) -> BlockShape {
    match kind {
        ModelKind::Process => BlockShape { size: Vec2 { x: 100, y: 80 }, inputs: 1, outputs: 1 },
        ModelKind::Summing => BlockShape { size: Vec2 { x: 80, y: 80 }, inputs: 2, outputs: 1 },
        ModelKind::Input => BlockShape { size: Vec2 { x: 100, y: 80 }, inputs: 0, outputs: 1 },
        ModelKind::Output => BlockShape { size: Vec2 { x: 100, y: 80 }, inputs: 1, outputs: 0 },
    }
}

/// The outline of a kind of block, where one is laid down: the kinds of
/// node have none yet.
pub open spec fn kind_shape(kind: BlockKind) -> Option<BlockShape> {
    match kind {
        BlockKind::Model(model) => Some(model_shape(model)),
        BlockKind::Node(_) => None,
    }
}

impl ModelKind {
    /// The outline of this kind of block.
    pub fn shape(&self) -> (shape: BlockShape)
        ensures
            shape == model_shape(*self),
    {
        match self {
            ModelKind::Process => BlockShape { size: Vec2::new(100, 80), inputs: 1, outputs: 1 },
            ModelKind::Summing => BlockShape { size: Vec2::new(80, 80), inputs: 2, outputs: 1 },
            ModelKind::Input => BlockShape { size: Vec2::new(100, 80), inputs: 0, outputs: 1 },
            ModelKind::Output => BlockShape { size: Vec2::new(100, 80), inputs: 1, outputs: 0 },
        }
    }
}

impl BlockKind {
    /// The outline of this kind of block, if it has one.
    pub fn shape(&self) -> (shape: Option<BlockShape>)
        ensures
            shape == kind_shape(*self),
    {
        match self {
            BlockKind::Model(model) => Some(model.shape()),
            BlockKind::Node(_) => None,
        }
    }
}

/// What stands between a block's name and a terminal's number in the
/// terminal's name.
pub open spec fn side_tag(kind: TerminalKind) -> Seq<char> {
    match kind {
        TerminalKind::Input => seq!['_', 'i', 'n', '_'],
        TerminalKind::Output => seq!['_', 'o', 'u', 't', '_'],
    }
}

/// The name of the terminal with number `index` on one side of a block: the
/// block's name, the side, and the number in decimal.
pub open spec fn terminal_id(block_id: Seq<char>, kind: TerminalKind, index: nat) -> Seq<char> {
    block_id + side_tag(kind) + decimal(index)
}

/// The terminal with number `index` on one side of a block.
pub open spec fn terminal_of(block_id: Seq<char>, kind: TerminalKind, index: nat) -> TerminalView {
    TerminalView {
        id: terminal_id(block_id, kind, index),
        kind,
        sign: 1,
        size: Vec2 { x: 10, y: 10 },
    }
}

/// The terminals on one side of a block that has `count` of them there.
pub open spec fn terminals_of(block_id: Seq<char>, kind: TerminalKind, count: nat) -> Seq<
    TerminalView,
> {
    Seq::new(count, |i: int| terminal_of(block_id, kind, i as nat))
}

/// What a list of terminals holds.
pub open spec fn terminal_views(terminals: Seq<Terminal>) -> Seq<TerminalView> {
    terminals.map_values(|t: Terminal| t@)
}

/// Builds the terminal with number `index` on one side of a block.
pub fn make_terminal(block_id: &str, kind: TerminalKind, index: usize) -> (t: Terminal)
    ensures
        t@ == terminal_of(block_id@, kind, index as nat),
{
    let mut id = String::from_str(block_id);
    match kind {
        TerminalKind::Input => {
            proof {
                reveal_strlit("_in_");
            }
            assert("_in_"@ =~= side_tag(kind));
            id.append("_in_");
        },
        TerminalKind::Output => {
            proof {
                reveal_strlit("_out_");
            }
            assert("_out_"@ =~= side_tag(kind));
            id.append("_out_");
        },
    }
    let number = string_of(&decimal_chars(index));
    id.append(number.as_str());
    Terminal::new(id.as_str(), kind, 1, Vec2::new(10, 10))
}

/// Builds the terminals on one side of a block.
pub fn make_terminals(block_id: &str, kind: TerminalKind, count: usize) -> (v: Vec<Terminal>)
    ensures
        terminal_views(v@) == terminals_of(block_id@, kind, count as nat),
        v@.len() == count,
{
    let mut v: Vec<Terminal> = Vec::new();
    let mut i: usize = 0;
    assert(terminal_views(v@) =~= terminals_of(block_id@, kind, 0));
    while i < count
        invariant
            i <= count,
            v@.len() == i,
            terminal_views(v@) == terminals_of(block_id@, kind, i as nat),
        decreases count - i,
    {
        let ghost before = v@;
        let t = make_terminal(block_id, kind, i);
        v.push(t);
        i += 1;
        assert forall|j: int| 0 <= j < i implies terminal_views(v@)[j] == terminals_of(
            block_id@,
            kind,
            i as nat,
        )[j] by {
            if j < i - 1 {
                assert(v@[j] == before[j]);
                assert(terminal_views(before)[j] == terminals_of(
                    block_id@,
                    kind,
                    (i - 1) as nat,
                )[j]);
            }
        }
        assert(terminal_views(v@) =~= terminals_of(block_id@, kind, i as nat));
    }
    v
}

/// A positioned unit of a diagram.
#[derive(Debug, Clone, PartialEq, Eq)]
pub struct Block {
    pub id: String,
    pub kind: BlockKind,
    pub function: String,
    pub size: Vec2,
    pub pos: Pos2,
    pub input: Vec<Terminal>,
    pub output: Vec<Terminal>,
    pub is_flipped: bool,
}

/// What a block is, as a mathematical value.
pub struct BlockView {
    pub id: Seq<char>,
    pub kind: BlockKind,
    pub function: Seq<char>,
    pub size: Vec2,
    pub pos: Pos2,
    pub input: Seq<TerminalView>,
    pub output: Seq<TerminalView>,
    pub is_flipped: bool,
}

impl View for Block {
    type V = BlockView;

    open spec fn view(&self) -> BlockView {
        BlockView {
            id: self.id@,
            kind: self.kind,
            function: self.function@,
            size: self.size,
            pos: self.pos,
            input: terminal_views(self.input@),
            output: terminal_views(self.output@),
            is_flipped: self.is_flipped,
        }
    }
}

/// The block brought in line with its kind. A kind with an outline gives
/// the block its size and its terminals, whatever it had before; a kind
/// without one leaves the block without terminals, at the size it has.
pub open spec fn configured(b: BlockView) -> BlockView {
    match kind_shape(b.kind) {
        Some(shape) => BlockView {
            size: shape.size,
            input: terminals_of(b.id, TerminalKind::Input, shape.inputs as nat),
            output: terminals_of(b.id, TerminalKind::Output, shape.outputs as nat),
            ..b
        },
        None => BlockView { input: Seq::empty(), output: Seq::empty(), ..b },
    }
}

impl Block {
    /// Whether the block is in line with its kind: configuring it would
    /// change nothing.
    pub open spec fn is_configured(&self) -> bool {
        configured(self@) == self@
    }

    /// A block of the given kind, configured. For a kind that has an
    /// outline the size given here yields to that of the outline.
    pub fn new(
        id: &str,
        kind: BlockKind,
        function: &str,
        size: Vec2,
        pos: Pos2,
        is_flipped: bool,
    ) -> (block: Block)
        ensures
            block@ == configured(
                BlockView {
                    id: id@,
                    kind,
                    function: function@,
                    size,
                    pos,
                    input: Seq::empty(),
                    output: Seq::empty(),
                    is_flipped,
                },
            ),
            block.is_configured(),
            kind is Node ==> block.input@.len() == 0 && block.output@.len() == 0,
            kind matches BlockKind::Model(model) ==> block.input@.len() == model_shape(model).inputs
                && block.output@.len() == model_shape(model).outputs,
    {
        let mut block = Block {
            id: String::from_str(id),
            kind,
            function: String::from_str(function),
            size,
            pos,
            input: Vec::new(),
            output: Vec::new(),
            is_flipped,
        };
        assert(terminal_views(block.input@) =~= Seq::empty());
        assert(terminal_views(block.output@) =~= Seq::empty());
        block.config();
        block
    }

    /// Brings the block in line with its kind: both lists of terminals are
    /// emptied and built anew.
    pub fn config(&mut self)
        ensures
            final(self)@ == configured(old(self)@),
            final(self).is_configured(),
            old(self).is_configured() ==> final(self)@ == old(self)@,
            old(self).kind is Node ==> final(self).input@.len() == 0 && final(self).output@.len()
                == 0,
            old(self).kind is Node ==> final(self).size == old(self).size,
            old(self).kind matches BlockKind::Model(model) ==> final(self).input@.len()
                == model_shape(model).inputs && final(self).output@.len() == model_shape(
                model,
            ).outputs,
    {
        self.input.clear();
        self.output.clear();
        assert(terminal_views(self.input@) =~= Seq::empty());
        assert(terminal_views(self.output@) =~= Seq::empty());
        match self.kind.shape() {
            Some(shape) => {
                self.size = shape.size;
                self.input = make_terminals(self.id.as_str(), TerminalKind::Input, shape.inputs);
                self.output = make_terminals(self.id.as_str(), TerminalKind::Output, shape.outputs);
            },
            None => {},
        }
    }
}

/// Configuring a block that is configured changes nothing.
pub proof fn lemma_config_idempotent(b: BlockView)
    ensures
        configured(configured(b)) == configured(b),
{
}

/// A configured block of any kind of node has no terminals.
pub proof fn lemma_node_has_no_terminals(b: BlockView)
    requires
        b.kind is Node,
    ensures
        configured(b).input.len() == 0,
        configured(b).output.len() == 0,
{
}

/// A configured model block has the number of terminals of its kind on each
/// side, each named after the block, its side and its place in the list.
pub proof fn lemma_model_terminals(b: BlockView, model: ModelKind)
    requires
        b.kind == BlockKind::Model(model),
    ensures
        configured(b).size == model_shape(model).size,
        configured(b).input.len() == model_shape(model).inputs,
        configured(b).output.len() == model_shape(model).outputs,
        forall|i: int|
            0 <= i < model_shape(model).inputs ==> (#[trigger] configured(b).input[i]).id == b.id
                + "_in_"@ + decimal(i as nat),
        forall|i: int|
            0 <= i < model_shape(model).outputs ==> (#[trigger] configured(b).output[i]).id
                == b.id + "_out_"@ + decimal(i as nat),
        forall|i: int|
            0 <= i < model_shape(model).inputs ==> (#[trigger] configured(b).input[i]).kind
                == TerminalKind::Input,
        forall|i: int|
            0 <= i < model_shape(model).outputs ==> (#[trigger] configured(b).output[i]).kind
                == TerminalKind::Output,
{
    reveal_strlit("_in_");
    reveal_strlit("_out_");
    assert("_in_"@ =~= side_tag(TerminalKind::Input));
    assert("_out_"@ =~= side_tag(TerminalKind::Output));
}

/// The names of the terminals of a configured model block, kind by kind.
pub proof fn lemma_model_terminal_names(b: BlockView, model: ModelKind)
    requires
        b.kind == BlockKind::Model(model),
    ensures
        match model {
            ModelKind::Process => {
                &&& configured(b).input.len() == 1
                &&& configured(b).input[0].id == b.id + "_in_0"@
                &&& configured(b).output.len() == 1
                &&& configured(b).output[0].id == b.id + "_out_0"@
            },
            ModelKind::Summing => {
                &&& configured(b).input.len() == 2
                &&& configured(b).input[0].id == b.id + "_in_0"@
                &&& configured(b).input[1].id == b.id + "_in_1"@
                &&& configured(b).output.len() == 1
                &&& configured(b).output[0].id == b.id + "_out_0"@
            },
            ModelKind::Input => {
                &&& configured(b).input.len() == 0
                &&& configured(b).output.len() == 1
                &&& configured(b).output[0].id == b.id + "_out_0"@
            },
            ModelKind::Output => {
                &&& configured(b).input.len() == 1
                &&& configured(b).input[0].id == b.id + "_in_0"@
                &&& configured(b).output.len() == 0
            },
        },
{
    reveal_strlit("_in_0");
    reveal_strlit("_in_1");
    reveal_strlit("_out_0");
    assert(b.id + side_tag(TerminalKind::Input) + decimal(0) =~= b.id + "_in_0"@);
    assert(b.id + side_tag(TerminalKind::Input) + decimal(1) =~= b.id + "_in_1"@);
    assert(b.id + side_tag(TerminalKind::Output) + decimal(0) =~= b.id + "_out_0"@);
}

} // verus!
