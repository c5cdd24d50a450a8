use lazo::block::{make_terminal, make_terminals, Block, BlockKind, BlockShape, ModelKind, NodeKind};
use lazo::geometry::{Pos2, Vec2};
use lazo::terminal::{Terminal, TerminalKind};

fn model_block(id: &str, kind: ModelKind) -> Block {
    Block::new(id, BlockKind::Model(kind), "gain", Vec2::new(1, 2), Pos2::new(30, -40), false)
}

fn ids(terminals: &[Terminal]) -> Vec<String> {
    terminals.iter().map(|t| t.id.clone()).collect()
}

#[test]
fn terminal_new_keeps_what_it_is_given() {
    let t = Terminal::new("a_in_0", TerminalKind::Input, -1, Vec2::new(10, 12));
    assert_eq!(t.id, "a_in_0");
    assert_eq!(t.kind, TerminalKind::Input);
    assert_eq!(t.sign, -1);
    assert_eq!(t.size, Vec2 { x: 10, y: 12 });
}

#[test]
fn summing_block_has_two_inputs_and_one_output() {
    let b = model_block("sum", ModelKind::Summing);
    assert_eq!(ids(&b.input), vec!["sum_in_0", "sum_in_1"]);
    assert_eq!(ids(&b.output), vec!["sum_out_0"]);
    assert_eq!(b.size, Vec2::new(80, 80));
}

#[test]
fn process_block_has_one_input_and_one_output() {
    let b = model_block("p1", ModelKind::Process);
    assert_eq!(ids(&b.input), vec!["p1_in_0"]);
    assert_eq!(ids(&b.output), vec!["p1_out_0"]);
    assert_eq!(b.size, Vec2::new(100, 80));
}

#[test]
fn input_block_has_one_output_only() {
    let b = model_block("src", ModelKind::Input);
    assert!(b.input.is_empty());
    assert_eq!(ids(&b.output), vec!["src_out_0"]);
    assert_eq!(b.size, Vec2::new(100, 80));
}

#[test]
fn output_block_has_one_input_only() {
    let b = model_block("sink", ModelKind::Output);
    assert_eq!(ids(&b.input), vec!["sink_in_0"]);
    assert!(b.output.is_empty());
    assert_eq!(b.size, Vec2::new(100, 80));
}

#[test]
fn terminals_of_a_model_block_are_fully_determined() {
    let b = model_block("sum", ModelKind::Summing);
    let expected_in = Terminal {
        id: "sum_in_1".to_string(),
        kind: TerminalKind::Input,
        sign: 1,
        size: Vec2::new(10, 10),
    };
    let expected_out = Terminal {
        id: "sum_out_0".to_string(),
        kind: TerminalKind::Output,
        sign: 1,
        size: Vec2::new(10, 10),
    };
    assert_eq!(b.input[1], expected_in);
    assert_eq!(b.output[0], expected_out);
}

#[test]
fn new_keeps_the_other_fields() {
    let b = Block::new(
        "blk",
        BlockKind::Model(ModelKind::Process),
        "transfer",
        Vec2::new(7, 7),
        Pos2::new(-5, 9),
        true,
    );
    assert_eq!(b.id, "blk");
    assert_eq!(b.kind, BlockKind::Model(ModelKind::Process));
    assert_eq!(b.function, "transfer");
    assert_eq!(b.pos, Pos2::new(-5, 9));
    assert!(b.is_flipped);
}

#[test]
fn config_twice_gives_the_same_block() {
    for kind in [ModelKind::Process, ModelKind::Summing, ModelKind::Input, ModelKind::Output] {
        let mut b = model_block("twice", kind);
        b.config();
        let once = b.clone();
        b.config();
        assert_eq!(b, once);
    }
}

#[test]
fn config_replaces_whatever_terminals_were_there() {
    let mut b = model_block("x", ModelKind::Input);
    b.input.push(Terminal::new("stray", TerminalKind::Input, 5, Vec2::new(1, 1)));
    b.output.push(Terminal::new("stray", TerminalKind::Output, 5, Vec2::new(1, 1)));
    b.size = Vec2::new(3, 3);
    b.config();
    assert_eq!(b, model_block("x", ModelKind::Input));
}

#[test]
fn config_follows_a_change_of_kind() {
    let mut b = model_block("k", ModelKind::Summing);
    b.kind = BlockKind::Model(ModelKind::Output);
    b.config();
    assert_eq!(ids(&b.input), vec!["k_in_0"]);
    assert!(b.output.is_empty());
    assert_eq!(b.size, Vec2::new(100, 80));
}

#[test]
fn node_blocks_have_no_terminals() {
    for kind in [NodeKind::Rust, NodeKind::Python, NodeKind::Input, NodeKind::Output] {
        let mut b =
            Block::new("n", BlockKind::Node(kind), "run.py", Vec2::new(64, 48), Pos2::new(0, 0), false);
        assert!(b.input.is_empty());
        assert!(b.output.is_empty());
        b.config();
        assert!(b.input.is_empty());
        assert!(b.output.is_empty());
    }
}

#[test]
fn node_block_keeps_its_size_and_loses_its_terminals() {
    let mut b = Block::new(
        "n",
        BlockKind::Node(NodeKind::Rust),
        "main.rs",
        Vec2::new(64, 48),
        Pos2::new(2, 3),
        false,
    );
    b.input.push(Terminal::new("stray", TerminalKind::Input, 1, Vec2::new(1, 1)));
    b.config();
    assert!(b.input.is_empty());
    assert_eq!(b.size, Vec2::new(64, 48));
}

#[test]
fn shapes_of_the_kinds() {
    assert_eq!(
        ModelKind::Summing.shape(),
        BlockShape { size: Vec2::new(80, 80), inputs: 2, outputs: 1 }
    );
    assert_eq!(
        BlockKind::Model(ModelKind::Input).shape(),
        Some(BlockShape { size: Vec2::new(100, 80), inputs: 0, outputs: 1 })
    );
    assert_eq!(BlockKind::Node(NodeKind::Python).shape(), None);
}

#[test]
fn terminal_numbers_are_written_in_decimal() {
    assert_eq!(make_terminal("b", TerminalKind::Input, 0).id, "b_in_0");
    assert_eq!(make_terminal("b", TerminalKind::Output, 12).id, "b_out_12");
    assert_eq!(make_terminal("", TerminalKind::Input, 1005).id, "_in_1005");
    let many = make_terminals("m", TerminalKind::Output, 11);
    assert_eq!(many.len(), 11);
    assert_eq!(many[10].id, "m_out_10");
    assert_eq!(many[9].id, "m_out_9");
}

#[test]
fn block_names_may_hold_any_characters() {
    let b = model_block("größe 1", ModelKind::Process);
    assert_eq!(ids(&b.input), vec!["größe 1_in_0"]);
}
