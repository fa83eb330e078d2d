//! The components of a program's text: a scope is read as its header and its lists of
//! statements, then built by adding the statements in order; a scope that its own rules
//! refuse is not read at all.
use vstd::prelude::*;

use crate::command::{Command, CommandView};
use crate::operand::tail;
use crate::scope::{
    block_input_error, block_instruction_error, block_output_error, block_valid, commands_view,
    constructor_command_error, finalize_command_error, finalize_input_error, inputs_view,
    outputs_view, view_command_error, view_input_error, view_output_error, with_output, Block,
    BlockView, ClosureCore, ClosureView, ConstructorCore, ConstructorView, FinalizeCore,
    FinalizeView, FunctionCore, FunctionView, Input, InputView, Output, OutputView, ViewCore,
    ViewView,
};
use crate::syntax::{
    parse_commands, parse_constructor_header, parse_header, parse_inputs, parse_outputs,
    spec_commands, spec_constructor_header, spec_header, spec_inputs, spec_outputs, tail_of,
    TypeKind,
};
use crate::text::chars_of;

verus! {

broadcast use vstd::std_specs::vec::axiom_spec_into_iter;

/// Applies the steps in order, stopping at the first that fails.
pub open spec fn fold_steps<S, A>(init: S, xs: Seq<A>, step: spec_fn(S, A) -> Option<S>) -> Option<S>
    decreases xs.len(),
{
    if xs.len() == 0 {
        Some(init)
    } else {
        match fold_steps(init, xs.drop_last(), step) {
            Some(s) => step(s, xs.last()),
            None => None,
        }
    }
}

proof fn lemma_fold_take<S, A>(init: S, xs: Seq<A>, step: spec_fn(S, A) -> Option<S>, i: int)
    requires
        0 <= i < xs.len(),
    ensures
        fold_steps(init, xs.take(i + 1), step) == match fold_steps(init, xs.take(i), step) {
            Some(s) => step(s, xs[i]),
            None => None,
        },
{
    assert(xs.take(i + 1).drop_last() =~= xs.take(i));
}

proof fn lemma_fold_none<S, A>(init: S, xs: Seq<A>, step: spec_fn(S, A) -> Option<S>, i: int)
    requires
        0 <= i <= xs.len(),
        fold_steps(init, xs.take(i), step) is None,
    ensures
        fold_steps(init, xs, step) is None,
    decreases xs.len() - i,
{
    if i < xs.len() {
        lemma_fold_take(init, xs, step, i);
        lemma_fold_none(init, xs, step, i + 1);
    } else {
        assert(xs.take(i) =~= xs);
    }
}

proof fn lemma_fold_all<S, A>(init: S, xs: Seq<A>, step: spec_fn(S, A) -> Option<S>)
    ensures
        fold_steps(init, xs.take(xs.len() as int), step) == fold_steps(init, xs, step),
{
    assert(xs.take(xs.len() as int) =~= xs);
}

proof fn lemma_fold_empty<S, A>(init: S, xs: Seq<A>, step: spec_fn(S, A) -> Option<S>)
    ensures
        fold_steps(init, xs.take(0), step) == Some(init),
{
    assert(xs.take(0) =~= Seq::<A>::empty());
}

/// One input statement added to a view.
pub open spec fn view_input_step() -> spec_fn(ViewView, InputView) -> Option<ViewView> {
    |v: ViewView, i: InputView|
        if view_input_error(v, i) is None {
            Some(ViewView { inputs: v.inputs.push(i), ..v })
        } else {
            None
        }
}

/// One command added to a view.
pub open spec fn view_command_step() -> spec_fn(ViewView, CommandView) -> Option<ViewView> {
    |v: ViewView, c: CommandView|
        if view_command_error(v, c) is None {
            Some(ViewView { commands: v.commands.push(c), ..v })
        } else {
            None
        }
}

/// One output statement added to a view.
pub open spec fn view_output_step() -> spec_fn(ViewView, OutputView) -> Option<ViewView> {
    |v: ViewView, o: OutputView|
        if view_output_error(v, o) is None {
            Some(ViewView { outputs: with_output(v.outputs, o), ..v })
        } else {
            None
        }
}

/// The view built from its name and statements, if its rules accept them all in order.
pub open spec fn build_view(
    name: Seq<char>,
    ins: Seq<InputView>,
    cmds: Seq<CommandView>,
    outs: Seq<OutputView>,
) -> Option<ViewView> {
    let v0 = ViewView {
        name,
        inputs: Seq::empty(),
        commands: Seq::empty(),
        outputs: Seq::empty(),
    };
    match fold_steps(v0, ins, view_input_step()) {
        Some(v1) => match fold_steps(v1, cmds, view_command_step()) {
            Some(v2) => fold_steps(v2, outs, view_output_step()),
            None => None,
        },
        None => None,
    }
}

/// A view in the text: `view {name}:`, its input statements (of finalize types), its
/// commands and its output statements (of finalize types).
pub open spec fn spec_view_component(t: Seq<char>) -> Option<(nat, ViewView)> {
    match spec_header(t, "view"@) {
        Some((k1, name)) => {
            let t1 = tail(t, k1);
            let (k2, ins) = spec_inputs(TypeKind::Finalize, t1);
            let t2 = tail(t1, k2);
            let (k3, cmds) = spec_commands(t2);
            let t3 = tail(t2, k3);
            let (k4, outs) = spec_outputs(TypeKind::Finalize, t3);
            match build_view(name, ins, cmds, outs) {
                Some(v) => Some((k4, v)),
                None => None,
            }
        },
        None => None,
    }
}

fn add_view_inputs(v: &mut ViewCore, ins: Vec<Input>) -> (ok: bool)
    requires
        old(v).wf(),
    ensures
        final(v).wf(),
        ok == fold_steps(old(v)@, inputs_view(ins@), view_input_step()) is Some,
        ok ==> fold_steps(old(v)@, inputs_view(ins@), view_input_step()) == Some(final(v)@),
{
    let ghost xs = inputs_view(ins@);
    let ghost v0 = v@;
    proof {
        lemma_fold_empty(v0, xs, view_input_step());
    }
    for x in it: ins.into_iter()
        invariant
            v.wf(),
            v0 == old(v)@,
            it.seq() == ins@,
            xs == inputs_view(ins@),
            fold_steps(v0, xs.take(it.index() as int), view_input_step()) == Some(v@),
    {
        let ghost i = it.index() as int;
        proof {
            lemma_fold_take(v0, xs, view_input_step(), i);
        }
        assert(x == ins@[i]);
        assert(xs[i] == x@);
        let ghost before = v@;
        if v.add_input(x).is_err() {
            proof {
                assert(fold_steps(v0, xs.take(i + 1), view_input_step()) is None);
                lemma_fold_none(v0, xs, view_input_step(), i + 1);
            }
            return false;
        }
    }
    proof {
        lemma_fold_all(v0, xs, view_input_step());
    }
    true
}

fn add_view_commands(v: &mut ViewCore, cmds: Vec<Command>) -> (ok: bool)
    requires
        old(v).wf(),
    ensures
        final(v).wf(),
        ok == fold_steps(old(v)@, commands_view(cmds@), view_command_step()) is Some,
        ok ==> fold_steps(old(v)@, commands_view(cmds@), view_command_step()) == Some(final(v)@),
{
    let ghost xs = commands_view(cmds@);
    let ghost v0 = v@;
    proof {
        lemma_fold_empty(v0, xs, view_command_step());
    }
    for x in it: cmds.into_iter()
        invariant
            v.wf(),
            v0 == old(v)@,
            it.seq() == cmds@,
            xs == commands_view(cmds@),
            fold_steps(v0, xs.take(it.index() as int), view_command_step()) == Some(v@),
    {
        let ghost i = it.index() as int;
        proof {
            lemma_fold_take(v0, xs, view_command_step(), i);
        }
        assert(x == cmds@[i]);
        assert(xs[i] == x@);
        let ghost before = v@;
        if v.add_command(x).is_err() {
            proof {
                assert(fold_steps(v0, xs.take(i + 1), view_command_step()) is None);
                lemma_fold_none(v0, xs, view_command_step(), i + 1);
            }
            return false;
        }
    }
    proof {
        lemma_fold_all(v0, xs, view_command_step());
    }
    true
}

fn add_view_outputs(v: &mut ViewCore, outs: Vec<Output>) -> (ok: bool)
    requires
        old(v).wf(),
    ensures
        final(v).wf(),
        ok == fold_steps(old(v)@, outputs_view(outs@), view_output_step()) is Some,
        ok ==> fold_steps(old(v)@, outputs_view(outs@), view_output_step()) == Some(final(v)@),
{
    let ghost xs = outputs_view(outs@);
    let ghost v0 = v@;
    proof {
        lemma_fold_empty(v0, xs, view_output_step());
    }
    for x in it: outs.into_iter()
        invariant
            v.wf(),
            v0 == old(v)@,
            it.seq() == outs@,
            xs == outputs_view(outs@),
            fold_steps(v0, xs.take(it.index() as int), view_output_step()) == Some(v@),
    {
        let ghost i = it.index() as int;
        proof {
            lemma_fold_take(v0, xs, view_output_step(), i);
        }
        assert(x == outs@[i]);
        assert(xs[i] == x@);
        let ghost before = v@;
        if v.add_output(x).is_err() {
            proof {
                assert(fold_steps(v0, xs.take(i + 1), view_output_step()) is None);
                lemma_fold_none(v0, xs, view_output_step(), i + 1);
            }
            return false;
        }
    }
    proof {
        lemma_fold_all(v0, xs, view_output_step());
    }
    true
}

/// Parses a view from the start of the text: the length of the rest and the view.
pub fn parse_view(t: &[char]) -> (r: Option<(usize, ViewCore)>)
    ensures
        spec_view_component(t@) == match r {
            Some((k, v)) => Some((k as nat, v@)),
            None => None::<(nat, ViewView)>,
        },
        r matches Some((k, v)) ==> k < t@.len() && v.wf(),
{
    let (k1, name) = match parse_header(t, &chars_of("view")) {
        Some(found) => found,
        None => return None,
    };
    let t1 = tail_of(t, k1);
    let (k2, ins) = parse_inputs(TypeKind::Finalize, t1);
    let t2 = tail_of(t1, k2);
    let (k3, cmds) = parse_commands(t2);
    let t3 = tail_of(t2, k3);
    let (k4, outs) = parse_outputs(TypeKind::Finalize, t3);
    let mut v = ViewCore::new(name);
    if !add_view_inputs(&mut v, ins) {
        return None;
    }
    if !add_view_commands(&mut v, cmds) {
        return None;
    }
    if !add_view_outputs(&mut v, outs) {
        return None;
    }
    Some((k4, v))
}

/// One input statement added to a finalize block.
pub open spec fn finalize_input_step() -> spec_fn(FinalizeView, InputView) -> Option<FinalizeView> {
    |f: FinalizeView, i: InputView|
        if finalize_input_error(f, i) is None {
            Some(FinalizeView { inputs: f.inputs.push(i), ..f })
        } else {
            None
        }
}

/// One command added to a finalize block.
pub open spec fn finalize_command_step() -> spec_fn(FinalizeView, CommandView) -> Option<FinalizeView> {
    |f: FinalizeView, c: CommandView|
        if finalize_command_error(f, c) is None {
            Some(FinalizeView { commands: f.commands.push(c), ..f })
        } else {
            None
        }
}

/// The finalize block built from its name and statements, if its rules accept them all in
/// order.
pub open spec fn build_finalize(name: Seq<char>, ins: Seq<InputView>, cmds: Seq<CommandView>) -> Option<
    FinalizeView,
> {
    let f0 = FinalizeView { name, inputs: Seq::empty(), commands: Seq::empty() };
    match fold_steps(f0, ins, finalize_input_step()) {
        Some(f1) => fold_steps(f1, cmds, finalize_command_step()),
        None => None,
    }
}

/// A finalize block in the text: `finalize {name}:`, its input statements (of finalize
/// types) and its commands.
pub open spec fn spec_finalize_component(t: Seq<char>) -> Option<(nat, FinalizeView)> {
    match spec_header(t, "finalize"@) {
        Some((k1, name)) => {
            let t1 = tail(t, k1);
            let (k2, ins) = spec_inputs(TypeKind::Finalize, t1);
            let t2 = tail(t1, k2);
            let (k3, cmds) = spec_commands(t2);
            match build_finalize(name, ins, cmds) {
                Some(f) => Some((k3, f)),
                None => None,
            }
        },
        None => None,
    }
}

/// One command added to a constructor.
pub open spec fn constructor_command_step() -> spec_fn(ConstructorView, CommandView) -> Option<
    ConstructorView,
> {
    |c: ConstructorView, x: CommandView|
        if constructor_command_error(c, x) is None {
            Some(ConstructorView { commands: c.commands.push(x) })
        } else {
            None
        }
}

/// A constructor in the text: `constructor:` and its commands.
pub open spec fn spec_constructor_component(t: Seq<char>) -> Option<(nat, ConstructorView)> {
    match spec_constructor_header(t) {
        Some(k1) => {
            let (k2, cmds) = spec_commands(tail(t, k1));
            match fold_steps(ConstructorView { commands: Seq::empty() }, cmds, constructor_command_step()) {
                Some(c) => Some((k2, c)),
                None => None,
            }
        },
        None => None,
    }
}

/// One input statement added to the body of a closure or a function.
pub open spec fn block_input_step() -> spec_fn(BlockView, InputView) -> Option<BlockView> {
    |b: BlockView, i: InputView|
        if block_input_error(b, i) is None {
            Some(BlockView { inputs: b.inputs.push(i), ..b })
        } else {
            None
        }
}

/// One instruction added to the body of a closure or a function.
pub open spec fn block_instruction_step() -> spec_fn(BlockView, CommandView) -> Option<BlockView> {
    |b: BlockView, c: CommandView|
        if block_instruction_error(b, c) is None {
            Some(BlockView { instructions: b.instructions.push(c), ..b })
        } else {
            None
        }
}

/// One output statement added to the body of a closure or a function.
pub open spec fn block_output_step() -> spec_fn(BlockView, OutputView) -> Option<BlockView> {
    |b: BlockView, o: OutputView|
        if block_output_error(b, o) is None {
            Some(BlockView { outputs: with_output(b.outputs, o), ..b })
        } else {
            None
        }
}

/// The body built from its statements, if its rules accept them all in order.
pub open spec fn build_block(ins: Seq<InputView>, cmds: Seq<CommandView>, outs: Seq<OutputView>) -> Option<
    BlockView,
> {
    let b0 = BlockView { inputs: Seq::empty(), instructions: Seq::empty(), outputs: Seq::empty() };
    match fold_steps(b0, ins, block_input_step()) {
        Some(b1) => match fold_steps(b1, cmds, block_instruction_step()) {
            Some(b2) => fold_steps(b2, outs, block_output_step()),
            None => None,
        },
        None => None,
    }
}

/// The body of a closure or a function in the text, after its header: its input statements,
/// its instructions and its output statements, with types of the given kind.
pub open spec fn spec_block(kind: TypeKind, t: Seq<char>) -> Option<(nat, BlockView)> {
    let (k2, ins) = spec_inputs(kind, t);
    let t2 = tail(t, k2);
    let (k3, cmds) = spec_commands(t2);
    let t3 = tail(t2, k3);
    let (k4, outs) = spec_outputs(kind, t3);
    match build_block(ins, cmds, outs) {
        Some(b) => Some((k4, b)),
        None => None,
    }
}

/// A closure in the text: `closure {name}:` and its body, with register types.
pub open spec fn spec_closure_component(t: Seq<char>) -> Option<(nat, ClosureView)> {
    match spec_header(t, "closure"@) {
        Some((k1, name)) => match spec_block(TypeKind::Register, tail(t, k1)) {
            Some((k, block)) => Some((k, ClosureView { name, block })),
            None => None,
        },
        None => None,
    }
}

/// A function in the text: `function {name}:`, its body with value types, and then a
/// finalize block if one can be read there; a finalize block whose name is not the
/// function's makes the whole function unreadable.
pub open spec fn spec_function_component(t: Seq<char>) -> Option<(nat, FunctionView)> {
    match spec_header(t, "function"@) {
        Some((k1, name)) => match spec_block(TypeKind::Value, tail(t, k1)) {
            Some((k, block)) => match spec_finalize_component(tail(tail(t, k1), k)) {
                Some((k5, f)) => if f.name == name {
                    Some((k5, FunctionView { name, block, finalize: Some(f) }))
                } else {
                    None
                },
                None => Some((k, FunctionView { name, block, finalize: None })),
            },
            None => None,
        },
        None => None,
    }
}

fn add_finalize_inputs(v: &mut FinalizeCore, ins: Vec<Input>) -> (ok: bool)
    requires
        old(v).wf(),
    ensures
        final(v).wf(),
        ok == fold_steps(old(v)@, inputs_view(ins@), finalize_input_step()) is Some,
        ok ==> fold_steps(old(v)@, inputs_view(ins@), finalize_input_step()) == Some(final(v)@),
{
    let ghost xs = inputs_view(ins@);
    let ghost v0 = v@;
    proof {
        lemma_fold_empty(v0, xs, finalize_input_step());
    }
    for x in it: ins.into_iter()
        invariant
            v.wf(),
            v0 == old(v)@,
            it.seq() == ins@,
            xs == inputs_view(ins@),
            fold_steps(v0, xs.take(it.index() as int), finalize_input_step()) == Some(v@),
    {
        let ghost i = it.index() as int;
        proof {
            lemma_fold_take(v0, xs, finalize_input_step(), i);
        }
        assert(x == ins@[i]);
        assert(xs[i] == x@);
        if v.add_input(x).is_err() {
            proof {
                assert(fold_steps(v0, xs.take(i + 1), finalize_input_step()) is None);
                lemma_fold_none(v0, xs, finalize_input_step(), i + 1);
            }
            return false;
        }
    }
    proof {
        lemma_fold_all(v0, xs, finalize_input_step());
    }
    true
}

fn add_finalize_commands(v: &mut FinalizeCore, cmds: Vec<Command>) -> (ok: bool)
    requires
        old(v).wf(),
    ensures
        final(v).wf(),
        ok == fold_steps(old(v)@, commands_view(cmds@), finalize_command_step()) is Some,
        ok ==> fold_steps(old(v)@, commands_view(cmds@), finalize_command_step()) == Some(final(v)@),
{
    let ghost xs = commands_view(cmds@);
    let ghost v0 = v@;
    proof {
        lemma_fold_empty(v0, xs, finalize_command_step());
    }
    for x in it: cmds.into_iter()
        invariant
            v.wf(),
            v0 == old(v)@,
            it.seq() == cmds@,
            xs == commands_view(cmds@),
            fold_steps(v0, xs.take(it.index() as int), finalize_command_step()) == Some(v@),
    {
        let ghost i = it.index() as int;
        proof {
            lemma_fold_take(v0, xs, finalize_command_step(), i);
        }
        assert(x == cmds@[i]);
        assert(xs[i] == x@);
        if v.add_command(x).is_err() {
            proof {
                assert(fold_steps(v0, xs.take(i + 1), finalize_command_step()) is None);
                lemma_fold_none(v0, xs, finalize_command_step(), i + 1);
            }
            return false;
        }
    }
    proof {
        lemma_fold_all(v0, xs, finalize_command_step());
    }
    true
}

fn add_constructor_commands(v: &mut ConstructorCore, cmds: Vec<Command>) -> (ok: bool)
    requires
        old(v).wf(),
    ensures
        final(v).wf(),
        ok == fold_steps(old(v)@, commands_view(cmds@), constructor_command_step()) is Some,
        ok ==> fold_steps(old(v)@, commands_view(cmds@), constructor_command_step()) == Some(final(v)@),
{
    let ghost xs = commands_view(cmds@);
    let ghost v0 = v@;
    proof {
        lemma_fold_empty(v0, xs, constructor_command_step());
    }
    for x in it: cmds.into_iter()
        invariant
            v.wf(),
            v0 == old(v)@,
            it.seq() == cmds@,
            xs == commands_view(cmds@),
            fold_steps(v0, xs.take(it.index() as int), constructor_command_step()) == Some(v@),
    {
        let ghost i = it.index() as int;
        proof {
            lemma_fold_take(v0, xs, constructor_command_step(), i);
        }
        assert(x == cmds@[i]);
        assert(xs[i] == x@);
        if v.add_command(x).is_err() {
            proof {
                assert(fold_steps(v0, xs.take(i + 1), constructor_command_step()) is None);
                lemma_fold_none(v0, xs, constructor_command_step(), i + 1);
            }
            return false;
        }
    }
    proof {
        lemma_fold_all(v0, xs, constructor_command_step());
    }
    true
}

fn add_block_inputs(v: &mut Block, ins: Vec<Input>) -> (ok: bool)
    requires
        block_valid(old(v)@),
    ensures
        block_valid(final(v)@),
        ok == fold_steps(old(v)@, inputs_view(ins@), block_input_step()) is Some,
        ok ==> fold_steps(old(v)@, inputs_view(ins@), block_input_step()) == Some(final(v)@),
{
    let ghost xs = inputs_view(ins@);
    let ghost v0 = v@;
    proof {
        lemma_fold_empty(v0, xs, block_input_step());
    }
    for x in it: ins.into_iter()
        invariant
            block_valid(v@),
            v0 == old(v)@,
            it.seq() == ins@,
            xs == inputs_view(ins@),
            fold_steps(v0, xs.take(it.index() as int), block_input_step()) == Some(v@),
    {
        let ghost i = it.index() as int;
        proof {
            lemma_fold_take(v0, xs, block_input_step(), i);
        }
        assert(x == ins@[i]);
        assert(xs[i] == x@);
        if v.add_input(x).is_err() {
            proof {
                assert(fold_steps(v0, xs.take(i + 1), block_input_step()) is None);
                lemma_fold_none(v0, xs, block_input_step(), i + 1);
            }
            return false;
        }
    }
    proof {
        lemma_fold_all(v0, xs, block_input_step());
    }
    true
}

fn add_block_instructions(v: &mut Block, cmds: Vec<Command>) -> (ok: bool)
    requires
        block_valid(old(v)@),
    ensures
        block_valid(final(v)@),
        ok == fold_steps(old(v)@, commands_view(cmds@), block_instruction_step()) is Some,
        ok ==> fold_steps(old(v)@, commands_view(cmds@), block_instruction_step()) == Some(final(v)@),
{
    let ghost xs = commands_view(cmds@);
    let ghost v0 = v@;
    proof {
        lemma_fold_empty(v0, xs, block_instruction_step());
    }
    for x in it: cmds.into_iter()
        invariant
            block_valid(v@),
            v0 == old(v)@,
            it.seq() == cmds@,
            xs == commands_view(cmds@),
            fold_steps(v0, xs.take(it.index() as int), block_instruction_step()) == Some(v@),
    {
        let ghost i = it.index() as int;
        proof {
            lemma_fold_take(v0, xs, block_instruction_step(), i);
        }
        assert(x == cmds@[i]);
        assert(xs[i] == x@);
        if v.add_instruction(x).is_err() {
            proof {
                assert(fold_steps(v0, xs.take(i + 1), block_instruction_step()) is None);
                lemma_fold_none(v0, xs, block_instruction_step(), i + 1);
            }
            return false;
        }
    }
    proof {
        lemma_fold_all(v0, xs, block_instruction_step());
    }
    true
}

fn add_block_outputs(v: &mut Block, outs: Vec<Output>) -> (ok: bool)
    requires
        block_valid(old(v)@),
    ensures
        block_valid(final(v)@),
        ok == fold_steps(old(v)@, outputs_view(outs@), block_output_step()) is Some,
        ok ==> fold_steps(old(v)@, outputs_view(outs@), block_output_step()) == Some(final(v)@),
{
    let ghost xs = outputs_view(outs@);
    let ghost v0 = v@;
    proof {
        lemma_fold_empty(v0, xs, block_output_step());
    }
    for x in it: outs.into_iter()
        invariant
            block_valid(v@),
            v0 == old(v)@,
            it.seq() == outs@,
            xs == outputs_view(outs@),
            fold_steps(v0, xs.take(it.index() as int), block_output_step()) == Some(v@),
    {
        let ghost i = it.index() as int;
        proof {
            lemma_fold_take(v0, xs, block_output_step(), i);
        }
        assert(x == outs@[i]);
        assert(xs[i] == x@);
        if v.add_output(x).is_err() {
            proof {
                assert(fold_steps(v0, xs.take(i + 1), block_output_step()) is None);
                lemma_fold_none(v0, xs, block_output_step(), i + 1);
            }
            return false;
        }
    }
    proof {
        lemma_fold_all(v0, xs, block_output_step());
    }
    true
}

/// Parses a finalize block from the start of the text.
pub fn parse_finalize(t: &[char]) -> (r: Option<(usize, FinalizeCore)>)
    ensures
        spec_finalize_component(t@) == match r {
            Some((k, f)) => Some((k as nat, f@)),
            None => None::<(nat, FinalizeView)>,
        },
        r matches Some((k, f)) ==> k < t@.len() && f.wf(),
{
    let (k1, name) = match parse_header(t, &chars_of("finalize")) {
        Some(found) => found,
        None => return None,
    };
    let t1 = tail_of(t, k1);
    let (k2, ins) = parse_inputs(TypeKind::Finalize, t1);
    let t2 = tail_of(t1, k2);
    let (k3, cmds) = parse_commands(t2);
    let mut f = FinalizeCore::new(name);
    if !add_finalize_inputs(&mut f, ins) {
        return None;
    }
    if !add_finalize_commands(&mut f, cmds) {
        return None;
    }
    Some((k3, f))
}

/// Parses a constructor from the start of the text.
pub fn parse_constructor(t: &[char]) -> (r: Option<(usize, ConstructorCore)>)
    ensures
        spec_constructor_component(t@) == match r {
            Some((k, c)) => Some((k as nat, c@)),
            None => None::<(nat, ConstructorView)>,
        },
        r matches Some((k, c)) ==> k < t@.len() && c.wf(),
{
    let k1 = match parse_constructor_header(t) {
        Some(k) => k,
        None => return None,
    };
    let t1 = tail_of(t, k1);
    let (k2, cmds) = parse_commands(t1);
    let mut c = ConstructorCore::new();
    assert(c@ == ConstructorView { commands: Seq::empty() });
    if !add_constructor_commands(&mut c, cmds) {
        return None;
    }
    Some((k2, c))
}

/// Parses the body of a closure or a function from the start of the text.
pub fn parse_block(kind: TypeKind, t: &[char]) -> (r: Option<(usize, Block)>)
    ensures
        spec_block(kind, t@) == match r {
            Some((k, b)) => Some((k as nat, b@)),
            None => None::<(nat, BlockView)>,
        },
        r matches Some((k, b)) ==> k <= t@.len() && block_valid(b@),
{
    let (k2, ins) = parse_inputs(kind, t);
    let t2 = tail_of(t, k2);
    let (k3, cmds) = parse_commands(t2);
    let t3 = tail_of(t2, k3);
    let (k4, outs) = parse_outputs(kind, t3);
    let mut b = Block::new();
    if !add_block_inputs(&mut b, ins) {
        return None;
    }
    if !add_block_instructions(&mut b, cmds) {
        return None;
    }
    if !add_block_outputs(&mut b, outs) {
        return None;
    }
    Some((k4, b))
}

/// Parses a closure from the start of the text.
pub fn parse_closure(t: &[char]) -> (r: Option<(usize, ClosureCore)>)
    ensures
        spec_closure_component(t@) == match r {
            Some((k, c)) => Some((k as nat, c@)),
            None => None::<(nat, ClosureView)>,
        },
        r matches Some((k, c)) ==> k < t@.len() && block_valid(c.block@),
{
    let (k1, name) = match parse_header(t, &chars_of("closure")) {
        Some(found) => found,
        None => return None,
    };
    let t1 = tail_of(t, k1);
    match parse_block(TypeKind::Register, t1) {
        Some((k, block)) => Some((k, ClosureCore { name, block })),
        None => None,
    }
}

/// Parses a function, with its finalize block if there is one, from the start of the text.
pub fn parse_function(t: &[char]) -> (r: Option<(usize, FunctionCore)>)
    ensures
        spec_function_component(t@) == match r {
            Some((k, f)) => Some((k as nat, f@)),
            None => None::<(nat, FunctionView)>,
        },
        r matches Some((k, f)) ==> k < t@.len() && f.wf(),
{
    let (k1, name) = match parse_header(t, &chars_of("function")) {
        Some(found) => found,
        None => return None,
    };
    let t1 = tail_of(t, k1);
    let (k, block) = match parse_block(TypeKind::Value, t1) {
        Some(found) => found,
        None => return None,
    };
    let t2 = tail_of(t1, k);
    let mut f = FunctionCore::new(name, block);
    match parse_finalize(t2) {
        Some((k5, fin)) => {
            if f.add_finalize(fin).is_err() {
                return None;
            }
            Some((k5, f))
        },
        None => Some((k, f)),
    }
}

} // verus!
