//! The printed form of statements and scopes: each statement on a line of its own, indented
//! by four spaces, under the scope's header.
use vstd::prelude::*;

use crate::checksum::{source_code_checksum, spec_checksum};
use crate::command::{spec_command_text, Command, CommandView};
use crate::operand::spec_operand_text;
use crate::scope::{
    commands_view, inputs_view, outputs_view, Block, BlockView, ClosureCore, ClosureView,
    ConstructorCore, ConstructorView, FinalizeCore, FinalizeView, FunctionCore, FunctionView, Input,
    InputView, Output, OutputView, ViewCore, ViewView,
};
use crate::text::{chars_of, push_all, string_of};

verus! {

/// The printed input statement.
pub open spec fn input_text(i: InputView) -> Seq<char> {
    "input "@ + i.register.text + " as "@ + i.ty + ";"@
}

/// The printed output statement.
pub open spec fn output_text(o: OutputView) -> Seq<char> {
    "output "@ + spec_operand_text(o.operand) + " as "@ + o.ty + ";"@
}

/// The input statements, each on a new line indented by four spaces.
pub open spec fn input_lines(ins: Seq<InputView>) -> Seq<char>
    decreases ins.len(),
{
    if ins.len() == 0 {
        Seq::empty()
    } else {
        input_lines(ins.drop_last()) + "\n    "@ + input_text(ins.last())
    }
}

/// The commands, each on a new line indented by four spaces.
pub open spec fn command_lines(cmds: Seq<CommandView>) -> Seq<char>
    decreases cmds.len(),
{
    if cmds.len() == 0 {
        Seq::empty()
    } else {
        command_lines(cmds.drop_last()) + "\n    "@ + spec_command_text(cmds.last())
    }
}

/// The output statements, each on a new line indented by four spaces.
pub open spec fn output_lines(outs: Seq<OutputView>) -> Seq<char>
    decreases outs.len(),
{
    if outs.len() == 0 {
        Seq::empty()
    } else {
        output_lines(outs.drop_last()) + "\n    "@ + output_text(outs.last())
    }
}

/// The printed finalize block.
pub open spec fn finalize_text(f: FinalizeView) -> Seq<char> {
    "finalize "@ + f.name + ":"@ + input_lines(f.inputs) + command_lines(f.commands)
}

/// The printed view.
pub open spec fn view_text(v: ViewView) -> Seq<char> {
    "view "@ + v.name + ":"@ + input_lines(v.inputs) + command_lines(v.commands) + output_lines(
        v.outputs,
    )
}

/// The printed constructor.
pub open spec fn constructor_text(c: ConstructorView) -> Seq<char> {
    "constructor:"@ + command_lines(c.commands)
}

/// The printed body of a closure or a function.
pub open spec fn block_text(b: BlockView) -> Seq<char> {
    input_lines(b.inputs) + command_lines(b.instructions) + output_lines(b.outputs)
}

/// The printed closure.
pub open spec fn closure_text(c: ClosureView) -> Seq<char> {
    "closure "@ + c.name + ":"@ + block_text(c.block)
}

/// The printed function, followed by its finalize block, if any, after a blank line.
pub open spec fn function_text(f: FunctionView) -> Seq<char> {
    "function "@ + f.name + ":"@ + block_text(f.block) + match f.finalize {
        Some(fz) => "\n\n"@ + finalize_text(fz),
        None => Seq::<char>::empty(),
    }
}

/// Appends the printed input statement to `out`.
pub fn write_input(out: &mut Vec<char>, i: &Input)
    ensures
        final(out)@ == old(out)@ + input_text(i@),
{
    let ghost start = out@;
    push_all(out, &chars_of("input "));
    push_all(out, &chars_of(i.register.text.as_str()));
    push_all(out, &chars_of(" as "));
    push_all(out, &chars_of(i.ty.as_str()));
    push_all(out, &chars_of(";"));
    assert(out@ =~= start + input_text(i@));
}

/// Appends the printed output statement to `out`.
pub fn write_output(out: &mut Vec<char>, o: &Output)
    ensures
        final(out)@ == old(out)@ + output_text(o@),
{
    let ghost start = out@;
    push_all(out, &chars_of("output "));
    o.operand.write_text(out);
    push_all(out, &chars_of(" as "));
    push_all(out, &chars_of(o.ty.as_str()));
    push_all(out, &chars_of(";"));
    assert(out@ =~= start + output_text(o@));
}

/// Appends the input statements to `out`, each on a new line.
pub fn write_input_lines(out: &mut Vec<char>, ins: &Vec<Input>)
    ensures
        final(out)@ == old(out)@ + input_lines(inputs_view(ins@)),
{
    let ghost start = out@;
    let mut i: usize = 0;
    while i < ins.len()
        invariant
            i <= ins@.len(),
            out@ == start + input_lines(inputs_view(ins@.subrange(0, i as int))),
        decreases ins.len() - i,
    {
        push_all(out, &chars_of("\n    "));
        write_input(out, &ins[i]);
        proof {
            let pre = inputs_view(ins@.subrange(0, i as int));
            let post = inputs_view(ins@.subrange(0, i + 1));
            assert(post.drop_last() =~= pre);
            assert(out@ =~= start + input_lines(post));
        }
        i = i + 1;
    }
    assert(ins@.subrange(0, ins@.len() as int) =~= ins@);
}

/// Appends the commands to `out`, each on a new line.
pub fn write_command_lines(out: &mut Vec<char>, cmds: &Vec<Command>)
    ensures
        final(out)@ == old(out)@ + command_lines(commands_view(cmds@)),
{
    let ghost start = out@;
    let mut i: usize = 0;
    while i < cmds.len()
        invariant
            i <= cmds@.len(),
            out@ == start + command_lines(commands_view(cmds@.subrange(0, i as int))),
        decreases cmds.len() - i,
    {
        push_all(out, &chars_of("\n    "));
        cmds[i].write_text(out);
        proof {
            let pre = commands_view(cmds@.subrange(0, i as int));
            let post = commands_view(cmds@.subrange(0, i + 1));
            assert(post.drop_last() =~= pre);
            assert(out@ =~= start + command_lines(post));
        }
        i = i + 1;
    }
    assert(cmds@.subrange(0, cmds@.len() as int) =~= cmds@);
}

/// Appends the output statements to `out`, each on a new line.
pub fn write_output_lines(out: &mut Vec<char>, outs: &Vec<Output>)
    ensures
        final(out)@ == old(out)@ + output_lines(outputs_view(outs@)),
{
    let ghost start = out@;
    let mut i: usize = 0;
    while i < outs.len()
        invariant
            i <= outs@.len(),
            out@ == start + output_lines(outputs_view(outs@.subrange(0, i as int))),
        decreases outs.len() - i,
    {
        push_all(out, &chars_of("\n    "));
        write_output(out, &outs[i]);
        proof {
            let pre = outputs_view(outs@.subrange(0, i as int));
            let post = outputs_view(outs@.subrange(0, i + 1));
            assert(post.drop_last() =~= pre);
            assert(out@ =~= start + output_lines(post));
        }
        i = i + 1;
    }
    assert(outs@.subrange(0, outs@.len() as int) =~= outs@);
}

/// Appends the printed body of a closure or a function to `out`.
pub fn write_block(out: &mut Vec<char>, b: &Block)
    ensures
        final(out)@ == old(out)@ + block_text(b@),
{
    let ghost start = out@;
    write_input_lines(out, b.inputs());
    write_command_lines(out, b.instructions());
    write_output_lines(out, b.outputs());
    assert(out@ =~= start + block_text(b@));
}

impl FinalizeCore {
    /// Appends the printed finalize block to `out`.
    pub fn write_text(&self, out: &mut Vec<char>)
        ensures
            final(out)@ == old(out)@ + finalize_text(self@),
    {
        let ghost start = out@;
        push_all(out, &chars_of("finalize "));
        push_all(out, &chars_of(self.name().name.as_str()));
        push_all(out, &chars_of(":"));
        write_input_lines(out, self.inputs());
        write_command_lines(out, self.commands());
        assert(out@ =~= start + finalize_text(self@));
    }

    /// Returns the printed finalize block.
    pub fn to_string(&self) -> (r: String)
        ensures
            r@ == finalize_text(self@),
    {
        let mut out: Vec<char> = Vec::new();
        self.write_text(&mut out);
        assert(out@ =~= finalize_text(self@));
        string_of(&out)
    }
}

impl ViewCore {
    /// Appends the printed view to `out`.
    pub fn write_text(&self, out: &mut Vec<char>)
        ensures
            final(out)@ == old(out)@ + view_text(self@),
    {
        let ghost start = out@;
        push_all(out, &chars_of("view "));
        push_all(out, &chars_of(self.name().name.as_str()));
        push_all(out, &chars_of(":"));
        write_input_lines(out, self.inputs());
        write_command_lines(out, self.commands());
        write_output_lines(out, self.outputs());
        assert(out@ =~= start + view_text(self@));
    }

    /// Returns the printed view.
    pub fn to_string(&self) -> (r: String)
        ensures
            r@ == view_text(self@),
    {
        let mut out: Vec<char> = Vec::new();
        self.write_text(&mut out);
        assert(out@ =~= view_text(self@));
        string_of(&out)
    }

    /// Returns the checksum of the view: the SHA3-256 digest of its printed form.
    pub fn to_checksum(&self) -> (r: [u8; 32])
        ensures
            r@ == spec_checksum(view_text(self@)),
    {
        source_code_checksum(self.to_string().as_str())
    }
}

impl ConstructorCore {
    /// Appends the printed constructor to `out`.
    pub fn write_text(&self, out: &mut Vec<char>)
        ensures
            final(out)@ == old(out)@ + constructor_text(self@),
    {
        let ghost start = out@;
        push_all(out, &chars_of("constructor:"));
        write_command_lines(out, self.commands());
        assert(out@ =~= start + constructor_text(self@));
    }
}

impl ClosureCore {
    /// Appends the printed closure to `out`.
    pub fn write_text(&self, out: &mut Vec<char>)
        ensures
            final(out)@ == old(out)@ + closure_text(self@),
    {
        let ghost start = out@;
        push_all(out, &chars_of("closure "));
        push_all(out, &chars_of(self.name.name.as_str()));
        push_all(out, &chars_of(":"));
        write_block(out, &self.block);
        assert(out@ =~= start + closure_text(self@));
    }
}

impl FunctionCore {
    /// Appends the printed function to `out`.
    pub fn write_text(&self, out: &mut Vec<char>)
        requires
            self.wf(),
        ensures
            final(out)@ == old(out)@ + function_text(self@),
    {
        let ghost start = out@;
        push_all(out, &chars_of("function "));
        push_all(out, &chars_of(self.name().name.as_str()));
        push_all(out, &chars_of(":"));
        write_block(out, self.block());
        match self.finalize() {
            Some(f) => {
                push_all(out, &chars_of("\n\n"));
                f.write_text(out);
            },
            None => {},
        }
        assert(out@ =~= start + function_text(self@));
    }
}

impl Input {
    /// Returns the printed input statement.
    pub fn to_string(&self) -> (r: String)
        ensures
            r@ == input_text(self@),
    {
        let mut out: Vec<char> = Vec::new();
        write_input(&mut out, self);
        assert(out@ =~= input_text(self@));
        string_of(&out)
    }
}

impl Output {
    /// Returns the printed output statement.
    pub fn to_string(&self) -> (r: String)
        ensures
            r@ == output_text(self@),
    {
        let mut out: Vec<char> = Vec::new();
        write_output(&mut out, self);
        assert(out@ =~= output_text(self@));
        string_of(&out)
    }
}

} // verus!
