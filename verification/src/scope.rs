//! The scopes of a program and the rules that each of them checks as statements are added:
//! finalize blocks, views and constructors, which hold commands, and closures and functions,
//! which hold instructions.
use vstd::prelude::*;

use crate::command::{
    spec_branch_to, spec_destinations_are_locators, spec_is_async, spec_is_await, spec_is_call,
    spec_is_dynamic_call, spec_is_instruction, spec_is_instruction_for_record, spec_is_rand_chacha,
    spec_is_write, spec_position, Command, CommandView,
};
use crate::console::{mainnet_limits, network_limits, Limits};
use crate::operand::{same_operand, same_register, Identifier, Operand, OperandView, Register, RegisterView};
use crate::text::same_text;

verus! {

/// An input statement `input {register} as {type};`: the register, the printed type, and
/// whether the type is a plaintext type.
#[derive(Clone, Debug, PartialEq, Eq)]
pub struct Input {
    pub register: Register,
    pub ty: String,
    pub plaintext: bool,
}

/// The mathematical value of an input statement.
pub ghost struct InputView {
    pub register: RegisterView,
    pub ty: Seq<char>,
    pub plaintext: bool,
}

impl View for Input {
    type V = InputView;

    open spec fn view(&self) -> InputView {
        InputView { register: self.register@, ty: self.ty@, plaintext: self.plaintext }
    }
}

/// An output statement `output {operand} as {type};`: the operand, the printed type, and
/// whether the type is a plaintext type.
#[derive(Clone, Debug, PartialEq, Eq)]
pub struct Output {
    pub operand: Operand,
    pub ty: String,
    pub plaintext: bool,
}

/// The mathematical value of an output statement.
pub ghost struct OutputView {
    pub operand: OperandView,
    pub ty: Seq<char>,
    pub plaintext: bool,
}

impl View for Output {
    type V = OutputView;

    open spec fn view(&self) -> OutputView {
        OutputView { operand: self.operand@, ty: self.ty@, plaintext: self.plaintext }
    }
}

/// Returns `true` if the two input statements are equal.
pub fn same_input(a: &Input, b: &Input) -> (r: bool)
    ensures
        r == (a@ == b@),
{
    same_register(&a.register, &b.register) && same_text(a.ty.as_str(), b.ty.as_str()) && a.plaintext
        == b.plaintext
}

/// Returns `true` if the two output statements are equal.
pub fn same_output(a: &Output, b: &Output) -> (r: bool)
    ensures
        r == (a@ == b@),
{
    same_operand(&a.operand, &b.operand) && same_text(a.ty.as_str(), b.ty.as_str()) && a.plaintext
        == b.plaintext
}

/// The views of a vector of input statements.
pub open spec fn inputs_view(v: Seq<Input>) -> Seq<InputView> {
    v.map_values(|i: Input| i@)
}

/// The views of a vector of output statements.
pub open spec fn outputs_view(v: Seq<Output>) -> Seq<OutputView> {
    v.map_values(|o: Output| o@)
}

/// The views of a vector of commands.
pub open spec fn commands_view(v: Seq<Command>) -> Seq<CommandView> {
    v.map_values(|c: Command| c@)
}

/// The views of a table of positions.
pub open spec fn positions_view(v: Seq<(Identifier, usize)>) -> Seq<(Seq<char>, nat)> {
    v.map_values(|p: (Identifier, usize)| (p.0@, p.1 as nat))
}

/// No two entries of the sequence are equal.
pub open spec fn distinct<A>(s: Seq<A>) -> bool {
    forall|i: int, j: int| 0 <= i < j < s.len() ==> s[i] != s[j]
}

/// Why a statement was not added to a scope.
#[derive(Clone, Copy, Debug, PartialEq, Eq)]
pub enum ScopeError {
    /// An input statement came after a command or an instruction.
    InputAfterCommand,
    /// An input statement came after an output statement.
    InputAfterOutput,
    /// The scope already has the most inputs that it may have.
    TooManyInputs,
    /// The same input statement was added before.
    DuplicateInput,
    /// The input's type is not a plaintext type.
    InputNotPlaintext,
    /// The input's register is not a plain locator.
    InputNotLocator,
    /// A command or an instruction came after an output statement.
    CommandAfterOutput,
    /// The scope already has the most commands or instructions that it may have.
    TooManyCommands,
    /// The scope already has the most `set` and `remove` commands that it may have.
    TooManyWrites,
    /// `async` is not allowed here.
    AsyncForbidden,
    /// `call.dynamic` is not allowed here.
    DynamicCallForbidden,
    /// `call` is not allowed here.
    CallForbidden,
    /// The scope already has the most `call` commands that it may have.
    TooManyCalls,
    /// Casts to records and `get.record.dynamic` are not allowed here.
    RecordForbidden,
    /// `await` is not allowed here.
    AwaitForbidden,
    /// `set` and `remove` are not allowed here.
    WriteForbidden,
    /// `rand.chacha` is not allowed here.
    RandChachaForbidden,
    /// Only instructions are allowed here, not commands.
    NotAnInstruction,
    /// A destination register is not a plain locator.
    DestinationNotLocator,
    /// A branch names a position that an earlier command defines.
    BranchToEarlierPosition,
    /// A position is defined twice.
    PositionRedefined,
    /// The scope already has the most positions that it may have.
    TooManyPositions,
    /// The scope already has the most outputs that it may have.
    TooManyOutputs,
    /// The output's type is not a plaintext type.
    OutputNotPlaintext,
    /// The function already has a finalize block.
    FinalizeAlreadySet,
    /// The finalize block's name is not the function's name.
    FinalizeNameMismatch,
}

/// The positions that the commands define, in order: the name of each and the index of the
/// command that defines it.
pub open spec fn positions_of(cmds: Seq<CommandView>) -> Seq<(Seq<char>, nat)>
    decreases cmds.len(),
{
    if cmds.len() == 0 {
        Seq::empty()
    } else {
        let prev = positions_of(cmds.drop_last());
        match spec_position(cmds.last()) {
            Some(n) => prev.push((n, (cmds.len() - 1) as nat)),
            None => prev,
        }
    }
}

/// The table of positions defines a position of this name.
pub open spec fn defines_position(positions: Seq<(Seq<char>, nat)>, name: Seq<char>) -> bool {
    exists|i: int| 0 <= i < positions.len() && #[trigger] positions[i].0 == name
}

/// The names of the table of positions are distinct.
pub open spec fn distinct_names(positions: Seq<(Seq<char>, nat)>) -> bool {
    forall|i: int, j: int|
        0 <= i < j < positions.len() ==> #[trigger] positions[i].0 != #[trigger] positions[j].0
}

/// The number of `set` and `remove` commands.
pub open spec fn count_writes(cmds: Seq<CommandView>) -> nat
    decreases cmds.len(),
{
    if cmds.len() == 0 {
        0
    } else {
        count_writes(cmds.drop_last()) + if spec_is_write(cmds.last()) {
            1nat
        } else {
            0nat
        }
    }
}

/// The number of `call` instructions.
pub open spec fn count_calls(cmds: Seq<CommandView>) -> nat
    decreases cmds.len(),
{
    if cmds.len() == 0 {
        0
    } else {
        count_calls(cmds.drop_last()) + if spec_is_call(cmds.last()) {
            1nat
        } else {
            0nat
        }
    }
}

/// No command branches to a position that a command before it defines.
pub open spec fn branches_forward(cmds: Seq<CommandView>) -> bool {
    forall|k: int|
        0 <= k < cmds.len() ==> match spec_branch_to(#[trigger] cmds[k]) {
            Some(t) => !defines_position(positions_of(cmds.take(k)), t),
            None => true,
        }
}

/// The error that the position rules give for the command after these commands, if any: a
/// branch may not name a position that is already defined, a position may not be defined
/// twice, and there may be at most `max_positions` positions.
pub open spec fn position_error(cmds: Seq<CommandView>, c: CommandView, l: Limits) -> Option<
    ScopeError,
> {
    if spec_branch_to(c) is Some && defines_position(positions_of(cmds), spec_branch_to(c)->0) {
        Some(ScopeError::BranchToEarlierPosition)
    } else if spec_position(c) is Some && defines_position(positions_of(cmds), spec_position(c)->0) {
        Some(ScopeError::PositionRedefined)
    } else if spec_position(c) is Some && positions_of(cmds).len() >= l.max_positions {
        Some(ScopeError::TooManyPositions)
    } else {
        None
    }
}

proof fn lemma_positions_push(cmds: Seq<CommandView>, c: CommandView)
    ensures
        positions_of(cmds.push(c)) == match spec_position(c) {
            Some(n) => positions_of(cmds).push((n, cmds.len())),
            None => positions_of(cmds),
        },
        count_writes(cmds.push(c)) == count_writes(cmds) + if spec_is_write(c) {
            1nat
        } else {
            0nat
        },
        count_calls(cmds.push(c)) == count_calls(cmds) + if spec_is_call(c) {
            1nat
        } else {
            0nat
        },
{
    assert(cmds.push(c).drop_last() =~= cmds);
}

/// Each entry of the table of positions names the command that defines it: the index is that
/// of a `position` command with the entry's name.
pub proof fn lemma_positions_point_to_position_commands(cmds: Seq<CommandView>)
    ensures
        forall|i: int|
            0 <= i < positions_of(cmds).len() ==> {
                let (n, k) = #[trigger] positions_of(cmds)[i];
                k < cmds.len() && spec_position(cmds[k as int]) == Some(n)
            },
        positions_of(cmds).len() <= cmds.len(),
    decreases cmds.len(),
{
    if cmds.len() > 0 {
        let prev = cmds.drop_last();
        lemma_positions_point_to_position_commands(prev);
        assert(prev.push(cmds.last()) =~= cmds);
        lemma_positions_push(prev, cmds.last());
        assert forall|i: int| 0 <= i < positions_of(cmds).len() implies {
            let (n, k) = #[trigger] positions_of(cmds)[i];
            k < cmds.len() && spec_position(cmds[k as int]) == Some(n)
        } by {
            if i < positions_of(prev).len() {
                assert(positions_of(cmds)[i] == positions_of(prev)[i]);
                assert(cmds[positions_of(prev)[i].1 as int] == prev[positions_of(prev)[i].1 as int]);
            }
        }
    }
}

/// Every `position` command of the commands has its entry in the table of positions.
pub proof fn lemma_position_commands_are_listed(cmds: Seq<CommandView>, k: int)
    requires
        0 <= k < cmds.len(),
        spec_position(cmds[k]) is Some,
    ensures
        exists|i: int|
            0 <= i < positions_of(cmds).len() && #[trigger] positions_of(cmds)[i] == (
                spec_position(cmds[k])->0,
                k as nat,
            ),
    decreases cmds.len(),
{
    let prev = cmds.drop_last();
    assert(prev.push(cmds.last()) =~= cmds);
    lemma_positions_push(prev, cmds.last());
    if k == cmds.len() - 1 {
        let i = positions_of(prev).len() as int;
        assert(positions_of(cmds)[i] == (spec_position(cmds[k])->0, k as nat));
    } else {
        assert(prev[k] == cmds[k]);
        lemma_position_commands_are_listed(prev, k);
        let i = choose|i: int|
            0 <= i < positions_of(prev).len() && #[trigger] positions_of(prev)[i] == (
                spec_position(prev[k])->0,
                k as nat,
            );
        assert(positions_of(cmds)[i] == positions_of(prev)[i]);
    }
}

proof fn lemma_counts_bounded(cmds: Seq<CommandView>)
    ensures
        count_writes(cmds) <= cmds.len(),
        count_calls(cmds) <= cmds.len(),
    decreases cmds.len(),
{
    if cmds.len() > 0 {
        lemma_counts_bounded(cmds.drop_last());
    }
}

/// A list of commands together with what the scope rules read from it: the table of
/// positions, and the numbers of writes and of calls.
pub struct CommandList {
    commands: Vec<Command>,
    positions: Vec<(Identifier, usize)>,
    num_writes: u16,
    num_calls: u16,
}

impl View for CommandList {
    type V = Seq<CommandView>;

    closed spec fn view(&self) -> Seq<CommandView> {
        commands_view(self.commands@)
    }
}

impl CommandList {
    /// The table of positions, the number of writes and the number of calls are those of the
    /// commands; the position names are distinct and no branch goes back.
    pub closed spec fn wf(&self) -> bool {
        &&& self.commands@.len() <= 65535
        &&& positions_view(self.positions@) == positions_of(self@)
        &&& distinct_names(positions_of(self@))
        &&& branches_forward(self@)
        &&& self.num_writes == count_writes(self@)
        &&& self.num_calls == count_calls(self@)
    }

    /// An empty list.
    pub fn new() -> (r: CommandList)
        ensures
            r.wf(),
            r@ == Seq::<CommandView>::empty(),
    {
        let r = CommandList { commands: Vec::new(), positions: Vec::new(), num_writes: 0, num_calls: 0 };
        assert(r@ =~= Seq::<CommandView>::empty());
        assert(positions_view(r.positions@) =~= Seq::<(Seq<char>, nat)>::empty());
        r
    }

    /// The commands.
    pub fn commands(&self) -> (r: &Vec<Command>)
        ensures
            commands_view(r@) == self@,
    {
        &self.commands
    }

    /// The number of commands.
    pub fn len(&self) -> (r: usize)
        ensures
            r == self@.len(),
    {
        self.commands.len()
    }

    /// The table of positions: each position's name and the index of the command that
    /// defines it.
    pub fn positions(&self) -> (r: &Vec<(Identifier, usize)>)
        requires
            self.wf(),
        ensures
            positions_view(r@) == positions_of(self@),
    {
        &self.positions
    }

    /// The number of `set` and `remove` commands.
    pub fn num_writes(&self) -> (r: u16)
        requires
            self.wf(),
        ensures
            r == count_writes(self@),
    {
        self.num_writes
    }

    /// The number of `call` instructions.
    pub fn num_calls(&self) -> (r: u16)
        requires
            self.wf(),
        ensures
            r == count_calls(self@),
    {
        self.num_calls
    }

    fn defines(&self, name: &Identifier) -> (r: bool)
        requires
            self.wf(),
        ensures
            r == defines_position(positions_of(self@), name@),
    {
        let mut i: usize = 0;
        while i < self.positions.len()
            invariant
                i <= self.positions@.len(),
                positions_view(self.positions@) == positions_of(self@),
                forall|j: int| 0 <= j < i ==> positions_of(self@)[j].0 != name@,
            decreases self.positions.len() - i,
        {
            if same_text(self.positions[i].0.name.as_str(), name.name.as_str()) {
                assert(positions_of(self@)[i as int].0 == name@);
                return true;
            }
            i = i + 1;
        }
        false
    }

    /// The error that the position rules give for the command, if any.
    pub fn position_error(&self, c: &Command, l: &Limits) -> (r: Option<ScopeError>)
        requires
            self.wf(),
        ensures
            r == position_error(self@, c@, *l),
    {
        if let Some(t) = c.branch_to() {
            if self.defines(t) {
                return Some(ScopeError::BranchToEarlierPosition);
            }
        }
        if let Some(p) = c.position() {
            if self.defines(p) {
                return Some(ScopeError::PositionRedefined);
            }
            if self.positions.len() >= l.max_positions {
                return Some(ScopeError::TooManyPositions);
            }
        }
        None
    }

    /// Appends a command that the position rules accept.
    pub fn push(&mut self, c: Command, l: &Limits)
        requires
            old(self).wf(),
            position_error(old(self)@, c@, *l) is None,
            old(self)@.len() < 65535,
        ensures
            final(self).wf(),
            final(self)@ == old(self)@.push(c@),
    {
        let ghost cmds = self@;
        let ghost cv = c@;
        proof {
            lemma_positions_push(cmds, cv);
            lemma_positions_point_to_position_commands(cmds);
            lemma_counts_bounded(cmds);
        }
        if let Some(p) = c.position() {
            let name = Identifier { name: p.name.clone() };
            let ghost before = self.positions@;
            self.positions.push((name, self.commands.len()));
            assert(positions_view(self.positions@) =~= positions_view(before).push((p@, cmds.len())));
        } else {
            assert(positions_of(cmds.push(cv)) == positions_of(cmds));
        }
        if c.is_write() {
            self.num_writes = self.num_writes + 1;
        }
        if c.is_call() {
            self.num_calls = self.num_calls + 1;
        }
        self.commands.push(c);
        proof {
            assert(self@ =~= cmds.push(cv));
            let np = positions_of(cmds.push(cv));
            assert forall|i: int, j: int| 0 <= i < j < np.len() implies #[trigger] np[i].0
                != #[trigger] np[j].0 by {
                if j == positions_of(cmds).len() {
                    assert(np[i] == positions_of(cmds)[i]);
                    assert(defines_position(positions_of(cmds), np[i].0));
                } else {
                    assert(np[i] == positions_of(cmds)[i]);
                    assert(np[j] == positions_of(cmds)[j]);
                }
            }
            let nc = cmds.push(cv);
            assert forall|k: int| 0 <= k < nc.len() implies match spec_branch_to(#[trigger] nc[k]) {
                Some(t) => !defines_position(positions_of(nc.take(k)), t),
                None => true,
            } by {
                if k < cmds.len() {
                    assert(nc.take(k) =~= cmds.take(k));
                    assert(nc[k] == cmds[k]);
                } else {
                    assert(nc.take(k) =~= cmds);
                }
            }
        }
    }
}

impl CommandList {
    /// What the well-formedness of the list says of its commands.
    pub proof fn lemma_wf(&self)
        requires
            self.wf(),
        ensures
            self@.len() <= 65535,
            distinct_names(positions_of(self@)),
            branches_forward(self@),
    {
    }
}

fn contains_input(v: &Vec<Input>, i: &Input) -> (r: bool)
    ensures
        r == inputs_view(v@).contains(i@),
{
    let mut k: usize = 0;
    while k < v.len()
        invariant
            k <= v@.len(),
            forall|j: int| 0 <= j < k ==> v@[j]@ != i@,
        decreases v.len() - k,
    {
        if same_input(&v[k], i) {
            assert(inputs_view(v@)[k as int] == i@);
            return true;
        }
        k = k + 1;
    }
    assert(!inputs_view(v@).contains(i@)) by {
        if inputs_view(v@).contains(i@) {
            let j = choose|j: int| 0 <= j < inputs_view(v@).len() && inputs_view(v@)[j] == i@;
            assert(v@[j]@ == i@);
        }
    }
    false
}

fn contains_output(v: &Vec<Output>, o: &Output) -> (r: bool)
    ensures
        r == outputs_view(v@).contains(o@),
{
    let mut k: usize = 0;
    while k < v.len()
        invariant
            k <= v@.len(),
            forall|j: int| 0 <= j < k ==> v@[j]@ != o@,
        decreases v.len() - k,
    {
        if same_output(&v[k], o) {
            assert(outputs_view(v@)[k as int] == o@);
            return true;
        }
        k = k + 1;
    }
    assert(!outputs_view(v@).contains(o@)) by {
        if outputs_view(v@).contains(o@) {
            let j = choose|j: int| 0 <= j < outputs_view(v@).len() && outputs_view(v@)[j] == o@;
            assert(v@[j]@ == o@);
        }
    }
    false
}

proof fn lemma_push_view_input(v: Seq<Input>, i: Input)
    ensures
        inputs_view(v.push(i)) == inputs_view(v).push(i@),
{
    assert(inputs_view(v.push(i)) =~= inputs_view(v).push(i@));
}

proof fn lemma_push_view_output(v: Seq<Output>, o: Output)
    ensures
        outputs_view(v.push(o)) == outputs_view(v).push(o@),
{
    assert(outputs_view(v.push(o)) =~= outputs_view(v).push(o@));
}

proof fn lemma_push_distinct<A>(s: Seq<A>, a: A)
    requires
        distinct(s),
        !s.contains(a),
    ensures
        distinct(s.push(a)),
{
    assert forall|i: int, j: int| 0 <= i < j < s.push(a).len() implies s.push(a)[i] != s.push(a)[j] by {
        if j == s.len() {
            assert(s.push(a)[i] == s[i]);
        } else {
            assert(s.push(a)[i] == s[i]);
            assert(s.push(a)[j] == s[j]);
        }
    }
}

/// The mathematical value of a finalize block: its name, inputs and commands.
pub ghost struct FinalizeView {
    pub name: Seq<char>,
    pub inputs: Seq<InputView>,
    pub commands: Seq<CommandView>,
}

/// The commands that a finalize block allows: no `async`, no `call.dynamic`, nothing that
/// operates on records, and only plain locators as destinations.
pub open spec fn finalize_allows(c: CommandView) -> bool {
    !spec_is_async(c) && !spec_is_dynamic_call(c) && !spec_is_instruction_for_record(c)
        && spec_destinations_are_locators(c)
}

/// What holds of every finalize block that the rules built.
pub open spec fn finalize_valid(f: FinalizeView) -> bool {
    let l = mainnet_limits();
    &&& f.inputs.len() <= l.max_inputs
    &&& distinct(f.inputs)
    &&& forall|k: int| 0 <= k < f.inputs.len() ==> (#[trigger] f.inputs[k]).register.is_locator
    &&& f.commands.len() <= l.max_commands
    &&& count_writes(f.commands) <= l.max_writes
    &&& count_calls(f.commands) <= l.max_calls
    &&& forall|k: int| 0 <= k < f.commands.len() ==> finalize_allows(#[trigger] f.commands[k])
    &&& positions_of(f.commands).len() <= l.max_positions
    &&& distinct_names(positions_of(f.commands))
    &&& branches_forward(f.commands)
}

/// Why the finalize block refuses the input statement, if it does.
pub open spec fn finalize_input_error(f: FinalizeView, i: InputView) -> Option<ScopeError> {
    if f.commands.len() > 0 {
        Some(ScopeError::InputAfterCommand)
    } else if f.inputs.len() >= mainnet_limits().max_inputs {
        Some(ScopeError::TooManyInputs)
    } else if f.inputs.contains(i) {
        Some(ScopeError::DuplicateInput)
    } else if !i.register.is_locator {
        Some(ScopeError::InputNotLocator)
    } else {
        None
    }
}

/// Why the finalize block refuses the command, if it does. The rules are checked in this
/// order.
pub open spec fn finalize_command_error(f: FinalizeView, c: CommandView) -> Option<ScopeError> {
    let l = mainnet_limits();
    if f.commands.len() >= l.max_commands {
        Some(ScopeError::TooManyCommands)
    } else if spec_is_write(c) && count_writes(f.commands) >= l.max_writes {
        Some(ScopeError::TooManyWrites)
    } else if spec_is_async(c) {
        Some(ScopeError::AsyncForbidden)
    } else if spec_is_dynamic_call(c) {
        Some(ScopeError::DynamicCallForbidden)
    } else if spec_is_call(c) && count_calls(f.commands) >= l.max_calls {
        Some(ScopeError::TooManyCalls)
    } else if spec_is_instruction_for_record(c) {
        Some(ScopeError::RecordForbidden)
    } else if !spec_destinations_are_locators(c) {
        Some(ScopeError::DestinationNotLocator)
    } else {
        position_error(f.commands, c, l)
    }
}

/// The result of an addition that fails exactly with the given error.
pub open spec fn outcome(e: Option<ScopeError>) -> Result<(), ScopeError> {
    match e {
        Some(e) => Err(e),
        None => Ok(()),
    }
}

/// The finalize block of a function: the code that runs on chain after the function, with
/// its inputs and commands.
pub struct FinalizeCore {
    name: Identifier,
    inputs: Vec<Input>,
    body: CommandList,
}

impl View for FinalizeCore {
    type V = FinalizeView;

    closed spec fn view(&self) -> FinalizeView {
        FinalizeView { name: self.name@, inputs: inputs_view(self.inputs@), commands: self.body@ }
    }
}

impl FinalizeCore {
    /// The block is valid and its parts agree with each other.
    pub closed spec fn wf(&self) -> bool {
        self.body.wf() && finalize_valid(self@)
    }

    /// A new finalize block with the given name and nothing in it.
    pub fn new(name: Identifier) -> (r: FinalizeCore)
        ensures
            r.wf(),
            r@ == (FinalizeView { name: name@, inputs: Seq::empty(), commands: Seq::empty() }),
    {
        let r = FinalizeCore { name, inputs: Vec::new(), body: CommandList::new() };
        assert(inputs_view(r.inputs@) =~= Seq::<InputView>::empty());
        r
    }

    /// The name of the function that the block belongs to.
    pub fn name(&self) -> (r: &Identifier)
        ensures
            r@ == self@.name,
    {
        &self.name
    }

    /// The input statements, in order.
    pub fn inputs(&self) -> (r: &Vec<Input>)
        ensures
            inputs_view(r@) == self@.inputs,
    {
        &self.inputs
    }

    /// The commands, in order of execution.
    pub fn commands(&self) -> (r: &Vec<Command>)
        ensures
            commands_view(r@) == self@.commands,
    {
        self.body.commands()
    }

    /// The number of `set` and `remove` commands.
    pub fn num_writes(&self) -> (r: u16)
        requires
            self.wf(),
        ensures
            r == count_writes(self@.commands),
    {
        self.body.num_writes()
    }

    /// The positions: each one's name and the index of the command that defines it.
    pub fn positions(&self) -> (r: &Vec<(Identifier, usize)>)
        requires
            self.wf(),
        ensures
            positions_view(r@) == positions_of(self@.commands),
    {
        self.body.positions()
    }

    /// Adds an input statement: refused after a command, beyond the most inputs, for a
    /// statement that was added before, and for a register that is not a plain locator.
    pub fn add_input(&mut self, input: Input) -> (r: Result<(), ScopeError>)
        requires
            old(self).wf(),
        ensures
            final(self).wf(),
            r == outcome(finalize_input_error(old(self)@, input@)),
            r is Ok ==> final(self)@ == (FinalizeView {
                inputs: old(self)@.inputs.push(input@),
                ..old(self)@
            }),
            r is Err ==> final(self)@ == old(self)@,
    {
        let l = network_limits();
        if self.body.len() > 0 {
            return Err(ScopeError::InputAfterCommand);
        }
        if self.inputs.len() >= l.max_inputs {
            return Err(ScopeError::TooManyInputs);
        }
        if contains_input(&self.inputs, &input) {
            return Err(ScopeError::DuplicateInput);
        }
        if !input.register.is_locator {
            return Err(ScopeError::InputNotLocator);
        }
        let ghost before = self.inputs@;
        proof {
            lemma_push_view_input(before, input);
            lemma_push_distinct(inputs_view(before), input@);
        }
        self.inputs.push(input);
        proof {
            let f = self@;
            assert forall|k: int| 0 <= k < f.inputs.len() implies (#[trigger] f.inputs[k]).register.is_locator by {
                if k < before.len() {
                    assert(f.inputs[k] == old(self)@.inputs[k]);
                }
            }
        }
        Ok(())
    }

    /// Adds a command: refused beyond the most commands, beyond the most writes or calls,
    /// for `async`, `call.dynamic` and record operations, for destinations that are not
    /// plain locators, and by the position rules.
    pub fn add_command(&mut self, command: Command) -> (r: Result<(), ScopeError>)
        requires
            old(self).wf(),
        ensures
            final(self).wf(),
            r == outcome(finalize_command_error(old(self)@, command@)),
            r is Ok ==> final(self)@ == (FinalizeView {
                commands: old(self)@.commands.push(command@),
                ..old(self)@
            }),
            r is Err ==> final(self)@ == old(self)@,
    {
        let l = network_limits();
        proof {
            self.body.lemma_wf();
        }
        if self.body.len() >= l.max_commands {
            return Err(ScopeError::TooManyCommands);
        }
        if command.is_write() && self.body.num_writes() >= l.max_writes {
            return Err(ScopeError::TooManyWrites);
        }
        if command.is_async() {
            return Err(ScopeError::AsyncForbidden);
        }
        if command.is_dynamic_call() {
            return Err(ScopeError::DynamicCallForbidden);
        }
        if command.is_call() && (self.body.num_calls() as usize) >= l.max_calls {
            return Err(ScopeError::TooManyCalls);
        }
        if command.is_instruction_for_record() {
            return Err(ScopeError::RecordForbidden);
        }
        if !command.destinations_are_locators() {
            return Err(ScopeError::DestinationNotLocator);
        }
        if let Some(e) = self.body.position_error(&command, &l) {
            return Err(e);
        }
        let ghost cmds = self@.commands;
        let ghost cv = command@;
        proof {
            lemma_positions_push(cmds, cv);
        }
        self.body.push(command, &l);
        proof {
            self.body.lemma_wf();
            let f = self@;
            assert forall|k: int| 0 <= k < f.commands.len() implies finalize_allows(#[trigger] f.commands[k]) by {
                if k < cmds.len() {
                    assert(f.commands[k] == cmds[k]);
                }
            }
        }
        Ok(())
    }
}

/// The mathematical value of a view: its name, inputs, commands and outputs.
pub ghost struct ViewView {
    pub name: Seq<char>,
    pub inputs: Seq<InputView>,
    pub commands: Seq<CommandView>,
    pub outputs: Seq<OutputView>,
}

/// The commands that a view allows: it reads state but changes nothing and calls nothing, so
/// no `set` or `remove`, no `async`, no `await`, no `call`, nothing that operates on records,
/// no `rand.chacha`, and only plain locators as destinations.
pub open spec fn view_allows(c: CommandView) -> bool {
    !spec_is_write(c) && !spec_is_async(c) && !spec_is_await(c) && !spec_is_call(c)
        && !spec_is_instruction_for_record(c) && !spec_is_rand_chacha(c)
        && spec_destinations_are_locators(c)
}

/// What holds of every view that the rules built.
pub open spec fn view_valid(v: ViewView) -> bool {
    let l = mainnet_limits();
    &&& v.inputs.len() <= l.max_inputs
    &&& distinct(v.inputs)
    &&& forall|k: int|
        0 <= k < v.inputs.len() ==> (#[trigger] v.inputs[k]).register.is_locator
            && v.inputs[k].plaintext
    &&& v.commands.len() <= l.max_commands
    &&& forall|k: int| 0 <= k < v.commands.len() ==> view_allows(#[trigger] v.commands[k])
    &&& positions_of(v.commands).len() <= l.max_positions
    &&& distinct_names(positions_of(v.commands))
    &&& branches_forward(v.commands)
    &&& v.outputs.len() <= l.max_outputs
    &&& distinct(v.outputs)
    &&& forall|k: int| 0 <= k < v.outputs.len() ==> (#[trigger] v.outputs[k]).plaintext
}

/// Why the view refuses the input statement, if it does.
pub open spec fn view_input_error(v: ViewView, i: InputView) -> Option<ScopeError> {
    if v.commands.len() > 0 {
        Some(ScopeError::InputAfterCommand)
    } else if v.outputs.len() > 0 {
        Some(ScopeError::InputAfterOutput)
    } else if v.inputs.len() >= mainnet_limits().max_inputs {
        Some(ScopeError::TooManyInputs)
    } else if v.inputs.contains(i) {
        Some(ScopeError::DuplicateInput)
    } else if !i.plaintext {
        Some(ScopeError::InputNotPlaintext)
    } else if !i.register.is_locator {
        Some(ScopeError::InputNotLocator)
    } else {
        None
    }
}

/// Why the view refuses the command, if it does. The rules are checked in this order.
pub open spec fn view_command_error(v: ViewView, c: CommandView) -> Option<ScopeError> {
    let l = mainnet_limits();
    if v.outputs.len() > 0 {
        Some(ScopeError::CommandAfterOutput)
    } else if v.commands.len() >= l.max_commands {
        Some(ScopeError::TooManyCommands)
    } else if spec_is_write(c) {
        Some(ScopeError::WriteForbidden)
    } else if spec_is_async(c) {
        Some(ScopeError::AsyncForbidden)
    } else if spec_is_await(c) {
        Some(ScopeError::AwaitForbidden)
    } else if spec_is_call(c) {
        Some(ScopeError::CallForbidden)
    } else if spec_is_instruction_for_record(c) {
        Some(ScopeError::RecordForbidden)
    } else if spec_is_rand_chacha(c) {
        Some(ScopeError::RandChachaForbidden)
    } else if !spec_destinations_are_locators(c) {
        Some(ScopeError::DestinationNotLocator)
    } else {
        position_error(v.commands, c, l)
    }
}

/// Why the view refuses the output statement, if it does.
pub open spec fn view_output_error(v: ViewView, o: OutputView) -> Option<ScopeError> {
    if v.outputs.len() >= mainnet_limits().max_outputs {
        Some(ScopeError::TooManyOutputs)
    } else if !o.plaintext {
        Some(ScopeError::OutputNotPlaintext)
    } else {
        None
    }
}

/// The outputs after adding one: an output statement that is already there is not added a
/// second time.
pub open spec fn with_output(outputs: Seq<OutputView>, o: OutputView) -> Seq<OutputView> {
    if outputs.contains(o) {
        outputs
    } else {
        outputs.push(o)
    }
}

/// A view: a named, read-only block of a program that can be called from outside and
/// returns values. It can read mappings but cannot change state, schedule work or call
/// functions.
pub struct ViewCore {
    name: Identifier,
    inputs: Vec<Input>,
    body: CommandList,
    outputs: Vec<Output>,
}

impl View for ViewCore {
    type V = ViewView;

    closed spec fn view(&self) -> ViewView {
        ViewView {
            name: self.name@,
            inputs: inputs_view(self.inputs@),
            commands: self.body@,
            outputs: outputs_view(self.outputs@),
        }
    }
}

impl ViewCore {
    /// The view is valid and its parts agree with each other.
    pub closed spec fn wf(&self) -> bool {
        self.body.wf() && view_valid(self@)
    }

    /// A new view with the given name and nothing in it.
    pub fn new(name: Identifier) -> (r: ViewCore)
        ensures
            r.wf(),
            r@ == (ViewView {
                name: name@,
                inputs: Seq::empty(),
                commands: Seq::empty(),
                outputs: Seq::empty(),
            }),
    {
        let r = ViewCore { name, inputs: Vec::new(), body: CommandList::new(), outputs: Vec::new() };
        assert(inputs_view(r.inputs@) =~= Seq::<InputView>::empty());
        assert(outputs_view(r.outputs@) =~= Seq::<OutputView>::empty());
        r
    }

    /// The name of the view.
    pub fn name(&self) -> (r: &Identifier)
        ensures
            r@ == self@.name,
    {
        &self.name
    }

    /// The input statements, in order.
    pub fn inputs(&self) -> (r: &Vec<Input>)
        ensures
            inputs_view(r@) == self@.inputs,
    {
        &self.inputs
    }

    /// The commands, in order of execution.
    pub fn commands(&self) -> (r: &Vec<Command>)
        ensures
            commands_view(r@) == self@.commands,
    {
        self.body.commands()
    }

    /// The output statements, in order.
    pub fn outputs(&self) -> (r: &Vec<Output>)
        ensures
            outputs_view(r@) == self@.outputs,
    {
        &self.outputs
    }

    /// The positions: each one's name and the index of the command that defines it.
    pub fn positions(&self) -> (r: &Vec<(Identifier, usize)>)
        requires
            self.wf(),
        ensures
            positions_view(r@) == positions_of(self@.commands),
    {
        self.body.positions()
    }

    /// Adds an input statement: refused after a command or an output, beyond the most
    /// inputs, for a statement that was added before, for a type that is not plaintext, and
    /// for a register that is not a plain locator.
    pub fn add_input(&mut self, input: Input) -> (r: Result<(), ScopeError>)
        requires
            old(self).wf(),
        ensures
            final(self).wf(),
            r == outcome(view_input_error(old(self)@, input@)),
            r is Ok ==> final(self)@ == (ViewView {
                inputs: old(self)@.inputs.push(input@),
                ..old(self)@
            }),
            r is Err ==> final(self)@ == old(self)@,
    {
        let l = network_limits();
        if self.body.len() > 0 {
            return Err(ScopeError::InputAfterCommand);
        }
        if self.outputs.len() > 0 {
            return Err(ScopeError::InputAfterOutput);
        }
        if self.inputs.len() >= l.max_inputs {
            return Err(ScopeError::TooManyInputs);
        }
        if contains_input(&self.inputs, &input) {
            return Err(ScopeError::DuplicateInput);
        }
        if !input.plaintext {
            return Err(ScopeError::InputNotPlaintext);
        }
        if !input.register.is_locator {
            return Err(ScopeError::InputNotLocator);
        }
        let ghost before = self.inputs@;
        proof {
            lemma_push_view_input(before, input);
            lemma_push_distinct(inputs_view(before), input@);
        }
        self.inputs.push(input);
        proof {
            let f = self@;
            assert forall|k: int| 0 <= k < f.inputs.len() implies (#[trigger] f.inputs[k]).register.is_locator
                && f.inputs[k].plaintext by {
                if k < before.len() {
                    assert(f.inputs[k] == old(self)@.inputs[k]);
                }
            }
        }
        Ok(())
    }

    /// Adds a command: refused after an output, beyond the most commands, for any command
    /// that writes, schedules, awaits, calls, operates on records or draws randomness, for
    /// destinations that are not plain locators, and by the position rules.
    pub fn add_command(&mut self, command: Command) -> (r: Result<(), ScopeError>)
        requires
            old(self).wf(),
        ensures
            final(self).wf(),
            r == outcome(view_command_error(old(self)@, command@)),
            r is Ok ==> final(self)@ == (ViewView {
                commands: old(self)@.commands.push(command@),
                ..old(self)@
            }),
            r is Err ==> final(self)@ == old(self)@,
    {
        let l = network_limits();
        proof {
            self.body.lemma_wf();
        }
        if self.outputs.len() > 0 {
            return Err(ScopeError::CommandAfterOutput);
        }
        if self.body.len() >= l.max_commands {
            return Err(ScopeError::TooManyCommands);
        }
        if command.is_write() {
            return Err(ScopeError::WriteForbidden);
        }
        if command.is_async() {
            return Err(ScopeError::AsyncForbidden);
        }
        if command.is_await() {
            return Err(ScopeError::AwaitForbidden);
        }
        if command.is_call() {
            return Err(ScopeError::CallForbidden);
        }
        if command.is_instruction_for_record() {
            return Err(ScopeError::RecordForbidden);
        }
        if command.is_rand_chacha() {
            return Err(ScopeError::RandChachaForbidden);
        }
        if !command.destinations_are_locators() {
            return Err(ScopeError::DestinationNotLocator);
        }
        if let Some(e) = self.body.position_error(&command, &l) {
            return Err(e);
        }
        let ghost cmds = self@.commands;
        let ghost cv = command@;
        proof {
            lemma_positions_push(cmds, cv);
        }
        self.body.push(command, &l);
        proof {
            self.body.lemma_wf();
            let f = self@;
            assert forall|k: int| 0 <= k < f.commands.len() implies view_allows(#[trigger] f.commands[k]) by {
                if k < cmds.len() {
                    assert(f.commands[k] == cmds[k]);
                }
            }
        }
        Ok(())
    }

    /// Adds an output statement: refused beyond the most outputs and for a type that is not
    /// plaintext. A statement that is already there is not added again.
    pub fn add_output(&mut self, output: Output) -> (r: Result<(), ScopeError>)
        requires
            old(self).wf(),
        ensures
            final(self).wf(),
            r == outcome(view_output_error(old(self)@, output@)),
            r is Ok ==> final(self)@ == (ViewView {
                outputs: with_output(old(self)@.outputs, output@),
                ..old(self)@
            }),
            r is Err ==> final(self)@ == old(self)@,
    {
        let l = network_limits();
        if self.outputs.len() >= l.max_outputs {
            return Err(ScopeError::TooManyOutputs);
        }
        if !output.plaintext {
            return Err(ScopeError::OutputNotPlaintext);
        }
        if contains_output(&self.outputs, &output) {
            return Ok(());
        }
        let ghost before = self.outputs@;
        proof {
            lemma_push_view_output(before, output);
            lemma_push_distinct(outputs_view(before), output@);
        }
        self.outputs.push(output);
        proof {
            let f = self@;
            assert forall|k: int| 0 <= k < f.outputs.len() implies (#[trigger] f.outputs[k]).plaintext by {
                if k < before.len() {
                    assert(f.outputs[k] == old(self)@.outputs[k]);
                }
            }
        }
        Ok(())
    }
}

/// The mathematical value of a constructor: its commands.
pub ghost struct ConstructorView {
    pub commands: Seq<CommandView>,
}

/// The commands that a constructor allows: no `async`, no `call`, nothing that operates on
/// records, no `await`, and only plain locators as destinations.
pub open spec fn constructor_allows(c: CommandView) -> bool {
    !spec_is_async(c) && !spec_is_call(c) && !spec_is_instruction_for_record(c) && !spec_is_await(c)
        && spec_destinations_are_locators(c)
}

/// What holds of every constructor that the rules built.
pub open spec fn constructor_valid(v: ConstructorView) -> bool {
    let l = mainnet_limits();
    &&& v.commands.len() <= l.max_commands
    &&& count_writes(v.commands) <= l.max_writes
    &&& forall|k: int| 0 <= k < v.commands.len() ==> constructor_allows(#[trigger] v.commands[k])
    &&& positions_of(v.commands).len() <= l.max_positions
    &&& distinct_names(positions_of(v.commands))
    &&& branches_forward(v.commands)
}

/// Why the constructor refuses the command, if it does. The rules are checked in this order.
pub open spec fn constructor_command_error(v: ConstructorView, c: CommandView) -> Option<ScopeError> {
    let l = mainnet_limits();
    if v.commands.len() >= l.max_commands {
        Some(ScopeError::TooManyCommands)
    } else if spec_is_write(c) && count_writes(v.commands) >= l.max_writes {
        Some(ScopeError::TooManyWrites)
    } else if spec_is_async(c) {
        Some(ScopeError::AsyncForbidden)
    } else if spec_is_call(c) {
        Some(ScopeError::CallForbidden)
    } else if spec_is_instruction_for_record(c) {
        Some(ScopeError::RecordForbidden)
    } else if spec_is_await(c) {
        Some(ScopeError::AwaitForbidden)
    } else if !spec_destinations_are_locators(c) {
        Some(ScopeError::DestinationNotLocator)
    } else {
        position_error(v.commands, c, l)
    }
}

/// The constructor of a program: the commands that run once, when the program is deployed.
pub struct ConstructorCore {
    body: CommandList,
}

impl View for ConstructorCore {
    type V = ConstructorView;

    closed spec fn view(&self) -> ConstructorView {
        ConstructorView { commands: self.body@ }
    }
}

impl ConstructorCore {
    /// The constructor is valid and its parts agree with each other.
    pub closed spec fn wf(&self) -> bool {
        self.body.wf() && constructor_valid(self@)
    }

    /// A new constructor with no commands.
    pub fn new() -> (r: ConstructorCore)
        ensures
            r.wf(),
            r@.commands == Seq::<CommandView>::empty(),
    {
        ConstructorCore { body: CommandList::new() }
    }

    /// The commands, in order of execution.
    pub fn commands(&self) -> (r: &Vec<Command>)
        ensures
            commands_view(r@) == self@.commands,
    {
        self.body.commands()
    }

    /// The number of `set` and `remove` commands.
    pub fn num_writes(&self) -> (r: u16)
        requires
            self.wf(),
        ensures
            r == count_writes(self@.commands),
    {
        self.body.num_writes()
    }

    /// The positions: each one's name and the index of the command that defines it.
    pub fn positions(&self) -> (r: &Vec<(Identifier, usize)>)
        requires
            self.wf(),
        ensures
            positions_view(r@) == positions_of(self@.commands),
    {
        self.body.positions()
    }

    /// Adds a command: refused beyond the most commands or writes, for `async`, `call`,
    /// record operations and `await`, for destinations that are not plain locators, and by
    /// the position rules.
    pub fn add_command(&mut self, command: Command) -> (r: Result<(), ScopeError>)
        requires
            old(self).wf(),
        ensures
            final(self).wf(),
            r == outcome(constructor_command_error(old(self)@, command@)),
            r is Ok ==> final(self)@.commands == old(self)@.commands.push(command@),
            r is Err ==> final(self)@ == old(self)@,
    {
        let l = network_limits();
        proof {
            self.body.lemma_wf();
        }
        if self.body.len() >= l.max_commands {
            return Err(ScopeError::TooManyCommands);
        }
        if command.is_write() && self.body.num_writes() >= l.max_writes {
            return Err(ScopeError::TooManyWrites);
        }
        if command.is_async() {
            return Err(ScopeError::AsyncForbidden);
        }
        if command.is_call() {
            return Err(ScopeError::CallForbidden);
        }
        if command.is_instruction_for_record() {
            return Err(ScopeError::RecordForbidden);
        }
        if command.is_await() {
            return Err(ScopeError::AwaitForbidden);
        }
        if !command.destinations_are_locators() {
            return Err(ScopeError::DestinationNotLocator);
        }
        if let Some(e) = self.body.position_error(&command, &l) {
            return Err(e);
        }
        let ghost cmds = self@.commands;
        let ghost cv = command@;
        proof {
            lemma_positions_push(cmds, cv);
        }
        self.body.push(command, &l);
        proof {
            self.body.lemma_wf();
            let f = self@;
            assert forall|k: int| 0 <= k < f.commands.len() implies constructor_allows(#[trigger] f.commands[k]) by {
                if k < cmds.len() {
                    assert(f.commands[k] == cmds[k]);
                }
            }
        }
        Ok(())
    }
}

/// The mathematical value of the body of a closure or a function: its inputs, instructions
/// and outputs.
pub ghost struct BlockView {
    pub inputs: Seq<InputView>,
    pub instructions: Seq<CommandView>,
    pub outputs: Seq<OutputView>,
}

/// What holds of every closure or function body that the rules built.
pub open spec fn block_valid(b: BlockView) -> bool {
    let l = mainnet_limits();
    &&& b.inputs.len() <= l.max_inputs
    &&& distinct(b.inputs)
    &&& forall|k: int| 0 <= k < b.inputs.len() ==> (#[trigger] b.inputs[k]).register.is_locator
    &&& b.instructions.len() <= l.max_instructions
    &&& forall|k: int|
        0 <= k < b.instructions.len() ==> spec_is_instruction(#[trigger] b.instructions[k])
            && spec_destinations_are_locators(b.instructions[k])
    &&& b.outputs.len() <= l.max_outputs
    &&& distinct(b.outputs)
}

/// Why the body refuses the input statement, if it does.
pub open spec fn block_input_error(b: BlockView, i: InputView) -> Option<ScopeError> {
    if b.instructions.len() > 0 {
        Some(ScopeError::InputAfterCommand)
    } else if b.outputs.len() > 0 {
        Some(ScopeError::InputAfterOutput)
    } else if b.inputs.len() >= mainnet_limits().max_inputs {
        Some(ScopeError::TooManyInputs)
    } else if b.inputs.contains(i) {
        Some(ScopeError::DuplicateInput)
    } else if !i.register.is_locator {
        Some(ScopeError::InputNotLocator)
    } else {
        None
    }
}

/// Why the body refuses the instruction, if it does.
pub open spec fn block_instruction_error(b: BlockView, c: CommandView) -> Option<ScopeError> {
    if b.outputs.len() > 0 {
        Some(ScopeError::CommandAfterOutput)
    } else if b.instructions.len() >= mainnet_limits().max_instructions {
        Some(ScopeError::TooManyCommands)
    } else if !spec_is_instruction(c) {
        Some(ScopeError::NotAnInstruction)
    } else if !spec_destinations_are_locators(c) {
        Some(ScopeError::DestinationNotLocator)
    } else {
        None
    }
}

/// Why the body refuses the output statement, if it does.
pub open spec fn block_output_error(b: BlockView, o: OutputView) -> Option<ScopeError> {
    if b.outputs.len() >= mainnet_limits().max_outputs {
        Some(ScopeError::TooManyOutputs)
    } else {
        None
    }
}

/// The body of a closure or a function: its input statements, its instructions and its
/// output statements.
pub struct Block {
    inputs: Vec<Input>,
    instructions: Vec<Command>,
    outputs: Vec<Output>,
}

impl View for Block {
    type V = BlockView;

    closed spec fn view(&self) -> BlockView {
        BlockView {
            inputs: inputs_view(self.inputs@),
            instructions: commands_view(self.instructions@),
            outputs: outputs_view(self.outputs@),
        }
    }
}

impl Block {
    /// An empty body.
    pub fn new() -> (r: Block)
        ensures
            block_valid(r@),
            r@ == (BlockView { inputs: Seq::empty(), instructions: Seq::empty(), outputs: Seq::empty() }),
    {
        let r = Block { inputs: Vec::new(), instructions: Vec::new(), outputs: Vec::new() };
        assert(inputs_view(r.inputs@) =~= Seq::<InputView>::empty());
        assert(commands_view(r.instructions@) =~= Seq::<CommandView>::empty());
        assert(outputs_view(r.outputs@) =~= Seq::<OutputView>::empty());
        r
    }

    /// The input statements, in order.
    pub fn inputs(&self) -> (r: &Vec<Input>)
        ensures
            inputs_view(r@) == self@.inputs,
    {
        &self.inputs
    }

    /// The instructions, in order of execution.
    pub fn instructions(&self) -> (r: &Vec<Command>)
        ensures
            commands_view(r@) == self@.instructions,
    {
        &self.instructions
    }

    /// The output statements, in order.
    pub fn outputs(&self) -> (r: &Vec<Output>)
        ensures
            outputs_view(r@) == self@.outputs,
    {
        &self.outputs
    }

    /// Adds an input statement: refused after an instruction or an output, beyond the most
    /// inputs, for a statement that was added before, and for a register that is not a plain
    /// locator.
    pub fn add_input(&mut self, input: Input) -> (r: Result<(), ScopeError>)
        requires
            block_valid(old(self)@),
        ensures
            block_valid(final(self)@),
            r == outcome(block_input_error(old(self)@, input@)),
            r is Ok ==> final(self)@ == (BlockView {
                inputs: old(self)@.inputs.push(input@),
                ..old(self)@
            }),
            r is Err ==> final(self)@ == old(self)@,
    {
        let l = network_limits();
        if self.instructions.len() > 0 {
            return Err(ScopeError::InputAfterCommand);
        }
        if self.outputs.len() > 0 {
            return Err(ScopeError::InputAfterOutput);
        }
        if self.inputs.len() >= l.max_inputs {
            return Err(ScopeError::TooManyInputs);
        }
        if contains_input(&self.inputs, &input) {
            return Err(ScopeError::DuplicateInput);
        }
        if !input.register.is_locator {
            return Err(ScopeError::InputNotLocator);
        }
        let ghost before = self.inputs@;
        proof {
            lemma_push_view_input(before, input);
            lemma_push_distinct(inputs_view(before), input@);
        }
        self.inputs.push(input);
        proof {
            let f = self@;
            assert forall|k: int| 0 <= k < f.inputs.len() implies (#[trigger] f.inputs[k]).register.is_locator by {
                if k < before.len() {
                    assert(f.inputs[k] == old(self)@.inputs[k]);
                }
            }
        }
        Ok(())
    }

    /// Adds an instruction: refused after an output, beyond the most instructions, for a
    /// statement that is a command rather than an instruction, and for destinations that are
    /// not plain locators.
    pub fn add_instruction(&mut self, instruction: Command) -> (r: Result<(), ScopeError>)
        requires
            block_valid(old(self)@),
        ensures
            block_valid(final(self)@),
            r == outcome(block_instruction_error(old(self)@, instruction@)),
            r is Ok ==> final(self)@ == (BlockView {
                instructions: old(self)@.instructions.push(instruction@),
                ..old(self)@
            }),
            r is Err ==> final(self)@ == old(self)@,
    {
        let l = network_limits();
        if self.outputs.len() > 0 {
            return Err(ScopeError::CommandAfterOutput);
        }
        if self.instructions.len() >= l.max_instructions {
            return Err(ScopeError::TooManyCommands);
        }
        if !instruction.is_instruction() {
            return Err(ScopeError::NotAnInstruction);
        }
        if !instruction.destinations_are_locators() {
            return Err(ScopeError::DestinationNotLocator);
        }
        let ghost before = self.instructions@;
        let ghost cv = instruction@;
        self.instructions.push(instruction);
        proof {
            assert(commands_view(self.instructions@) =~= commands_view(before).push(cv));
            let f = self@;
            assert forall|k: int| 0 <= k < f.instructions.len() implies spec_is_instruction(
                #[trigger] f.instructions[k],
            ) && spec_destinations_are_locators(f.instructions[k]) by {
                if k < before.len() {
                    assert(f.instructions[k] == old(self)@.instructions[k]);
                }
            }
        }
        Ok(())
    }

    /// Adds an output statement: refused beyond the most outputs. A statement that is
    /// already there is not added again.
    pub fn add_output(&mut self, output: Output) -> (r: Result<(), ScopeError>)
        requires
            block_valid(old(self)@),
        ensures
            block_valid(final(self)@),
            r == outcome(block_output_error(old(self)@, output@)),
            r is Ok ==> final(self)@ == (BlockView {
                outputs: with_output(old(self)@.outputs, output@),
                ..old(self)@
            }),
            r is Err ==> final(self)@ == old(self)@,
    {
        let l = network_limits();
        if self.outputs.len() >= l.max_outputs {
            return Err(ScopeError::TooManyOutputs);
        }
        if contains_output(&self.outputs, &output) {
            return Ok(());
        }
        let ghost before = self.outputs@;
        proof {
            lemma_push_view_output(before, output);
            lemma_push_distinct(outputs_view(before), output@);
        }
        self.outputs.push(output);
        Ok(())
    }
}

/// The mathematical value of a closure: its name and its body.
pub ghost struct ClosureView {
    pub name: Seq<char>,
    pub block: BlockView,
}

/// A closure: a named body of instructions that functions of the program can call.
pub struct ClosureCore {
    pub name: Identifier,
    pub block: Block,
}

impl View for ClosureCore {
    type V = ClosureView;

    open spec fn view(&self) -> ClosureView {
        ClosureView { name: self.name@, block: self.block@ }
    }
}

/// The mathematical value of a function: its name, its body and its finalize block.
pub ghost struct FunctionView {
    pub name: Seq<char>,
    pub block: BlockView,
    pub finalize: Option<FinalizeView>,
}

/// A function: a named body of instructions that can be called from outside, with an
/// optional finalize block that runs on chain afterwards.
pub struct FunctionCore {
    name: Identifier,
    block: Block,
    finalize: Option<FinalizeCore>,
}

impl View for FunctionCore {
    type V = FunctionView;

    closed spec fn view(&self) -> FunctionView {
        FunctionView {
            name: self.name@,
            block: self.block@,
            finalize: match self.finalize {
                Some(f) => Some(f@),
                None => None,
            },
        }
    }
}

impl FunctionCore {
    /// The body is valid, and so is the finalize block, if any.
    pub closed spec fn wf(&self) -> bool {
        &&& block_valid(self.block@)
        &&& self.finalize matches Some(f) ==> f.wf()
    }

    /// A new function with the given name and body and no finalize block.
    pub fn new(name: Identifier, block: Block) -> (r: FunctionCore)
        requires
            block_valid(block@),
        ensures
            r.wf(),
            r@ == (FunctionView { name: name@, block: block@, finalize: None }),
    {
        FunctionCore { name, block, finalize: None }
    }

    /// The name of the function.
    pub fn name(&self) -> (r: &Identifier)
        ensures
            r@ == self@.name,
    {
        &self.name
    }

    /// The body of the function.
    pub fn block(&self) -> (r: &Block)
        ensures
            r@ == self@.block,
    {
        &self.block
    }

    /// The finalize block, if any.
    pub fn finalize(&self) -> (r: &Option<FinalizeCore>)
        requires
            self.wf(),
        ensures
            match r {
                Some(f) => self@.finalize == Some(f@) && f.wf(),
                None => self@.finalize is None,
            },
    {
        &self.finalize
    }

    /// Sets the finalize block: refused if there is one already, or if its name is not the
    /// function's.
    pub fn add_finalize(&mut self, finalize: FinalizeCore) -> (r: Result<(), ScopeError>)
        requires
            old(self).wf(),
            finalize.wf(),
        ensures
            final(self).wf(),
            r == outcome(
                if old(self)@.finalize is Some {
                    Some(ScopeError::FinalizeAlreadySet)
                } else if finalize@.name != old(self)@.name {
                    Some(ScopeError::FinalizeNameMismatch)
                } else {
                    None
                },
            ),
            r is Ok ==> final(self)@ == (FunctionView { finalize: Some(finalize@), ..old(self)@ }),
            r is Err ==> final(self)@ == old(self)@,
    {
        if self.finalize.is_some() {
            return Err(ScopeError::FinalizeAlreadySet);
        }
        if !same_text(finalize.name.name.as_str(), self.name.name.as_str()) {
            return Err(ScopeError::FinalizeNameMismatch);
        }
        self.finalize = Some(finalize);
        Ok(())
    }
}

/// A view only reads: none of its commands writes to a mapping, schedules or awaits a
/// future, calls a function, operates on records or draws randomness, and every destination
/// is a plain locator.
pub proof fn lemma_view_is_read_only(v: &ViewCore)
    requires
        v.wf(),
    ensures
        forall|k: int|
            0 <= k < v@.commands.len() ==> {
                let c = #[trigger] v@.commands[k];
                &&& !spec_is_write(c)
                &&& !spec_is_async(c)
                &&& !spec_is_await(c)
                &&& !spec_is_call(c)
                &&& !spec_is_instruction_for_record(c)
                &&& !spec_is_rand_chacha(c)
                &&& spec_destinations_are_locators(c)
            },
        forall|k: int| 0 <= k < v@.inputs.len() ==> (#[trigger] v@.inputs[k]).plaintext,
        forall|k: int| 0 <= k < v@.outputs.len() ==> (#[trigger] v@.outputs[k]).plaintext,
{
    assert forall|k: int| 0 <= k < v@.commands.len() implies {
        let c = #[trigger] v@.commands[k];
        &&& !spec_is_write(c)
        &&& !spec_is_async(c)
        &&& !spec_is_await(c)
        &&& !spec_is_call(c)
        &&& !spec_is_instruction_for_record(c)
        &&& !spec_is_rand_chacha(c)
        &&& spec_destinations_are_locators(c)
    } by {
        assert(view_allows(v@.commands[k]));
    }
}

/// A finalize block never holds `async`, `call.dynamic` or a record operation, holds at most
/// the network's number of writes, calls and positions, and no two of its input statements
/// are the same.
pub proof fn lemma_finalize_within_limits(f: &FinalizeCore)
    requires
        f.wf(),
    ensures
        forall|k: int|
            0 <= k < f@.commands.len() ==> !spec_is_async(#[trigger] f@.commands[k])
                && !spec_is_dynamic_call(f@.commands[k]) && !spec_is_instruction_for_record(
                f@.commands[k],
            ),
        count_writes(f@.commands) <= mainnet_limits().max_writes,
        count_calls(f@.commands) <= mainnet_limits().max_calls,
        positions_of(f@.commands).len() <= mainnet_limits().max_positions,
        f@.inputs.len() <= mainnet_limits().max_inputs,
        distinct(f@.inputs),
{
    assert forall|k: int|
        0 <= k < f@.commands.len() implies !spec_is_async(#[trigger] f@.commands[k])
            && !spec_is_dynamic_call(f@.commands[k]) && !spec_is_instruction_for_record(
            f@.commands[k],
        ) by {
        assert(finalize_allows(f@.commands[k]));
    }
}

/// In every scope that holds commands, no branch names a position that a command before it
/// defines, and no position is defined twice.
pub proof fn lemma_branches_go_forward(cmds: Seq<CommandView>)
    requires
        branches_forward(cmds),
        distinct_names(positions_of(cmds)),
    ensures
        forall|k: int, j: int|
            0 <= j < k < cmds.len() && spec_position(cmds[j]) is Some && spec_branch_to(
                #[trigger] cmds[k],
            ) is Some ==> spec_branch_to(cmds[k])->0 != spec_position(#[trigger] cmds[j])->0,
{
    assert forall|k: int, j: int|
        0 <= j < k < cmds.len() && spec_position(cmds[j]) is Some && spec_branch_to(
            #[trigger] cmds[k],
        ) is Some implies spec_branch_to(cmds[k])->0 != spec_position(#[trigger] cmds[j])->0 by {
        let pre = cmds.take(k);
        assert(pre[j] == cmds[j]);
        lemma_position_commands_are_listed(pre, j);
        let i = choose|i: int|
            0 <= i < positions_of(pre).len() && #[trigger] positions_of(pre)[i] == (
                spec_position(pre[j])->0,
                j as nat,
            );
        if spec_branch_to(cmds[k])->0 == spec_position(cmds[j])->0 {
            assert(positions_of(pre)[i].0 == spec_branch_to(cmds[k])->0);
            assert(defines_position(positions_of(pre), spec_branch_to(cmds[k])->0));
        }
    }
}

impl FinalizeCore {
    /// Every finalize block that the rules built is valid.
    pub proof fn lemma_valid(&self)
        requires
            self.wf(),
        ensures
            finalize_valid(self@),
    {
    }
}

impl ViewCore {
    /// Every view that the rules built is valid.
    pub proof fn lemma_valid(&self)
        requires
            self.wf(),
        ensures
            view_valid(self@),
    {
    }
}

impl ConstructorCore {
    /// Every constructor that the rules built is valid.
    pub proof fn lemma_valid(&self)
        requires
            self.wf(),
        ensures
            constructor_valid(self@),
    {
    }
}

/// The message of an error.
pub open spec fn scope_error_message(e: ScopeError) -> Seq<char> {
    match e {
            ScopeError::InputAfterCommand => "Cannot add inputs after commands have been added"@,
            ScopeError::InputAfterOutput => "Cannot add inputs after outputs have been added"@,
            ScopeError::TooManyInputs => "Cannot add more inputs than the limit allows"@,
            ScopeError::DuplicateInput => "Cannot add duplicate input statement"@,
            ScopeError::InputNotPlaintext => "Inputs must be plaintext (futures are forbidden)"@,
            ScopeError::InputNotLocator => "Input register must be a locator"@,
            ScopeError::CommandAfterOutput => "Cannot add commands after outputs have been added"@,
            ScopeError::TooManyCommands => "Cannot add more commands than the limit allows"@,
            ScopeError::TooManyWrites => "Cannot add more 'set' & 'remove' commands than the limit allows"@,
            ScopeError::AsyncForbidden => "Forbidden operation: cannot invoke an 'async' instruction"@,
            ScopeError::DynamicCallForbidden => "Forbidden operation: cannot invoke a 'call.dynamic'"@,
            ScopeError::CallForbidden => "Forbidden operation: cannot 'call' another function"@,
            ScopeError::TooManyCalls => "Cannot add more 'call' commands than the limit allows"@,
            ScopeError::RecordForbidden => "Forbidden operation: cannot operate on records"@,
            ScopeError::AwaitForbidden => "Forbidden operation: cannot 'await' a future"@,
            ScopeError::WriteForbidden => "Forbidden operation: view functions cannot use 'set' or 'remove'"@,
            ScopeError::RandChachaForbidden => "Forbidden operation: view functions cannot use 'rand.chacha'"@,
            ScopeError::NotAnInstruction => "Only instructions are allowed here"@,
            ScopeError::DestinationNotLocator => "Destination register must be a locator"@,
            ScopeError::BranchToEarlierPosition => "Cannot branch to an earlier position"@,
            ScopeError::PositionRedefined => "Cannot redefine a position"@,
            ScopeError::TooManyPositions => "Cannot add more positions than the limit allows"@,
            ScopeError::TooManyOutputs => "Cannot add more outputs than the limit allows"@,
            ScopeError::OutputNotPlaintext => "Outputs must be plaintext (futures are forbidden)"@,
            ScopeError::FinalizeAlreadySet => "Cannot add a second finalize block"@,
            ScopeError::FinalizeNameMismatch => "The finalize block must have the name of its function"@,
    }
}

impl ScopeError {
    /// Returns the message of the error.
    pub fn to_string(&self) -> (r: String)
        ensures
            r@ == scope_error_message(*self),
    {
        let m: &str = match self {
            ScopeError::InputAfterCommand => "Cannot add inputs after commands have been added",
            ScopeError::InputAfterOutput => "Cannot add inputs after outputs have been added",
            ScopeError::TooManyInputs => "Cannot add more inputs than the limit allows",
            ScopeError::DuplicateInput => "Cannot add duplicate input statement",
            ScopeError::InputNotPlaintext => "Inputs must be plaintext (futures are forbidden)",
            ScopeError::InputNotLocator => "Input register must be a locator",
            ScopeError::CommandAfterOutput => "Cannot add commands after outputs have been added",
            ScopeError::TooManyCommands => "Cannot add more commands than the limit allows",
            ScopeError::TooManyWrites => "Cannot add more 'set' & 'remove' commands than the limit allows",
            ScopeError::AsyncForbidden => "Forbidden operation: cannot invoke an 'async' instruction",
            ScopeError::DynamicCallForbidden => "Forbidden operation: cannot invoke a 'call.dynamic'",
            ScopeError::CallForbidden => "Forbidden operation: cannot 'call' another function",
            ScopeError::TooManyCalls => "Cannot add more 'call' commands than the limit allows",
            ScopeError::RecordForbidden => "Forbidden operation: cannot operate on records",
            ScopeError::AwaitForbidden => "Forbidden operation: cannot 'await' a future",
            ScopeError::WriteForbidden => "Forbidden operation: view functions cannot use 'set' or 'remove'",
            ScopeError::RandChachaForbidden => "Forbidden operation: view functions cannot use 'rand.chacha'",
            ScopeError::NotAnInstruction => "Only instructions are allowed here",
            ScopeError::DestinationNotLocator => "Destination register must be a locator",
            ScopeError::BranchToEarlierPosition => "Cannot branch to an earlier position",
            ScopeError::PositionRedefined => "Cannot redefine a position",
            ScopeError::TooManyPositions => "Cannot add more positions than the limit allows",
            ScopeError::TooManyOutputs => "Cannot add more outputs than the limit allows",
            ScopeError::OutputNotPlaintext => "Outputs must be plaintext (futures are forbidden)",
            ScopeError::FinalizeAlreadySet => "Cannot add a second finalize block",
            ScopeError::FinalizeNameMismatch => "The finalize block must have the name of its function",
        };
        m.to_owned()
    }
}

} // verus!
