//! Commands and instructions: their statement syntax, their printed form, and the properties
//! of them that the scopes of a program check.
use vstd::prelude::*;

use crate::console::{console_identifier, console_program_id};
use crate::operand::{
    parse_operand, program_id_text, spec_operand_text, spec_parse_operand, tail,
    write_program_id, Identifier, Operand, OperandView, ProgramID, ProgramIDView, Register,
    RegisterView,
};
use crate::text::{chars_of, has_prefix, push_all, starts_with, suffix};

verus! {

/// Whitespace that separates the tokens of a statement.
pub open spec fn is_space(c: char) -> bool {
    c == ' ' || c == '\t' || c == '\n' || c == '\r'
}

/// The bracket depth after reading `c` at depth `d` (an unmatched closing bracket leaves the
/// depth at zero).
pub open spec fn next_depth(d: nat, c: char) -> nat {
    if c == '[' || c == '(' {
        d + 1
    } else if c == ']' || c == ')' {
        if d > 0 { (d - 1) as nat } else { 0 }
    } else {
        d
    }
}

/// The state of the statement scanner after a prefix of the text: the finished tokens (as
/// ranges of positions), the start of the current token, and the bracket depth.
pub ghost struct ScanView {
    pub done: Seq<(nat, nat)>,
    pub start: Option<nat>,
    pub depth: nat,
}

/// One step of the scanner, reading the character at position `i`.
pub open spec fn scan_step(st: ScanView, i: nat, c: char) -> ScanView {
    if is_space(c) && st.depth == 0 {
        match st.start {
            Some(a) => ScanView { done: st.done.push((a, i)), start: None, depth: 0 },
            None => st,
        }
    } else {
        ScanView {
            done: st.done,
            start: match st.start {
                Some(a) => Some(a),
                None => Some(i),
            },
            depth: next_depth(st.depth, c),
        }
    }
}

/// The scanner state after the first `i` characters of `s`.
pub open spec fn scan(s: Seq<char>, i: nat) -> ScanView
    decreases i,
{
    if i == 0 {
        ScanView { done: Seq::empty(), start: None, depth: 0 }
    } else {
        scan_step(scan(s, (i - 1) as nat), (i - 1) as nat, s[i - 1])
    }
}

/// The position of the `;` that ends the statement starting at `s[0]`: the first `;` at
/// bracket depth zero from position `i` on.
pub open spec fn statement_end(s: Seq<char>, i: nat) -> Option<nat>
    decreases s.len() - i,
{
    if i >= s.len() {
        None
    } else if s[i as int] == ';' && scan(s, i).depth == 0 {
        Some(i)
    } else {
        statement_end(s, i + 1)
    }
}

/// The token ranges of the statement that ends at position `j`.
pub open spec fn finish_tokens(st: ScanView, j: nat) -> Seq<(nat, nat)> {
    match st.start {
        Some(a) => st.done.push((a, j)),
        None => st.done,
    }
}

/// The tokens of the statement at the start of `s` and the position of its `;`.
pub open spec fn statement_tokens(s: Seq<char>) -> Option<(nat, Seq<(nat, nat)>)> {
    match statement_end(s, 0) {
        Some(j) => Some((j, finish_tokens(scan(s, j), j))),
        None => None,
    }
}

/// The ranges of a scan are ordered, non-empty and within the scanned prefix.
pub open spec fn ranges_ok(r: Seq<(nat, nat)>, bound: nat) -> bool {
    forall|k: int| 0 <= k < r.len() ==> #[trigger] r[k].0 < r[k].1 <= bound
}

proof fn lemma_scan_ranges(s: Seq<char>, i: nat)
    ensures
        ranges_ok(scan(s, i).done, i),
        scan(s, i).start matches Some(a) ==> a < i,
        scan(s, i).depth <= i,
    decreases i,
{
    if i > 0 {
        lemma_scan_ranges(s, (i - 1) as nat);
        let prev = scan(s, (i - 1) as nat);
        let cur = scan(s, i);
        assert forall|k: int| 0 <= k < cur.done.len() implies #[trigger] cur.done[k].0
            < cur.done[k].1 <= i by {
            if k < prev.done.len() {
                assert(cur.done[k] == prev.done[k]);
            }
        }
    }
}

proof fn lemma_statement_end_bounds(s: Seq<char>, i: nat)
    ensures
        statement_end(s, i) matches Some(j) ==> i <= j < s.len() && s[j as int] == ';'
            && scan(s, j).depth == 0,
    decreases s.len() - i,
{
    if i < s.len() {
        lemma_statement_end_bounds(s, i + 1);
    }
}

proof fn lemma_statement_end_none(s: Seq<char>, i: nat)
    requires
        i <= s.len(),
        forall|j: nat| i <= j < s.len() ==> !(s[j as int] == ';' && scan(s, j).depth == 0),
    ensures
        statement_end(s, i) is None,
    decreases s.len() - i,
{
    if i < s.len() {
        lemma_statement_end_none(s, i + 1);
    }
}

/// Finds the `;` that ends the statement at the start of `s` and splits the statement before
/// it into tokens: the position of the `;` and the token ranges.
#[verifier::spinoff_prover]
#[verifier::rlimit(30)]
pub fn tokenize(s: &[char]) -> (r: Option<(usize, Vec<(usize, usize)>)>)
    ensures
        match statement_tokens(s@) {
            Some((j, toks)) => r matches Some((e, ranges)) && e == j && ranges@.len() == toks.len()
                && forall|k: int| 0 <= k < toks.len() ==> (ranges@[k].0 as nat, ranges@[k].1 as nat)
                    == toks[k],
            None => r is None,
        },
        r matches Some((e, ranges)) ==> e < s@.len() && forall|k: int|
            0 <= k < ranges@.len() ==> #[trigger] ranges@[k].0 < ranges@[k].1 <= e,
{
    let mut done: Vec<(usize, usize)> = Vec::new();
    let mut start: Option<usize> = None;
    let mut depth: usize = 0;
    let mut i: usize = 0;
    while i < s.len()
        invariant
            i <= s@.len(),
            scan(s@, i as nat).done.len() == done@.len(),
            forall|k: int| 0 <= k < done@.len() ==> (done@[k].0 as nat, done@[k].1 as nat)
                == scan(s@, i as nat).done[k],
            scan(s@, i as nat).start == match start {
                Some(a) => Some(a as nat),
                None => None::<nat>,
            },
            scan(s@, i as nat).depth == depth,
            forall|j: nat| j < i ==> !(s@[j as int] == ';' && scan(s@, j).depth == 0),
        decreases s.len() - i,
    {
        proof {
            lemma_scan_ranges(s@, i as nat);
        }
        let c = s[i];
        if c == ';' && depth == 0 {
            proof {
                lemma_statement_end_none_prefix(s@, i as nat);
            }
            let ghost before = done@;
            match start {
                Some(a) => {
                    done.push((a, i));
                },
                None => {},
            }
            proof {
                lemma_scan_ranges(s@, i as nat);
                assert forall|k: int| 0 <= k < done@.len() implies #[trigger] done@[k].0
                    < done@[k].1 <= i by {
                    if k < before.len() {
                        assert(done@[k] == before[k]);
                        assert(scan(s@, i as nat).done[k] == (before[k].0 as nat, before[k].1 as nat));
                    }
                }
            }
            return Some((i, done));
        }
        let ghost prev = scan(s@, i as nat);
        if (c == ' ' || c == '\t' || c == '\n' || c == '\r') && depth == 0 {
            match start {
                Some(a) => {
                    done.push((a, i));
                    start = None;
                },
                None => {},
            }
        } else {
            if start.is_none() {
                start = Some(i);
            }
            if c == '[' || c == '(' {
                depth = depth + 1;
            } else if c == ']' || c == ')' {
                if depth > 0 {
                    depth = depth - 1;
                }
            }
        }
        i = i + 1;
        assert(scan(s@, i as nat) == scan_step(prev, (i - 1) as nat, c));
    }
    proof {
        lemma_statement_end_none(s@, 0);
    }
    None
}

proof fn lemma_statement_end_none_prefix(s: Seq<char>, i: nat)
    requires
        i < s.len(),
        s[i as int] == ';',
        scan(s, i).depth == 0,
        forall|j: nat| j < i ==> !(s[j as int] == ';' && scan(s, j).depth == 0),
    ensures
        statement_end(s, 0) == Some(i),
{
    lemma_statement_end_skip(s, 0, i);
}

proof fn lemma_statement_end_skip(s: Seq<char>, k: nat, i: nat)
    requires
        k <= i < s.len(),
        s[i as int] == ';',
        scan(s, i).depth == 0,
        forall|j: nat| j < i ==> !(s[j as int] == ';' && scan(s, j).depth == 0),
    ensures
        statement_end(s, k) == Some(i),
    decreases i - k,
{
    if k < i {
        lemma_statement_end_skip(s, k + 1, i);
    }
}

/// The base of a statement item: an operand, a name (of a function, a mapping or a position),
/// or a locator `{program_id}/{name}`.
#[derive(Clone, Debug, PartialEq, Eq)]
pub enum Base {
    Operand(Operand),
    Name(Identifier),
    Locator(ProgramID, Identifier),
}

/// An item of a statement: a base, optionally keyed (`balances[r0]`, `r2[r3]`).
#[derive(Clone, Debug, PartialEq, Eq)]
pub struct Item {
    pub base: Base,
    pub key: Option<Operand>,
}

/// The mathematical value of a base.
pub ghost enum BaseView {
    Operand(OperandView),
    Name(Seq<char>),
    Locator(ProgramIDView, Seq<char>),
}

/// The mathematical value of an item.
pub ghost struct ItemView {
    pub base: BaseView,
    pub key: Option<OperandView>,
}

impl View for Base {
    type V = BaseView;

    open spec fn view(&self) -> BaseView {
        match self {
            Base::Operand(op) => BaseView::Operand(op@),
            Base::Name(n) => BaseView::Name(n@),
            Base::Locator(p, n) => BaseView::Locator(p@, n@),
        }
    }
}

impl View for Item {
    type V = ItemView;

    open spec fn view(&self) -> ItemView {
        ItemView {
            base: self.base@,
            key: match self.key {
                Some(k) => Some(k@),
                None => None,
            },
        }
    }
}

/// The operand that makes up the whole text, if any.
pub open spec fn spec_full_operand(t: Seq<char>) -> Option<OperandView> {
    match spec_parse_operand(t) {
        Some((k, op)) => if k == 0 { Some(op) } else { None },
        None => None,
    }
}

/// The identifier that makes up the whole text, if any.
pub open spec fn spec_full_identifier(t: Seq<char>) -> Option<Seq<char>> {
    match console_identifier(t) {
        Some((k, n)) => if k == 0 { Some(n) } else { None },
        None => None,
    }
}

/// The base that makes up the whole text, if any: an operand, else a name, else a locator.
pub open spec fn spec_parse_base(t: Seq<char>) -> Option<BaseView> {
    if spec_full_operand(t) is Some {
        Some(BaseView::Operand(spec_full_operand(t)->0))
    } else if spec_full_identifier(t) is Some {
        Some(BaseView::Name(spec_full_identifier(t)->0))
    } else {
        match console_program_id(t) {
            Some((k, name, network)) => {
                let u = tail(t, k);
                if starts_with(u, "/"@) && spec_full_identifier(tail(u, (u.len() - 1) as nat)) is Some {
                    Some(
                        BaseView::Locator(
                            ProgramIDView { name, network },
                            spec_full_identifier(tail(u, (u.len() - 1) as nat))->0,
                        ),
                    )
                } else {
                    None
                }
            },
            None => None,
        }
    }
}

/// The position of the first `c` in `t` from position `i` on.
pub open spec fn index_of(t: Seq<char>, c: char, i: nat) -> Option<nat>
    decreases t.len() - i,
{
    if i >= t.len() {
        None
    } else if t[i as int] == c {
        Some(i)
    } else {
        index_of(t, c, i + 1)
    }
}

/// The keyed item `{base}[{key}]` that makes up the whole text, if any.
pub open spec fn spec_keyed_item(t: Seq<char>) -> Option<ItemView> {
    match index_of(t, '[', 0) {
        Some(b) => if 0 < b && b + 2 <= t.len() && t[t.len() - 1] == ']' && spec_parse_base(
            t.subrange(0, b as int),
        ) is Some && spec_full_operand(t.subrange(b + 1int, t.len() - 1)) is Some {
            Some(
                ItemView {
                    base: spec_parse_base(t.subrange(0, b as int))->0,
                    key: Some(spec_full_operand(t.subrange(b + 1int, t.len() - 1))->0),
                },
            )
        } else {
            None
        },
        None => None,
    }
}

/// The item that makes up the whole token: a whole operand, else a keyed item, else a base.
pub open spec fn spec_parse_item(t: Seq<char>) -> Option<ItemView> {
    if spec_full_operand(t) is Some {
        Some(ItemView { base: BaseView::Operand(spec_full_operand(t)->0), key: None })
    } else if spec_keyed_item(t) is Some {
        spec_keyed_item(t)
    } else if spec_parse_base(t) is Some {
        Some(ItemView { base: spec_parse_base(t)->0, key: None })
    } else {
        None
    }
}

fn full_operand(t: &[char]) -> (r: Option<Operand>)
    ensures
        spec_full_operand(t@) == match r {
            Some(op) => Some(op@),
            None => None::<OperandView>,
        },
{
    match parse_operand(t) {
        Some((k, op)) => if k == 0 { Some(op) } else { None },
        None => None,
    }
}

fn full_identifier(t: &[char]) -> (r: Option<Identifier>)
    ensures
        spec_full_identifier(t@) == match r {
            Some(n) => Some(n@),
            None => None::<Seq<char>>,
        },
{
    match crate::console::identifier(t) {
        Some((k, name)) => if k == 0 { Some(Identifier { name }) } else { None },
        None => None,
    }
}

fn parse_base(t: &[char]) -> (r: Option<Base>)
    ensures
        spec_parse_base(t@) == match r {
            Some(b) => Some(b@),
            None => None::<BaseView>,
        },
{
    if let Some(op) = full_operand(t) {
        return Some(Base::Operand(op));
    }
    if let Some(n) = full_identifier(t) {
        return Some(Base::Name(n));
    }
    match crate::console::program_id(t) {
        Some((k, name, network)) => {
            let u = suffix(t, t.len() - k);
            let slash = chars_of("/");
            proof {
                assert(slash@.len() == 1) by {
                    reveal_strlit("/");
                }
            }
            if has_prefix(u, &slash) {
                let w = suffix(u, 1);
                assert(w@ =~= tail(u@, (u@.len() - 1) as nat));
                if let Some(n) = full_identifier(w) {
                    return Some(Base::Locator(ProgramID { name, network }, n));
                }
            }
            None
        },
        None => None,
    }
}

fn find_char(t: &[char], c: char) -> (r: Option<usize>)
    ensures
        index_of(t@, c, 0) == match r {
            Some(i) => Some(i as nat),
            None => None::<nat>,
        },
        r matches Some(i) ==> i < t@.len(),
{
    let mut i: usize = 0;
    while i < t.len()
        invariant
            i <= t@.len(),
            index_of(t@, c, 0) == index_of(t@, c, i as nat),
        decreases t.len() - i,
    {
        if t[i] == c {
            return Some(i);
        }
        i = i + 1;
    }
    None
}

fn keyed_item(t: &[char]) -> (r: Option<Item>)
    ensures
        spec_keyed_item(t@) == match r {
            Some(it) => Some(it@),
            None => None::<ItemView>,
        },
{
    match find_char(t, '[') {
        Some(b) => {
            if 0 < b && b < t.len() - 1 && t[t.len() - 1] == ']' {
                let base_text = &t[0..b];
                let key_text = &t[b + 1..t.len() - 1];
                match parse_base(base_text) {
                    Some(base) => match full_operand(key_text) {
                        Some(key) => Some(Item { base, key: Some(key) }),
                        None => None,
                    },
                    None => None,
                }
            } else {
                None
            }
        },
        None => None,
    }
}

/// Parses the item that makes up the whole token.
pub fn parse_item(t: &[char]) -> (r: Option<Item>)
    ensures
        spec_parse_item(t@) == match r {
            Some(it) => Some(it@),
            None => None::<ItemView>,
        },
{
    if let Some(op) = full_operand(t) {
        return Some(Item { base: Base::Operand(op), key: None });
    }
    if let Some(it) = keyed_item(t) {
        return Some(it);
    }
    if let Some(b) = parse_base(t) {
        return Some(Item { base: b, key: None });
    }
    None
}

/// A command or instruction statement: its opcode, the items before `into`, the items after
/// `into`, the type after `as`, and the position after `to`.
#[derive(Clone, Debug, PartialEq, Eq)]
pub struct Command {
    pub opcode: String,
    pub args: Vec<Item>,
    pub into: Vec<Item>,
    pub cast: Option<String>,
    pub target: Option<Identifier>,
}

/// The mathematical value of a command.
pub ghost struct CommandView {
    pub opcode: Seq<char>,
    pub args: Seq<ItemView>,
    pub into: Seq<ItemView>,
    pub cast: Option<Seq<char>>,
    pub target: Option<Seq<char>>,
}

/// The views of a vector of items.
pub open spec fn items_view(v: Seq<Item>) -> Seq<ItemView> {
    v.map_values(|it: Item| it@)
}

impl View for Command {
    type V = CommandView;

    open spec fn view(&self) -> CommandView {
        CommandView {
            opcode: self.opcode@,
            args: items_view(self.args@),
            into: items_view(self.into@),
            cast: match self.cast {
                Some(c) => Some(c@),
                None => None,
            },
            target: match self.target {
                Some(t) => Some(t@),
                None => None,
            },
        }
    }
}

/// A character that may appear in an opcode.
pub open spec fn is_opcode_char(c: char) -> bool {
    ('a' <= c && c <= 'z') || ('0' <= c && c <= '9') || c == '_' || c == '.'
}

/// An opcode: a lowercase letter followed by lowercase letters, digits, `_` and `.`.
pub open spec fn is_opcode(t: Seq<char>) -> bool {
    t.len() > 0 && 'a' <= t[0] && t[0] <= 'z' && forall|k: int| 0 <= k < t.len() ==> is_opcode_char(
        #[trigger] t[k],
    )
}

/// The state of the statement reader: which part of the statement it is in (0: items, 1: items
/// after `into`, 2: expecting the type after `as`, 3: after the type, 4: expecting the position
/// after `to`, 5: done), and what it has read.
pub ghost struct BuildView {
    pub phase: nat,
    pub args: Seq<ItemView>,
    pub into: Seq<ItemView>,
    pub cast: Option<Seq<char>>,
    pub target: Option<Seq<char>>,
}

/// The reader state before any item.
pub open spec fn build_init() -> BuildView {
    BuildView { phase: 0, args: Seq::empty(), into: Seq::empty(), cast: None, target: None }
}

/// A keyword may end the items only if `into` was not left without items.
pub open spec fn items_closed(st: BuildView) -> bool {
    st.phase == 0 || (st.phase == 1 && st.into.len() > 0)
}

/// Reads one token.
pub open spec fn build_step(st: BuildView, tok: Seq<char>) -> Option<BuildView> {
    if st.phase == 0 || st.phase == 1 {
        if tok == "into"@ {
            if st.phase == 0 {
                Some(BuildView { phase: 1, ..st })
            } else {
                None
            }
        } else if tok == "as"@ {
            if items_closed(st) {
                Some(BuildView { phase: 2, ..st })
            } else {
                None
            }
        } else if tok == "to"@ {
            if items_closed(st) {
                Some(BuildView { phase: 4, ..st })
            } else {
                None
            }
        } else {
            match spec_parse_item(tok) {
                Some(it) => if st.phase == 0 {
                    Some(BuildView { args: st.args.push(it), ..st })
                } else {
                    Some(BuildView { into: st.into.push(it), ..st })
                },
                None => None,
            }
        }
    } else if st.phase == 2 {
        Some(BuildView { phase: 3, cast: Some(tok), ..st })
    } else if st.phase == 3 {
        if tok == "to"@ {
            Some(BuildView { phase: 4, ..st })
        } else {
            None
        }
    } else if st.phase == 4 {
        match spec_full_identifier(tok) {
            Some(n) => Some(BuildView { phase: 5, target: Some(n), ..st }),
            None => None,
        }
    } else {
        None
    }
}

/// The reader state after the tokens before position `i` (the opcode, at position 0, is not
/// read as an item).
pub open spec fn build_upto(toks: Seq<Seq<char>>, i: nat) -> Option<BuildView>
    decreases i,
{
    if i <= 1 {
        Some(build_init())
    } else {
        match build_upto(toks, (i - 1) as nat) {
            Some(st) => build_step(st, toks[i - 1]),
            None => None,
        }
    }
}

/// A statement may end in this state.
pub open spec fn build_complete(st: BuildView) -> bool {
    items_closed(st) || st.phase == 3 || st.phase == 5
}

/// The texts of the token ranges.
pub open spec fn token_texts(s: Seq<char>, ranges: Seq<(nat, nat)>) -> Seq<Seq<char>> {
    ranges.map_values(|r: (nat, nat)| s.subrange(r.0 as int, r.1 as int))
}

/// What the statement parser reads from the start of the text: the length of the rest (after
/// the `;`) and the command.
pub open spec fn spec_parse_command(s: Seq<char>) -> Option<(nat, CommandView)> {
    match statement_tokens(s) {
        Some((j, ranges)) => {
            let toks = token_texts(s, ranges);
            if toks.len() >= 1 && is_opcode(toks[0]) && build_upto(toks, toks.len()) is Some
                && build_complete(build_upto(toks, toks.len())->0) {
                let st = build_upto(toks, toks.len())->0;
                Some(
                    (
                        (s.len() - j - 1) as nat,
                        CommandView {
                            opcode: toks[0],
                            args: st.args,
                            into: st.into,
                            cast: st.cast,
                            target: st.target,
                        },
                    ),
                )
            } else {
                None
            }
        },
        None => None,
    }
}

proof fn lemma_build_none(toks: Seq<Seq<char>>, i: nat, n: nat)
    requires
        i <= n,
        build_upto(toks, i) is None,
    ensures
        build_upto(toks, n) is None,
    decreases n - i,
{
    if i < n {
        lemma_build_none(toks, i, (n - 1) as nat);
    }
}

fn is_opcode_text(t: &[char]) -> (r: bool)
    ensures
        r == is_opcode(t@),
{
    if t.len() == 0 {
        return false;
    }
    if !('a' <= t[0] && t[0] <= 'z') {
        return false;
    }
    let mut i: usize = 0;
    while i < t.len()
        invariant
            i <= t@.len(),
            forall|k: int| 0 <= k < i ==> is_opcode_char(#[trigger] t@[k]),
        decreases t.len() - i,
    {
        let c = t[i];
        if !(('a' <= c && c <= 'z') || ('0' <= c && c <= '9') || c == '_' || c == '.') {
            return false;
        }
        i = i + 1;
    }
    true
}

fn is_word(t: &[char], w: &[char]) -> (r: bool)
    ensures
        r == (t@ == w@),
{
    if t.len() != w.len() {
        return false;
    }
    let r = has_prefix(t, w);
    assert(t@.subrange(0, w@.len() as int) =~= t@);
    r
}

/// The exec reader state.
struct Build {
    phase: u8,
    args: Vec<Item>,
    into: Vec<Item>,
    cast: Option<String>,
    target: Option<Identifier>,
}

impl Build {
    spec fn view(&self) -> BuildView {
        BuildView {
            phase: self.phase as nat,
            args: items_view(self.args@),
            into: items_view(self.into@),
            cast: match self.cast {
                Some(c) => Some(c@),
                None => None,
            },
            target: match self.target {
                Some(t) => Some(t@),
                None => None,
            },
        }
    }
}

fn step(st: &mut Build, tok: &[char]) -> (ok: bool)
    requires
        old(st).phase <= 5,
    ensures
        ok ==> build_step(old(st).view(), tok@) == Some(final(st).view()) && final(st).phase <= 5,
        !ok ==> build_step(old(st).view(), tok@) is None,
{
    let ghost before = st.view();
    if st.phase == 0 || st.phase == 1 {
        if is_word(tok, &chars_of("into")) {
            if st.phase == 0 {
                st.phase = 1;
                return true;
            }
            return false;
        }
        let closed = st.phase == 0 || (st.phase == 1 && st.into.len() > 0);
        if is_word(tok, &chars_of("as")) {
            if closed {
                st.phase = 2;
                return true;
            }
            return false;
        }
        if is_word(tok, &chars_of("to")) {
            if closed {
                st.phase = 4;
                return true;
            }
            return false;
        }
        match parse_item(tok) {
            Some(it) => {
                let ghost v = it@;
                if st.phase == 0 {
                    st.args.push(it);
                    assert(items_view(st.args@) =~= before.args.push(v));
                } else {
                    st.into.push(it);
                    assert(items_view(st.into@) =~= before.into.push(v));
                }
                true
            },
            None => false,
        }
    } else if st.phase == 2 {
        st.cast = Some(crate::text::string_of(tok));
        st.phase = 3;
        true
    } else if st.phase == 3 {
        if is_word(tok, &chars_of("to")) {
            st.phase = 4;
            true
        } else {
            false
        }
    } else if st.phase == 4 {
        match full_identifier(tok) {
            Some(n) => {
                st.target = Some(n);
                st.phase = 5;
                true
            },
            None => false,
        }
    } else {
        false
    }
}

/// Parses a statement from the start of the characters: the length of the rest (after the
/// `;`) and the command.
pub fn parse_command(s: &[char]) -> (r: Option<(usize, Command)>)
    ensures
        spec_parse_command(s@) == match r {
            Some((k, c)) => Some((k as nat, c@)),
            None => None::<(nat, CommandView)>,
        },
        r matches Some((k, _)) ==> k < s@.len(),
{
    let (j, ranges) = match tokenize(s) {
        Some(found) => found,
        None => return None,
    };
    let ghost sr = match statement_tokens(s@) {
        Some((_, found)) => found,
        None => Seq::empty(),
    };
    let ghost toks = token_texts(s@, sr);
    assert(statement_tokens(s@) == Some((j as nat, sr)));
    assert(sr.len() == ranges@.len());
    assert(toks.len() == ranges@.len());
    if ranges.len() == 0 {
        return None;
    }
    let (a0, b0) = ranges[0];
    let op_text = &s[a0..b0];
    assert(op_text@ =~= toks[0]);
    if !is_opcode_text(op_text) {
        return None;
    }
    let mut st = Build { phase: 0, args: Vec::new(), into: Vec::new(), cast: None, target: None };
    assert(items_view(st.args@) =~= Seq::<ItemView>::empty());
    assert(items_view(st.into@) =~= Seq::<ItemView>::empty());
    let mut i: usize = 1;
    while i < ranges.len()
        invariant
            1 <= i <= ranges@.len(),
            ranges@.len() == toks.len(),
            forall|k: int| 0 <= k < ranges@.len() ==> (ranges@[k].0 as nat, ranges@[k].1 as nat)
                == sr[k],
            forall|k: int| 0 <= k < ranges@.len() ==> #[trigger] ranges@[k].0 < ranges@[k].1 <= j,
            j < s@.len(),
            toks == token_texts(s@, sr),
            sr.len() == ranges@.len(),
            statement_tokens(s@) == Some((j as nat, sr)),
            is_opcode(toks[0]),
            st.phase <= 5,
            build_upto(toks, i as nat) == Some(st.view()),
        decreases ranges.len() - i,
    {
        let (a, b) = ranges[i];
        let tok = &s[a..b];
        assert(tok@ =~= toks[i as int]);
        let ghost prev = st.view();
        if !step(&mut st, tok) {
            proof {
                assert(build_upto(toks, (i + 1) as nat) == build_step(prev, toks[i as int]));
                assert(build_upto(toks, (i + 1) as nat) is None);
                lemma_build_none(toks, (i + 1) as nat, toks.len());
                assert(build_upto(token_texts(s@, sr), token_texts(s@, sr).len()) is None);
                assert(statement_tokens(s@) == Some((j as nat, sr)));
                assert(spec_parse_command(s@) is None);
            }
            return None;
        }
        assert(build_upto(toks, (i + 1) as nat) == build_step(prev, toks[i as int]));
        i = i + 1;
    }
    let complete = st.phase == 0 || (st.phase == 1 && st.into.len() > 0) || st.phase == 3
        || st.phase == 5;
    if !complete {
        return None;
    }
    let cmd = Command {
        opcode: crate::text::string_of(op_text),
        args: st.args,
        into: st.into,
        cast: st.cast,
        target: st.target,
    };
    Some((s.len() - j - 1, cmd))
}

/// The printed base.
pub open spec fn base_text(b: BaseView) -> Seq<char> {
    match b {
        BaseView::Operand(op) => spec_operand_text(op),
        BaseView::Name(n) => n,
        BaseView::Locator(p, n) => program_id_text(p) + "/"@ + n,
    }
}

/// The printed item.
pub open spec fn item_text(it: ItemView) -> Seq<char> {
    base_text(it.base) + match it.key {
        Some(k) => "["@ + spec_operand_text(k) + "]"@,
        None => Seq::<char>::empty(),
    }
}

/// The printed items, each preceded by a space.
pub open spec fn items_text(items: Seq<ItemView>) -> Seq<char>
    decreases items.len(),
{
    if items.len() == 0 {
        Seq::empty()
    } else {
        items_text(items.drop_last()) + " "@ + item_text(items.last())
    }
}

/// The printed statement.
pub open spec fn spec_command_text(c: CommandView) -> Seq<char> {
    c.opcode + items_text(c.args) + (if c.into.len() > 0 {
        " into"@ + items_text(c.into)
    } else {
        Seq::<char>::empty()
    }) + match c.cast {
        Some(t) => " as "@ + t,
        None => Seq::<char>::empty(),
    } + match c.target {
        Some(t) => " to "@ + t,
        None => Seq::<char>::empty(),
    } + ";"@
}

fn write_base(out: &mut Vec<char>, b: &Base)
    ensures
        final(out)@ == old(out)@ + base_text(b@),
{
    match b {
        Base::Operand(op) => op.write_text(out),
        Base::Name(n) => push_all(out, &chars_of(n.name.as_str())),
        Base::Locator(p, n) => {
            let ghost start = out@;
            write_program_id(out, p);
            push_all(out, &chars_of("/"));
            push_all(out, &chars_of(n.name.as_str()));
            assert(out@ =~= start + base_text(b@));
        },
    }
}

fn write_item(out: &mut Vec<char>, it: &Item)
    ensures
        final(out)@ == old(out)@ + item_text(it@),
{
    let ghost start = out@;
    write_base(out, &it.base);
    match &it.key {
        Some(k) => {
            push_all(out, &chars_of("["));
            k.write_text(out);
            push_all(out, &chars_of("]"));
        },
        None => {},
    }
    assert(out@ =~= start + item_text(it@));
}

fn write_items(out: &mut Vec<char>, items: &Vec<Item>)
    ensures
        final(out)@ == old(out)@ + items_text(items_view(items@)),
{
    let ghost start = out@;
    let mut i: usize = 0;
    while i < items.len()
        invariant
            i <= items@.len(),
            out@ == start + items_text(items_view(items@.subrange(0, i as int))),
        decreases items.len() - i,
    {
        let ghost before = out@;
        push_all(out, &chars_of(" "));
        write_item(out, &items[i]);
        proof {
            let pre = items_view(items@.subrange(0, i as int));
            let post = items_view(items@.subrange(0, i + 1));
            assert(post.drop_last() =~= pre);
            assert(post.last() == items@[i as int]@);
            assert(out@ =~= start + items_text(post));
        }
        i = i + 1;
    }
    assert(items@.subrange(0, items@.len() as int) =~= items@);
}

impl Command {
    /// Parses a statement, including its `;`, that makes up the whole string.
    pub fn from_str(string: &str) -> (r: Option<Command>)
        ensures
            match spec_parse_command(string@) {
                Some((k, c)) => if k == 0 {
                    r matches Some(x) && x@ == c
                } else {
                    r is None
                },
                None => r is None,
            },
    {
        let s = chars_of(string);
        match parse_command(&s) {
            Some((k, c)) => if k == 0 { Some(c) } else { None },
            None => None,
        }
    }

    /// Appends the printed statement to `out`.
    pub fn write_text(&self, out: &mut Vec<char>)
        ensures
            final(out)@ == old(out)@ + spec_command_text(self@),
    {
        let ghost start = out@;
        push_all(out, &chars_of(self.opcode.as_str()));
        write_items(out, &self.args);
        let ghost after_args = out@;
        if self.into.len() > 0 {
            push_all(out, &chars_of(" into"));
            write_items(out, &self.into);
        }
        assert(items_view(self.into@).len() == self.into@.len());
        let ghost after_into = out@;
        match &self.cast {
            Some(t) => {
                push_all(out, &chars_of(" as "));
                push_all(out, &chars_of(t.as_str()));
            },
            None => {},
        }
        match &self.target {
            Some(t) => {
                push_all(out, &chars_of(" to "));
                push_all(out, &chars_of(t.name.as_str()));
            },
            None => {},
        }
        push_all(out, &chars_of(";"));
        assert(out@ =~= start + spec_command_text(self@));
    }

    /// Returns the printed statement.
    pub fn to_string(&self) -> (r: String)
        ensures
            r@ == spec_command_text(self@),
    {
        let mut out: Vec<char> = Vec::new();
        self.write_text(&mut out);
        assert(out@ =~= spec_command_text(self@));
        crate::text::string_of(&out)
    }
}

/// `true` if `p` is a suffix of `t`.
pub open spec fn ends_with(t: Seq<char>, p: Seq<char>) -> bool {
    p.len() <= t.len() && t.subrange(t.len() - p.len(), t.len() as int) == p
}

/// The statement writes to a mapping (`set` or `remove`).
pub open spec fn spec_is_write(c: CommandView) -> bool {
    c.opcode == "set"@ || c.opcode == "remove"@
}

/// The statement awaits a future.
pub open spec fn spec_is_await(c: CommandView) -> bool {
    c.opcode == "await"@
}

/// The statement is an `async` instruction.
pub open spec fn spec_is_async(c: CommandView) -> bool {
    c.opcode == "async"@
}

/// The statement is a `call` or `call.dynamic` instruction.
pub open spec fn spec_is_call(c: CommandView) -> bool {
    c.opcode == "call"@ || c.opcode == "call.dynamic"@
}

/// The statement is a `call.dynamic` instruction.
pub open spec fn spec_is_dynamic_call(c: CommandView) -> bool {
    c.opcode == "call.dynamic"@
}

/// The statement is a `rand.chacha` command.
pub open spec fn spec_is_rand_chacha(c: CommandView) -> bool {
    c.opcode == "rand.chacha"@
}

/// The statement casts into a record (`{name}.record`, `{program_id}/{name}.record` or
/// `dynamic.record`).
pub open spec fn spec_is_cast_to_record(c: CommandView) -> bool {
    (c.opcode == "cast"@ || c.opcode == "cast.lossy"@) && match c.cast {
        Some(t) => ends_with(t, ".record"@),
        None => false,
    }
}

/// The statement is a `get.record.dynamic` instruction.
pub open spec fn spec_is_get_record_dynamic(c: CommandView) -> bool {
    c.opcode == "get.record.dynamic"@
}

/// The statement creates or reads a record.
pub open spec fn spec_is_instruction_for_record(c: CommandView) -> bool {
    spec_is_cast_to_record(c) || spec_is_get_record_dynamic(c)
}

/// The statement stores its result into the registers after `into`.
pub open spec fn spec_has_destinations(c: CommandView) -> bool {
    !(c.opcode == "set"@ || c.opcode == "remove"@ || c.opcode == "await"@ || c.opcode
        == "branch.eq"@ || c.opcode == "branch.neq"@ || c.opcode == "position"@)
}

/// The item is a register that is a plain locator.
pub open spec fn is_locator_item(it: ItemView) -> bool {
    it.key is None && match it.base {
        BaseView::Operand(OperandView::Register(r)) => r.is_locator,
        _ => false,
    }
}

/// Every destination of the statement is a plain locator register.
pub open spec fn spec_destinations_are_locators(c: CommandView) -> bool {
    spec_has_destinations(c) ==> forall|k: int| 0 <= k < c.into.len() ==> is_locator_item(
        #[trigger] c.into[k],
    )
}

/// The position that a branch statement jumps to.
pub open spec fn spec_branch_to(c: CommandView) -> Option<Seq<char>> {
    if c.opcode == "branch.eq"@ || c.opcode == "branch.neq"@ {
        c.target
    } else {
        None
    }
}

/// The position that a `position` statement names.
pub open spec fn spec_position(c: CommandView) -> Option<Seq<char>> {
    if c.opcode == "position"@ && c.args.len() == 1 && c.args[0].key is None {
        match c.args[0].base {
            BaseView::Name(n) => Some(n),
            _ => None,
        }
    } else {
        None
    }
}

/// The statement is an instruction rather than one of the finalize commands.
pub open spec fn spec_is_instruction(c: CommandView) -> bool {
    !(c.opcode == "await"@ || c.opcode == "contains"@ || c.opcode == "contains.dynamic"@
        || c.opcode == "get"@ || c.opcode == "get.dynamic"@ || c.opcode == "get.or_use"@
        || c.opcode == "get.or_use.dynamic"@ || c.opcode == "rand.chacha"@ || c.opcode
        == "remove"@ || c.opcode == "set"@ || c.opcode == "branch.eq"@ || c.opcode
        == "branch.neq"@ || c.opcode == "position"@)
}

/// The operands of an item: its base, if that is an operand, then its key, if it has one.
pub open spec fn item_operands(it: ItemView) -> Seq<OperandView> {
    (match it.base {
        BaseView::Operand(op) => seq![op],
        _ => Seq::<OperandView>::empty(),
    }) + match it.key {
        Some(k) => seq![k],
        None => Seq::<OperandView>::empty(),
    }
}

/// The operands of the items, in order.
pub open spec fn items_operands(items: Seq<ItemView>) -> Seq<OperandView>
    decreases items.len(),
{
    if items.len() == 0 {
        Seq::empty()
    } else {
        items_operands(items.drop_last()) + item_operands(items.last())
    }
}

/// The operands of the statement: those of its items before `into`, and, where the items
/// after `into` are not destinations (`set ... into {mapping}[{key}]`), those of these too.
pub open spec fn spec_command_operands(c: CommandView) -> Seq<OperandView> {
    if spec_has_destinations(c) {
        items_operands(c.args)
    } else {
        items_operands(c.args) + items_operands(c.into)
    }
}

/// The register of an item that is a register alone.
pub open spec fn item_register(it: ItemView) -> Seq<RegisterView> {
    if it.key is None {
        match it.base {
            BaseView::Operand(OperandView::Register(r)) => seq![r],
            _ => Seq::empty(),
        }
    } else {
        Seq::empty()
    }
}

/// The registers among the items, in order.
pub open spec fn items_registers(items: Seq<ItemView>) -> Seq<RegisterView>
    decreases items.len(),
{
    if items.len() == 0 {
        Seq::empty()
    } else {
        items_registers(items.drop_last()) + item_register(items.last())
    }
}

/// The registers that the statement stores into: those after `into`, for a statement that has
/// destinations.
pub open spec fn spec_command_destinations(c: CommandView) -> Seq<RegisterView> {
    if spec_has_destinations(c) {
        items_registers(c.into)
    } else {
        Seq::empty()
    }
}

/// Appends the operands of the items to `out`.
fn push_item_operands(out: &mut Vec<Operand>, items: &Vec<Item>)
    ensures
        final(out)@.map_values(|op: Operand| op@) == old(out)@.map_values(|op: Operand| op@)
            + items_operands(items_view(items@)),
{
    let ghost start = out@.map_values(|op: Operand| op@);
    let mut i: usize = 0;
    while i < items.len()
        invariant
            i <= items@.len(),
            out@.map_values(|op: Operand| op@) == start + items_operands(
                items_view(items@).subrange(0, i as int),
            ),
        decreases items.len() - i,
    {
        let ghost before = out@.map_values(|op: Operand| op@);
        let it = &items[i];
        match &it.base {
            Base::Operand(op) => out.push(op.copy()),
            _ => {},
        }
        match &it.key {
            Some(k) => out.push(k.copy()),
            None => {},
        }
        proof {
            let s = items_view(items@).subrange(0, i + 1);
            assert(s.drop_last() =~= items_view(items@).subrange(0, i as int));
            assert(s.last() == it@);
            assert(out@.map_values(|op: Operand| op@) =~= before + item_operands(it@));
        }
        i = i + 1;
    }
    assert(items_view(items@).subrange(0, items@.len() as int) =~= items_view(items@));
}

/// Appends the registers among the items to `out`.
fn push_item_registers(out: &mut Vec<Register>, items: &Vec<Item>)
    ensures
        final(out)@.map_values(|r: Register| r@) == old(out)@.map_values(|r: Register| r@)
            + items_registers(items_view(items@)),
{
    let ghost start = out@.map_values(|r: Register| r@);
    let mut i: usize = 0;
    while i < items.len()
        invariant
            i <= items@.len(),
            out@.map_values(|r: Register| r@) == start + items_registers(
                items_view(items@).subrange(0, i as int),
            ),
        decreases items.len() - i,
    {
        let ghost before = out@.map_values(|r: Register| r@);
        let it = &items[i];
        match (&it.base, &it.key) {
            (Base::Operand(Operand::Register(r)), None) => out.push(r.copy()),
            _ => {},
        }
        proof {
            let s = items_view(items@).subrange(0, i + 1);
            assert(s.drop_last() =~= items_view(items@).subrange(0, i as int));
            assert(s.last() == it@);
            assert(out@.map_values(|r: Register| r@) =~= before + item_register(it@));
        }
        i = i + 1;
    }
    assert(items_view(items@).subrange(0, items@.len() as int) =~= items_view(items@));
}

fn ends_with_text(t: &[char], p: &[char]) -> (r: bool)
    ensures
        r == ends_with(t@, p@),
{
    if p.len() > t.len() {
        return false;
    }
    let tail_part = suffix(t, t.len() - p.len());
    is_word(tail_part, p)
}

impl Command {
    fn opcode_is(&self, word: &str) -> (r: bool)
        ensures
            r == (self.opcode@ == word@),
    {
        is_word(&chars_of(self.opcode.as_str()), &chars_of(word))
    }

    /// Returns `true` if the command is a write operation.
    pub fn is_write(&self) -> (r: bool)
        ensures
            r == spec_is_write(self@),
    {
        self.opcode_is("set") || self.opcode_is("remove")
    }

    /// Returns `true` if the command is an await command.
    pub fn is_await(&self) -> (r: bool)
        ensures
            r == spec_is_await(self@),
    {
        self.opcode_is("await")
    }

    /// Returns `true` if the command is an async instruction.
    pub fn is_async(&self) -> (r: bool)
        ensures
            r == spec_is_async(self@),
    {
        self.opcode_is("async")
    }

    /// Returns `true` if the command is a call instruction.
    pub fn is_call(&self) -> (r: bool)
        ensures
            r == spec_is_call(self@),
    {
        self.opcode_is("call") || self.opcode_is("call.dynamic")
    }

    /// Returns `true` if the command is specifically a dynamic call instruction.
    pub fn is_dynamic_call(&self) -> (r: bool)
        ensures
            r == spec_is_dynamic_call(self@),
    {
        self.opcode_is("call.dynamic")
    }

    /// Returns `true` if the command is a `rand.chacha` command.
    pub fn is_rand_chacha(&self) -> (r: bool)
        ensures
            r == spec_is_rand_chacha(self@),
    {
        self.opcode_is("rand.chacha")
    }

    /// Returns `true` if the command is a cast-to-record instruction (static, external or
    /// dynamic record).
    pub fn is_cast_to_record(&self) -> (r: bool)
        ensures
            r == spec_is_cast_to_record(self@),
    {
        if !(self.opcode_is("cast") || self.opcode_is("cast.lossy")) {
            return false;
        }
        match &self.cast {
            Some(t) => ends_with_text(&chars_of(t.as_str()), &chars_of(".record")),
            None => false,
        }
    }

    /// Returns `true` if the command is a `get.record.dynamic` instruction.
    pub fn is_get_record_dynamic(&self) -> (r: bool)
        ensures
            r == spec_is_get_record_dynamic(self@),
    {
        self.opcode_is("get.record.dynamic")
    }

    /// Returns `true` if the command creates a record by a cast or reads one by
    /// `get.record.dynamic`.
    pub fn is_instruction_for_record(&self) -> (r: bool)
        ensures
            r == spec_is_instruction_for_record(self@),
    {
        self.is_cast_to_record() || self.is_get_record_dynamic()
    }

    /// Returns `true` if the command is an instruction rather than a finalize command.
    pub fn is_instruction(&self) -> (r: bool)
        ensures
            r == spec_is_instruction(self@),
    {
        !(self.opcode_is("await") || self.opcode_is("contains") || self.opcode_is("contains.dynamic")
            || self.opcode_is("get") || self.opcode_is("get.dynamic") || self.opcode_is("get.or_use")
            || self.opcode_is("get.or_use.dynamic") || self.opcode_is("rand.chacha")
            || self.opcode_is("remove") || self.opcode_is("set") || self.opcode_is("branch.eq")
            || self.opcode_is("branch.neq") || self.opcode_is("position"))
    }

    /// Returns `true` if every destination register of the command is a plain locator.
    pub fn destinations_are_locators(&self) -> (r: bool)
        ensures
            r == spec_destinations_are_locators(self@),
    {
        let with_dest = !(self.opcode_is("set") || self.opcode_is("remove") || self.opcode_is("await")
            || self.opcode_is("branch.eq") || self.opcode_is("branch.neq") || self.opcode_is("position"));
        if !with_dest {
            return true;
        }
        assert(spec_has_destinations(self@));
        let mut i: usize = 0;
        while i < self.into.len()
            invariant
                i <= self.into@.len(),
                forall|k: int| 0 <= k < i ==> is_locator_item(#[trigger] items_view(self.into@)[k]),
                spec_has_destinations(self@),
            decreases self.into.len() - i,
        {
            let it = &self.into[i];
            let ok = match (&it.base, &it.key) {
                (Base::Operand(Operand::Register(r)), None) => r.is_locator,
                _ => false,
            };
            if !ok {
                assert(!is_locator_item(items_view(self.into@)[i as int]));
                assert(!is_locator_item(self@.into[i as int]));
                return false;
            }
            i = i + 1;
        }
        true
    }

    /// Returns `true` if the command stores its result into the registers after `into`.
    fn has_destinations(&self) -> (r: bool)
        ensures
            r == spec_has_destinations(self@),
    {
        !(self.opcode_is("set") || self.opcode_is("remove") || self.opcode_is("await")
            || self.opcode_is("branch.eq") || self.opcode_is("branch.neq") || self.opcode_is("position"))
    }

    /// Returns the operands of the command, in the order in which they stand in it.
    pub fn operands(&self) -> (r: Vec<Operand>)
        ensures
            r@.map_values(|op: Operand| op@) == spec_command_operands(self@),
    {
        let mut out: Vec<Operand> = Vec::new();
        assert(out@.map_values(|op: Operand| op@) =~= Seq::<OperandView>::empty());
        push_item_operands(&mut out, &self.args);
        if !self.has_destinations() {
            push_item_operands(&mut out, &self.into);
        }
        assert(out@.map_values(|op: Operand| op@) =~= spec_command_operands(self@));
        out
    }

    /// Returns the destination registers of the command.
    pub fn destinations(&self) -> (r: Vec<Register>)
        ensures
            r@.map_values(|x: Register| x@) == spec_command_destinations(self@),
    {
        let mut out: Vec<Register> = Vec::new();
        assert(out@.map_values(|x: Register| x@) =~= Seq::<RegisterView>::empty());
        if self.has_destinations() {
            push_item_registers(&mut out, &self.into);
        }
        assert(out@.map_values(|x: Register| x@) =~= spec_command_destinations(self@));
        out
    }

    /// Returns the branch target, if the command is a branch command.
    pub fn branch_to(&self) -> (r: Option<&Identifier>)
        ensures
            spec_branch_to(self@) == match r {
                Some(t) => Some(t@),
                None => None::<Seq<char>>,
            },
    {
        if self.opcode_is("branch.eq") || self.opcode_is("branch.neq") {
            match &self.target {
                Some(t) => Some(t),
                None => None,
            }
        } else {
            None
        }
    }

    /// Returns the position name, if the command is a position command.
    pub fn position(&self) -> (r: Option<&Identifier>)
        ensures
            spec_position(self@) == match r {
                Some(t) => Some(t@),
                None => None::<Seq<char>>,
            },
    {
        if self.opcode_is("position") && self.args.len() == 1 {
            let it = &self.args[0];
            assert(items_view(self.args@)[0] == it@);
            match (&it.base, &it.key) {
                (Base::Name(n), None) => Some(n),
                _ => None,
            }
        } else {
            None
        }
    }
}

} // verus!
