//! The text of a program: how it is read, how it is printed, and its checksum.
use vstd::prelude::*;

use crate::checksum::{source_code_checksum, spec_checksum};
use crate::component::{
    parse_closure, parse_constructor, parse_function, parse_view, spec_closure_component,
    spec_constructor_component, spec_function_component, spec_view_component,
};
use crate::console::{
    console_program_id, console_record_type, console_sanitize, console_struct_type, console_whitespace,
    network_limits,
};
use crate::display::{closure_text, constructor_text, function_text, view_text};
use crate::operand::{program_id_text, tail, write_program_id, Identifier, ProgramID, ProgramIDView};
use crate::program::{
    component_error, components_view, ids_view, import_error, Component, ComponentView, Definition,
    DefinitionView, Mapping, MappingView, ProgramCore, ProgramError, ProgramView,
};
use crate::syntax::{after, parse_header, spec_header, spec_typed_end, tail_of, TypeKind};
use crate::text::{chars_of, has_prefix, push_all, starts_with, string_of};

verus! {

/// Applies the steps in order; the first step that gives an error stops the others.
pub open spec fn fold_checked<S, A, E>(
    init: S,
    xs: Seq<A>,
    err: spec_fn(S, A) -> Option<E>,
    apply: spec_fn(S, A) -> S,
) -> Result<S, E>
    decreases xs.len(),
{
    if xs.len() == 0 {
        Ok(init)
    } else {
        match fold_checked(init, xs.drop_last(), err, apply) {
            Ok(s) => match err(s, xs.last()) {
                Some(e) => Err(e),
                None => Ok(apply(s, xs.last())),
            },
            Err(e) => Err(e),
        }
    }
}

proof fn lemma_checked_take<S, A, E>(
    init: S,
    xs: Seq<A>,
    err: spec_fn(S, A) -> Option<E>,
    apply: spec_fn(S, A) -> S,
    i: int,
)
    requires
        0 <= i < xs.len(),
    ensures
        fold_checked(init, xs.take(i + 1), err, apply) == match fold_checked(init, xs.take(i), err, apply) {
            Ok(s) => match err(s, xs[i]) {
                Some(e) => Err(e),
                None => Ok(apply(s, xs[i])),
            },
            Err(e) => Err(e),
        },
{
    assert(xs.take(i + 1).drop_last() =~= xs.take(i));
}

proof fn lemma_checked_err<S, A, E>(
    init: S,
    xs: Seq<A>,
    err: spec_fn(S, A) -> Option<E>,
    apply: spec_fn(S, A) -> S,
    i: int,
    e: E,
)
    requires
        0 <= i <= xs.len(),
        fold_checked(init, xs.take(i), err, apply) == Err::<S, E>(e),
    ensures
        fold_checked(init, xs, err, apply) == Err::<S, E>(e),
    decreases xs.len() - i,
{
    if i < xs.len() {
        lemma_checked_take(init, xs, err, apply, i);
        lemma_checked_err(init, xs, err, apply, i + 1, e);
    } else {
        assert(xs.take(i) =~= xs);
    }
}

/// A statement that names a program: `{keyword} {program_id};`, after whitespace and
/// comments.
pub open spec fn spec_id_statement(t: Seq<char>, keyword: Seq<char>) -> Option<(nat, ProgramIDView)> {
    match console_sanitize(t) {
        Some(k0) => {
            let t0 = tail(t, k0);
            if starts_with(t0, keyword) {
                let t1 = after(t0, keyword);
                match console_whitespace(t1) {
                    Some(k2) => {
                        let t2 = tail(t1, k2);
                        match console_program_id(t2) {
                            Some((k3, name, network)) => {
                                let t3 = tail(t2, k3);
                                match console_whitespace(t3) {
                                    Some(k4) => {
                                        let t4 = tail(t3, k4);
                                        if starts_with(t4, ";"@) {
                                            Some(
                                                (
                                                    (t4.len() - 1) as nat,
                                                    ProgramIDView { name, network },
                                                ),
                                            )
                                        } else {
                                            None
                                        }
                                    },
                                    None => None,
                                }
                            },
                            None => None,
                        }
                    },
                    None => None,
                }
            } else {
                None
            }
        },
        None => None,
    }
}

fn parse_id_statement(t: &[char], keyword: &[char]) -> (r: Option<(usize, ProgramID)>)
    ensures
        spec_id_statement(t@, keyword@) == match r {
            Some((k, p)) => Some((k as nat, p@)),
            None => None::<(nat, ProgramIDView)>,
        },
        r matches Some((k, _)) ==> k < t@.len(),
{
    let k0 = match crate::console::sanitize(t) {
        Some(k) => k,
        None => return None,
    };
    let t0 = tail_of(t, k0);
    if !has_prefix(t0, keyword) {
        return None;
    }
    let t1 = tail_of(t0, t0.len() - keyword.len());
    let k2 = match crate::console::whitespace(t1) {
        Some(k) => k,
        None => return None,
    };
    let t2 = tail_of(t1, k2);
    let (k3, name, network) = match crate::console::program_id(t2) {
        Some(found) => found,
        None => return None,
    };
    let t3 = tail_of(t2, k3);
    let k4 = match crate::console::whitespace(t3) {
        Some(k) => k,
        None => return None,
    };
    let t4 = tail_of(t3, k4);
    if !has_prefix(t4, &chars_of(";")) {
        return None;
    }
    proof {
        reveal_strlit(";");
    }
    Some((t4.len() - 1, ProgramID { name, network }))
}

/// The import statements at the start of the text, as many as there are.
pub open spec fn spec_imports(t: Seq<char>) -> (nat, Seq<ProgramIDView>)
    decreases t.len(),
{
    match spec_id_statement(t, "import"@) {
        Some((k, p)) => if k < t.len() {
            let (k2, rest) = spec_imports(tail(t, k));
            (k2, seq![p] + rest)
        } else {
            (t.len(), Seq::empty())
        },
        None => (t.len(), Seq::empty()),
    }
}

fn parse_imports(t: &[char]) -> (r: (usize, Vec<ProgramID>))
    ensures
        (r.0 as nat, ids_view(r.1@)) == spec_imports(t@),
        r.0 <= t@.len(),
{
    let mut k: usize = t.len();
    let mut acc: Vec<ProgramID> = Vec::new();
    proof {
        assert(tail(t@, t@.len()) =~= t@);
        assert(ids_view(acc@) =~= Seq::<ProgramIDView>::empty());
    }
    let w = chars_of("import");
    loop
        invariant
            k <= t@.len(),
            w@ == "import"@,
            spec_imports(t@) == (
                spec_imports(tail(t@, k as nat)).0,
                ids_view(acc@) + spec_imports(tail(t@, k as nat)).1,
            ),
        decreases k,
    {
        let cur = tail_of(t, k);
        match parse_id_statement(cur, &w) {
            Some((k2, p)) => {
                proof {
                    crate::syntax::lemma_tail_tail(t@, k as nat, k2 as nat);
                    let rest = spec_imports(tail(t@, k2 as nat)).1;
                    assert(ids_view(acc@.push(p)) =~= ids_view(acc@).push(p@));
                    assert(ids_view(acc@) + (seq![p@] + rest) =~= ids_view(acc@).push(p@) + rest);
                }
                acc.push(p);
                k = k2;
            },
            None => {
                assert(ids_view(acc@) + Seq::<ProgramIDView>::empty() =~= ids_view(acc@));
                return (k, acc);
            },
        }
    }
}

/// An entry of a mapping: `{word} as {type};` with a plaintext finalize type, after
/// whitespace and comments. The length of the rest and the printed type.
pub open spec fn spec_map_entry(t: Seq<char>, word: Seq<char>) -> Option<(nat, Seq<char>)> {
    match console_sanitize(t) {
        Some(k0) => {
            let t0 = tail(t, k0);
            if starts_with(t0, word) {
                match spec_typed_end(TypeKind::Finalize, after(t0, word)) {
                    Some((k, plaintext, ty)) => if plaintext {
                        Some((k, ty))
                    } else {
                        None
                    },
                    None => None,
                }
            } else {
                None
            }
        },
        None => None,
    }
}

fn parse_map_entry(t: &[char], word: &[char]) -> (r: Option<(usize, String)>)
    ensures
        spec_map_entry(t@, word@) == match r {
            Some((k, ty)) => Some((k as nat, ty@)),
            None => None::<(nat, Seq<char>)>,
        },
        r matches Some((k, _)) ==> k <= t@.len(),
{
    let k0 = match crate::console::sanitize(t) {
        Some(k) => k,
        None => return None,
    };
    let t0 = tail_of(t, k0);
    if !has_prefix(t0, word) {
        return None;
    }
    let t1 = tail_of(t0, t0.len() - word.len());
    match crate::syntax::typed_end(TypeKind::Finalize, t1) {
        Some((k, plaintext, ty)) => if plaintext {
            Some((k, ty))
        } else {
            None
        },
        None => None,
    }
}

/// A mapping in the text: `mapping {name}:`, then `key as {type};` and `value as {type};`.
pub open spec fn spec_mapping(t: Seq<char>) -> Option<(nat, MappingView)> {
    match spec_header(t, "mapping"@) {
        Some((k1, name)) => {
            let t1 = tail(t, k1);
            match spec_map_entry(t1, "key"@) {
                Some((k2, key)) => match spec_map_entry(tail(t1, k2), "value"@) {
                    Some((k3, value)) => Some((k3, MappingView { name, key, value })),
                    None => None,
                },
                None => None,
            }
        },
        None => None,
    }
}

fn parse_mapping(t: &[char]) -> (r: Option<(usize, Mapping)>)
    ensures
        spec_mapping(t@) == match r {
            Some((k, m)) => Some((k as nat, m@)),
            None => None::<(nat, MappingView)>,
        },
        r matches Some((k, _)) ==> k < t@.len(),
{
    let (k1, name) = match parse_header(t, &chars_of("mapping")) {
        Some(found) => found,
        None => return None,
    };
    let t1 = tail_of(t, k1);
    let (k2, key) = match parse_map_entry(t1, &chars_of("key")) {
        Some(found) => found,
        None => return None,
    };
    let t2 = tail_of(t1, k2);
    let (k3, value) = match parse_map_entry(t2, &chars_of("value")) {
        Some(found) => found,
        None => return None,
    };
    Some((k3, Mapping { name, key, value }))
}

/// A component in the text, after whitespace and comments; the word that starts it says
/// which kind of component it is.
pub open spec fn spec_component(t: Seq<char>) -> Option<(nat, ComponentView)> {
    match console_sanitize(t) {
        Some(k0) => {
            let t0 = tail(t, k0);
            if starts_with(t0, "constructor"@) {
                match spec_constructor_component(t0) {
                    Some((k, c)) => Some((k, ComponentView::Constructor(c))),
                    None => None,
                }
            } else if starts_with(t0, "mapping"@) {
                match spec_mapping(t0) {
                    Some((k, m)) => Some((k, ComponentView::Mapping(m))),
                    None => None,
                }
            } else if starts_with(t0, "struct"@) {
                match console_struct_type(t0) {
                    Some((k, name, text)) => Some(
                        (k, ComponentView::Struct(DefinitionView { name, text })),
                    ),
                    None => None,
                }
            } else if starts_with(t0, "record"@) {
                match console_record_type(t0) {
                    Some((k, name, text)) => Some(
                        (k, ComponentView::Record(DefinitionView { name, text })),
                    ),
                    None => None,
                }
            } else if starts_with(t0, "closure"@) {
                match spec_closure_component(t0) {
                    Some((k, c)) => Some((k, ComponentView::Closure(c))),
                    None => None,
                }
            } else if starts_with(t0, "function"@) {
                match spec_function_component(t0) {
                    Some((k, f)) => Some((k, ComponentView::Function(f))),
                    None => None,
                }
            } else if starts_with(t0, "view"@) {
                match spec_view_component(t0) {
                    Some((k, v)) => Some((k, ComponentView::View(v))),
                    None => None,
                }
            } else {
                None
            }
        },
        None => None,
    }
}

/// The view of the result of the component parser.
pub open spec fn component_parsed(r: Option<(usize, Component)>) -> Option<(nat, ComponentView)> {
    match r {
        Some((k, c)) => Some((k as nat, c@)),
        None => None,
    }
}

/// Parses a component from the start of the text.
pub fn parse_component(t: &[char]) -> (r: Option<(usize, Component)>)
    ensures
        component_parsed(r) == spec_component(t@),
        r matches Some((k, c)) ==> k <= t@.len() && c.wf(),
{
    let k0 = match crate::console::sanitize(t) {
        Some(k) => k,
        None => return None,
    };
    let t0 = tail_of(t, k0);
    if has_prefix(t0, &chars_of("constructor")) {
        match parse_constructor(t0) {
            Some((k, c)) => Some((k, Component::Constructor(c))),
            None => None,
        }
    } else if has_prefix(t0, &chars_of("mapping")) {
        match parse_mapping(t0) {
            Some((k, m)) => Some((k, Component::Mapping(m))),
            None => None,
        }
    } else if has_prefix(t0, &chars_of("struct")) {
        match crate::console::struct_type(t0) {
            Some((k, name, text)) => Some(
                (k, Component::Struct(Definition { name: Identifier { name }, text })),
            ),
            None => None,
        }
    } else if has_prefix(t0, &chars_of("record")) {
        match crate::console::record_type(t0) {
            Some((k, name, text)) => Some(
                (k, Component::Record(Definition { name: Identifier { name }, text })),
            ),
            None => None,
        }
    } else if has_prefix(t0, &chars_of("closure")) {
        match parse_closure(t0) {
            Some((k, c)) => Some((k, Component::Closure(c))),
            None => None,
        }
    } else if has_prefix(t0, &chars_of("function")) {
        match parse_function(t0) {
            Some((k, f)) => Some((k, Component::Function(f))),
            None => None,
        }
    } else if has_prefix(t0, &chars_of("view")) {
        match parse_view(t0) {
            Some((k, v)) => Some((k, Component::View(v))),
            None => None,
        }
    } else {
        None
    }
}

/// The components at the start of the text, as many as there are.
pub open spec fn spec_components(t: Seq<char>) -> (nat, Seq<ComponentView>)
    decreases t.len(),
{
    match spec_component(t) {
        Some((k, c)) => if k < t.len() {
            let (k2, rest) = spec_components(tail(t, k));
            (k2, seq![c] + rest)
        } else {
            (t.len(), Seq::empty())
        },
        None => (t.len(), Seq::empty()),
    }
}

fn parse_components(t: &[char]) -> (r: (usize, Vec<Component>))
    ensures
        (r.0 as nat, components_view(r.1@)) == spec_components(t@),
        r.0 <= t@.len(),
        forall|i: int| 0 <= i < r.1@.len() ==> (#[trigger] r.1@[i]).wf(),
{
    let mut k: usize = t.len();
    let mut acc: Vec<Component> = Vec::new();
    proof {
        assert(tail(t@, t@.len()) =~= t@);
        assert(components_view(acc@) =~= Seq::<ComponentView>::empty());
    }
    loop
        invariant
            k <= t@.len(),
            forall|i: int| 0 <= i < acc@.len() ==> (#[trigger] acc@[i]).wf(),
            spec_components(t@) == (
                spec_components(tail(t@, k as nat)).0,
                components_view(acc@) + spec_components(tail(t@, k as nat)).1,
            ),
        decreases k,
    {
        let cur = tail_of(t, k);
        match parse_component(cur) {
            Some((k2, c)) => {
                if k2 >= cur.len() {
                    assert(components_view(acc@) + Seq::<ComponentView>::empty() =~= components_view(acc@));
                    return (k, acc);
                }
                proof {
                    crate::syntax::lemma_tail_tail(t@, k as nat, k2 as nat);
                    let rest = spec_components(tail(t@, k2 as nat)).1;
                    assert(components_view(acc@.push(c)) =~= components_view(acc@).push(c@));
                    assert(components_view(acc@) + (seq![c@] + rest) =~= components_view(acc@).push(c@)
                        + rest);
                }
                acc.push(c);
                k = k2;
            },
            None => {
                assert(components_view(acc@) + Seq::<ComponentView>::empty() =~= components_view(acc@));
                return (k, acc);
            },
        }
    }
}

/// One import added to a program.
pub open spec fn import_step() -> spec_fn(ProgramView, ProgramIDView) -> ProgramView {
    |p: ProgramView, i: ProgramIDView| ProgramView { imports: p.imports.push(i), ..p }
}

/// One component added to a program.
pub open spec fn component_step() -> spec_fn(ProgramView, ComponentView) -> ProgramView {
    |p: ProgramView, c: ComponentView| ProgramView { components: p.components.push(c), ..p }
}

/// The program built from its ID, imports and components, added in this order; the first
/// refusal is the result.
pub open spec fn build_program(
    id: ProgramIDView,
    imports: Seq<ProgramIDView>,
    comps: Seq<ComponentView>,
) -> Result<ProgramView, ProgramError> {
    let p0 = ProgramView { id, imports: Seq::empty(), components: Seq::empty() };
    match fold_checked(p0, imports, |p: ProgramView, i: ProgramIDView| import_error(p, i), import_step()) {
        Ok(p1) => fold_checked(
            p1,
            comps,
            |p: ProgramView, c: ComponentView| component_error(p, c),
            component_step(),
        ),
        Err(e) => Err(e),
    }
}

/// What reading a program from the start of the text gives: the imports, the statement
/// `program {id};`, at least one component, and the whitespace and comments after them; then
/// the program is built. The length of the rest of the text and the program, or why there
/// is none.
pub open spec fn spec_parse_program(s: Seq<char>) -> Result<(nat, ProgramView), ProgramError> {
    let (k1, imports) = spec_imports(s);
    let t1 = tail(s, k1);
    match spec_id_statement(t1, "program"@) {
        Some((k2, id)) => {
            let t2 = tail(t1, k2);
            let (k3, comps) = spec_components(t2);
            if comps.len() == 0 {
                Err(ProgramError::NotAProgram)
            } else {
                match console_sanitize(tail(t2, k3)) {
                    Some(k4) => match build_program(id, imports, comps) {
                        Ok(p) => Ok((k4, p)),
                        Err(e) => Err(e),
                    },
                    None => Err(ProgramError::NotAProgram),
                }
            }
        },
        None => Err(ProgramError::NotAProgram),
    }
}

fn add_imports(p: &mut ProgramCore, imports: Vec<ProgramID>) -> (r: Result<(), ProgramError>)
    requires
        old(p).wf(),
    ensures
        final(p).wf(),
        match fold_checked(old(p)@, ids_view(imports@), |q: ProgramView, i: ProgramIDView| import_error(q, i), import_step()) {
            Ok(q) => r is Ok && final(p)@ == q,
            Err(e) => r == Err::<(), ProgramError>(e),
        },
{
    let ghost xs = ids_view(imports@);
    let ghost p0 = p@;
    let ghost err = |q: ProgramView, i: ProgramIDView| import_error(q, i);
    proof {
        assert(xs.take(0) =~= Seq::<ProgramIDView>::empty());
    }
    for x in it: imports.into_iter()
        invariant
            p.wf(),
            p0 == old(p)@,
            it.seq() == imports@,
            xs == ids_view(imports@),
            err == (|q: ProgramView, i: ProgramIDView| import_error(q, i)),
            fold_checked(p0, xs.take(it.index() as int), err, import_step()) == Ok::<ProgramView, ProgramError>(p@),
    {
        let ghost i = it.index() as int;
        proof {
            lemma_checked_take(p0, xs, err, import_step(), i);
        }
        assert(x == imports@[i]);
        assert(xs[i] == x@);
        match p.add_import(x) {
            Ok(()) => {},
            Err(e) => {
                proof {
                    lemma_checked_err(p0, xs, err, import_step(), i + 1, e);
                }
                return Err(e);
            },
        }
    }
    proof {
        assert(xs.take(xs.len() as int) =~= xs);
    }
    Ok(())
}

fn add_components(p: &mut ProgramCore, comps: Vec<Component>) -> (r: Result<(), ProgramError>)
    requires
        old(p).wf(),
        forall|i: int| 0 <= i < comps@.len() ==> (#[trigger] comps@[i]).wf(),
    ensures
        final(p).wf(),
        match fold_checked(old(p)@, components_view(comps@), |q: ProgramView, c: ComponentView| component_error(q, c), component_step()) {
            Ok(q) => r is Ok && final(p)@ == q,
            Err(e) => r == Err::<(), ProgramError>(e),
        },
{
    let ghost xs = components_view(comps@);
    let ghost p0 = p@;
    let ghost err = |q: ProgramView, c: ComponentView| component_error(q, c);
    let ghost all = comps@;
    proof {
        assert(xs.take(0) =~= Seq::<ComponentView>::empty());
    }
    for x in it: comps.into_iter()
        invariant
            p.wf(),
            p0 == old(p)@,
            it.seq() == all,
            forall|i: int| 0 <= i < all.len() ==> (#[trigger] all[i]).wf(),
            xs == components_view(all),
            err == (|q: ProgramView, c: ComponentView| component_error(q, c)),
            fold_checked(p0, xs.take(it.index() as int), err, component_step()) == Ok::<ProgramView, ProgramError>(p@),
    {
        let ghost i = it.index() as int;
        proof {
            lemma_checked_take(p0, xs, err, component_step(), i);
        }
        assert(x == all[i]);
        assert(xs[i] == x@);
        match p.add_component(x) {
            Ok(()) => {},
            Err(e) => {
                proof {
                    lemma_checked_err(p0, xs, err, component_step(), i + 1, e);
                }
                return Err(e);
            },
        }
    }
    proof {
        assert(xs.take(xs.len() as int) =~= xs);
    }
    Ok(())
}

/// Reads a program from the start of the characters: the length of the rest and the
/// program.
pub fn parse_program(s: &[char]) -> (r: Result<(usize, ProgramCore), ProgramError>)
    ensures
        spec_parse_program(s@) == match r {
            Ok((k, p)) => Ok((k as nat, p@)),
            Err(e) => Err::<(nat, ProgramView), ProgramError>(e),
        },
        r matches Ok((k, p)) ==> k <= s@.len() && p.wf(),
{
    let (k1, imports) = parse_imports(s);
    let t1 = tail_of(s, k1);
    let (k2, id) = match parse_id_statement(t1, &chars_of("program")) {
        Some(found) => found,
        None => return Err(ProgramError::NotAProgram),
    };
    let t2 = tail_of(t1, k2);
    let (k3, comps) = parse_components(t2);
    if comps.len() == 0 {
        return Err(ProgramError::NotAProgram);
    }
    let t3 = tail_of(t2, k3);
    let k4 = match crate::console::sanitize(t3) {
        Some(k) => k,
        None => return Err(ProgramError::NotAProgram),
    };
    let mut p = ProgramCore::new(id);
    match add_imports(&mut p, imports) {
        Ok(()) => {},
        Err(e) => return Err(e),
    }
    match add_components(&mut p, comps) {
        Ok(()) => {},
        Err(e) => return Err(e),
    }
    Ok((k4, p))
}

/// The printed mapping.
pub open spec fn mapping_text(m: MappingView) -> Seq<char> {
    "mapping "@ + m.name + ":\n    key as "@ + m.key + ";\n    value as "@ + m.value + ";"@
}

/// The printed component.
pub open spec fn component_text(c: ComponentView) -> Seq<char> {
    match c {
        ComponentView::Constructor(x) => constructor_text(x),
        ComponentView::Mapping(m) => mapping_text(m),
        ComponentView::Struct(d) => d.text,
        ComponentView::Record(d) => d.text,
        ComponentView::Closure(x) => closure_text(x),
        ComponentView::Function(f) => function_text(f),
        ComponentView::View(v) => view_text(v),
    }
}

/// The printed components, each followed by a new line, with a blank line between two of
/// them.
pub open spec fn components_text(cs: Seq<ComponentView>) -> Seq<char>
    decreases cs.len(),
{
    if cs.len() == 0 {
        Seq::empty()
    } else {
        components_text(cs.drop_last()) + (if cs.len() > 1 {
            "\n"@
        } else {
            Seq::<char>::empty()
        }) + component_text(cs.last()) + "\n"@
    }
}

/// The printed imports, each on a line of its own.
pub open spec fn imports_text(is: Seq<ProgramIDView>) -> Seq<char>
    decreases is.len(),
{
    if is.len() == 0 {
        Seq::empty()
    } else {
        imports_text(is.drop_last()) + "import "@ + program_id_text(is.last()) + ";\n"@
    }
}

/// The printed program: its imports and a blank line (if it has imports), the statement
/// `program {id};` and a blank line, and its components.
pub open spec fn program_text(p: ProgramView) -> Seq<char> {
    (if p.imports.len() > 0 {
        imports_text(p.imports) + "\n"@
    } else {
        Seq::<char>::empty()
    }) + "program "@ + program_id_text(p.id) + ";\n\n"@ + components_text(p.components)
}

/// Appends the printed component to `out`.
pub fn write_component(out: &mut Vec<char>, c: &Component)
    requires
        c.wf(),
    ensures
        final(out)@ == old(out)@ + component_text(c@),
{
    match c {
        Component::Constructor(x) => x.write_text(out),
        Component::Mapping(m) => {
            let ghost start = out@;
            push_all(out, &chars_of("mapping "));
            push_all(out, &chars_of(m.name.name.as_str()));
            push_all(out, &chars_of(":\n    key as "));
            push_all(out, &chars_of(m.key.as_str()));
            push_all(out, &chars_of(";\n    value as "));
            push_all(out, &chars_of(m.value.as_str()));
            push_all(out, &chars_of(";"));
            assert(out@ =~= start + mapping_text(m@));
        },
        Component::Struct(d) => push_all(out, &chars_of(d.text.as_str())),
        Component::Record(d) => push_all(out, &chars_of(d.text.as_str())),
        Component::Closure(x) => x.write_text(out),
        Component::Function(f) => f.write_text(out),
        Component::View(v) => v.write_text(out),
    }
}

/// A component of the kind with the name.
pub open spec fn has_component(cs: Seq<ComponentView>, kind: crate::program::ComponentKind, name: Seq<char>) -> bool {
    exists|i: int|
        0 <= i < cs.len() && crate::program::kind_of(#[trigger] cs[i]) == kind && crate::program::name_of(
            cs[i],
        ) == Some(name)
}

/// The views among the components, in order.
pub open spec fn views_of(cs: Seq<ComponentView>) -> Seq<crate::scope::ViewView>
    decreases cs.len(),
{
    if cs.len() == 0 {
        Seq::empty()
    } else {
        views_of(cs.drop_last()) + match cs.last() {
            ComponentView::View(v) => seq![v],
            _ => Seq::empty(),
        }
    }
}

impl ProgramCore {
    /// Appends the printed program to `out`.
    pub fn write_text(&self, out: &mut Vec<char>)
        requires
            self.wf(),
        ensures
            final(out)@ == old(out)@ + program_text(self@),
    {
        let ghost start = out@;
        let imports = self.imports();
        if imports.len() > 0 {
            let mut i: usize = 0;
            while i < imports.len()
                invariant
                    i <= imports@.len(),
                    out@ == start + imports_text(ids_view(imports@.subrange(0, i as int))),
                decreases imports.len() - i,
            {
                push_all(out, &chars_of("import "));
                write_program_id(out, &imports[i]);
                push_all(out, &chars_of(";\n"));
                proof {
                    let pre = ids_view(imports@.subrange(0, i as int));
                    let post = ids_view(imports@.subrange(0, i + 1));
                    assert(post.drop_last() =~= pre);
                    assert(out@ =~= start + imports_text(post));
                }
                i = i + 1;
            }
            assert(imports@.subrange(0, imports@.len() as int) =~= imports@);
            push_all(out, &chars_of("\n"));
        }
        let ghost mid = out@;
        assert(mid == start + (if self@.imports.len() > 0 {
            imports_text(self@.imports) + "\n"@
        } else {
            Seq::<char>::empty()
        }));
        push_all(out, &chars_of("program "));
        write_program_id(out, self.id());
        push_all(out, &chars_of(";\n\n"));
        let ghost head = out@;
        let comps = self.components();
        let mut i: usize = 0;
        while i < comps.len()
            invariant
                i <= comps@.len(),
                forall|j: int| 0 <= j < comps@.len() ==> (#[trigger] comps@[j]).wf(),
                out@ == head + components_text(components_view(comps@.subrange(0, i as int))),
            decreases comps.len() - i,
        {
            let ghost before = out@;
            if i > 0 {
                push_all(out, &chars_of("\n"));
            }
            write_component(out, &comps[i]);
            push_all(out, &chars_of("\n"));
            proof {
                let pre = components_view(comps@.subrange(0, i as int));
                let post = components_view(comps@.subrange(0, i + 1));
                assert(post.drop_last() =~= pre);
                assert(post.last() == comps@[i as int]@);
                assert(out@ =~= head + components_text(post));
            }
            i = i + 1;
        }
        assert(comps@.subrange(0, comps@.len() as int) =~= comps@);
        assert(out@ =~= start + program_text(self@));
    }

    /// Returns the printed program.
    pub fn to_string(&self) -> (r: String)
        requires
            self.wf(),
        ensures
            r@ == program_text(self@),
    {
        let mut out: Vec<char> = Vec::new();
        self.write_text(&mut out);
        assert(out@ =~= program_text(self@));
        string_of(&out)
    }

    /// Returns the checksum of the program: the SHA3-256 digest of its printed form.
    pub fn to_checksum(&self) -> (r: [u8; 32])
        requires
            self.wf(),
        ensures
            r@ == spec_checksum(program_text(self@)),
    {
        source_code_checksum(self.to_string().as_str())
    }

    fn contains(&self, kind: crate::program::ComponentKind, name: &Identifier) -> (r: bool)
        ensures
            r == has_component(self@.components, kind, name@),
    {
        let comps = self.components();
        let mut i: usize = 0;
        while i < comps.len()
            invariant
                i <= comps@.len(),
                components_view(comps@) == self@.components,
                forall|j: int|
                    0 <= j < i ==> !(crate::program::kind_of(#[trigger] self@.components[j]) == kind
                        && crate::program::name_of(self@.components[j]) == Some(name@)),
            decreases comps.len() - i,
        {
            let (k, n): (crate::program::ComponentKind, Option<&Identifier>) = match &comps[i] {
                Component::Constructor(_) => (crate::program::ComponentKind::Constructor, None),
                Component::Mapping(m) => (crate::program::ComponentKind::Mapping, Some(&m.name)),
                Component::Struct(d) => (crate::program::ComponentKind::Struct, Some(&d.name)),
                Component::Record(d) => (crate::program::ComponentKind::Record, Some(&d.name)),
                Component::Closure(c) => (crate::program::ComponentKind::Closure, Some(&c.name)),
                Component::Function(f) => (crate::program::ComponentKind::Function, Some(f.name())),
                Component::View(v) => (crate::program::ComponentKind::View, Some(v.name())),
            };
            assert(self@.components[i as int] == comps@[i as int]@);
            if k == kind {
                if let Some(n) = n {
                    if crate::text::same_text(n.name.as_str(), name.name.as_str()) {
                        return true;
                    }
                }
            }
            i = i + 1;
        }
        false
    }

    /// Returns `true` if the program has a mapping with the name.
    pub fn contains_mapping(&self, name: &Identifier) -> (r: bool)
        ensures
            r == has_component(self@.components, crate::program::ComponentKind::Mapping, name@),
    {
        self.contains(crate::program::ComponentKind::Mapping, name)
    }

    /// Returns `true` if the program has a struct with the name.
    pub fn contains_struct(&self, name: &Identifier) -> (r: bool)
        ensures
            r == has_component(self@.components, crate::program::ComponentKind::Struct, name@),
    {
        self.contains(crate::program::ComponentKind::Struct, name)
    }

    /// Returns `true` if the program has a record with the name.
    pub fn contains_record(&self, name: &Identifier) -> (r: bool)
        ensures
            r == has_component(self@.components, crate::program::ComponentKind::Record, name@),
    {
        self.contains(crate::program::ComponentKind::Record, name)
    }

    /// Returns `true` if the program has a closure with the name.
    pub fn contains_closure(&self, name: &Identifier) -> (r: bool)
        ensures
            r == has_component(self@.components, crate::program::ComponentKind::Closure, name@),
    {
        self.contains(crate::program::ComponentKind::Closure, name)
    }

    /// Returns `true` if the program has a function with the name.
    pub fn contains_function(&self, name: &Identifier) -> (r: bool)
        ensures
            r == has_component(self@.components, crate::program::ComponentKind::Function, name@),
    {
        self.contains(crate::program::ComponentKind::Function, name)
    }

    /// Returns `true` if the program has a view with the name.
    pub fn contains_view(&self, name: &Identifier) -> (r: bool)
        ensures
            r == has_component(self@.components, crate::program::ComponentKind::View, name@),
    {
        self.contains(crate::program::ComponentKind::View, name)
    }

    /// The view with the name, if the program has one.
    pub fn get_view(&self, name: &Identifier) -> (r: Option<&crate::scope::ViewCore>)
        ensures
            r is Some <==> has_component(self@.components, crate::program::ComponentKind::View, name@),
            r matches Some(v) ==> v@.name == name@ && self@.components.contains(ComponentView::View(v@)),
    {
        let comps = self.components();
        let mut i: usize = 0;
        while i < comps.len()
            invariant
                i <= comps@.len(),
                components_view(comps@) == self@.components,
                forall|j: int|
                    0 <= j < i ==> !(crate::program::kind_of(#[trigger] self@.components[j])
                        == crate::program::ComponentKind::View && crate::program::name_of(
                        self@.components[j],
                    ) == Some(name@)),
            decreases comps.len() - i,
        {
            assert(self@.components[i as int] == comps@[i as int]@);
            match &comps[i] {
                Component::View(v) => {
                    if crate::text::same_text(v.name().name.as_str(), name.name.as_str()) {
                        return Some(v);
                    }
                },
                _ => {},
            }
            i = i + 1;
        }
        None
    }

    /// The views of the program, in order.
    pub fn views(&self) -> (r: Vec<&crate::scope::ViewCore>)
        ensures
            r@.len() == views_of(self@.components).len(),
            forall|i: int| 0 <= i < r@.len() ==> (#[trigger] r@[i])@ == views_of(self@.components)[i],
    {
        let comps = self.components();
        let mut r: Vec<&crate::scope::ViewCore> = Vec::new();
        let mut i: usize = 0;
        while i < comps.len()
            invariant
                i <= comps@.len(),
                components_view(comps@) == self@.components,
                r@.len() == views_of(self@.components.take(i as int)).len(),
                forall|j: int| 0 <= j < r@.len() ==> (#[trigger] r@[j])@ == views_of(self@.components.take(i as int))[j],
            decreases comps.len() - i,
        {
            proof {
                assert(self@.components.take(i + 1).drop_last() =~= self@.components.take(i as int));
                assert(self@.components[i as int] == comps@[i as int]@);
            }
            match &comps[i] {
                Component::View(v) => {
                    r.push(v);
                },
                _ => {},
            }
            i = i + 1;
            proof {
                assert(views_of(self@.components.take(i as int)) =~= views_of(self@.components.take(i - 1))
                    + match self@.components[i - 1] {
                    ComponentView::View(v) => seq![v],
                    _ => Seq::empty(),
                });
            }
        }
        assert(self@.components.take(self@.components.len() as int) =~= self@.components);
        r
    }

    /// Reads a program from the start of the string: the rest of the string and the program.
    pub fn parse(string: &str) -> (r: Result<(String, ProgramCore), ProgramError>)
        ensures
            match spec_parse_program(string@) {
                Ok((k, p)) => r matches Ok((rest, q)) && rest@ == tail(string@, k) && q@ == p && q.wf(),
                Err(e) => r == Err::<(String, ProgramCore), ProgramError>(e),
            },
    {
        let s = chars_of(string);
        match parse_program(&s) {
            Ok((k, p)) => Ok((string_of(tail_of(&s, k)), p)),
            Err(e) => Err(e),
        }
    }

    /// Reads a program that makes up the whole string: refused if the string is longer than a
    /// program may be (in bytes), if no program can be read, if its rules refuse it, or if
    /// text is left after it.
    pub fn from_str(string: &str) -> (r: Result<ProgramCore, ProgramError>)
        ensures
            string.len() > crate::console::mainnet_limits().max_program_size ==> r
                == Err::<ProgramCore, ProgramError>(ProgramError::TooLong),
            string.len() <= crate::console::mainnet_limits().max_program_size ==> match spec_parse_program(string@) {
                Ok((k, p)) => if k == 0 {
                    r matches Ok(q) && q@ == p && q.wf()
                } else {
                    r matches Err(ProgramError::Trailing(rest)) && rest@ == tail(string@, k)
                },
                Err(e) => r == Err::<ProgramCore, ProgramError>(e),
            },
    {
        let l = network_limits();
        if string.len() > l.max_program_size {
            return Err(ProgramError::TooLong);
        }
        let s = chars_of(string);
        match parse_program(&s) {
            Ok((k, p)) => if k == 0 {
                Ok(p)
            } else {
                Err(ProgramError::Trailing(string_of(tail_of(&s, k))))
            },
            Err(e) => Err(e),
        }
    }
}

} // verus!
