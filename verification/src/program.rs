//! A program: its ID, the programs it imports, and its components (constructor, mappings,
//! structs, records, closures, functions and views), with the rules that are checked as
//! they are added.
use vstd::prelude::*;

use crate::operand::{same_program_id, Identifier, ProgramID, ProgramIDView};
use crate::scope::{
    block_valid, ClosureCore, ClosureView, ConstructorCore, ConstructorView, FunctionCore, FunctionView,
    ViewCore, ViewView,
};
use crate::console::{mainnet_limits, network_limits};
use crate::text::same_text;

verus! {

/// A mapping: `mapping {name}:` with the finalize types of its keys and of its values.
#[derive(Clone, Debug, PartialEq, Eq)]
pub struct Mapping {
    pub name: Identifier,
    pub key: String,
    pub value: String,
}

/// The mathematical value of a mapping.
pub ghost struct MappingView {
    pub name: Seq<char>,
    pub key: Seq<char>,
    pub value: Seq<char>,
}

impl View for Mapping {
    type V = MappingView;

    open spec fn view(&self) -> MappingView {
        MappingView { name: self.name@, key: self.key@, value: self.value@ }
    }
}

/// A struct or record definition, as console reads and prints it: its name and its printed
/// definition.
#[derive(Clone, Debug, PartialEq, Eq)]
pub struct Definition {
    pub name: Identifier,
    pub text: String,
}

/// The mathematical value of a struct or record definition.
pub ghost struct DefinitionView {
    pub name: Seq<char>,
    pub text: Seq<char>,
}

impl View for Definition {
    type V = DefinitionView;

    open spec fn view(&self) -> DefinitionView {
        DefinitionView { name: self.name@, text: self.text@ }
    }
}

/// A component of a program.
pub enum Component {
    Constructor(ConstructorCore),
    Mapping(Mapping),
    Struct(Definition),
    Record(Definition),
    Closure(ClosureCore),
    Function(FunctionCore),
    View(ViewCore),
}

/// The mathematical value of a component.
pub ghost enum ComponentView {
    Constructor(ConstructorView),
    Mapping(MappingView),
    Struct(DefinitionView),
    Record(DefinitionView),
    Closure(ClosureView),
    Function(FunctionView),
    View(ViewView),
}

impl View for Component {
    type V = ComponentView;

    open spec fn view(&self) -> ComponentView {
        match self {
            Component::Constructor(c) => ComponentView::Constructor(c@),
            Component::Mapping(m) => ComponentView::Mapping(m@),
            Component::Struct(d) => ComponentView::Struct(d@),
            Component::Record(d) => ComponentView::Record(d@),
            Component::Closure(c) => ComponentView::Closure(c@),
            Component::Function(f) => ComponentView::Function(f@),
            Component::View(v) => ComponentView::View(v@),
        }
    }
}

impl Component {
    /// The component's own rules hold of it.
    pub open spec fn wf(&self) -> bool {
        match self {
            Component::Constructor(c) => c.wf(),
            Component::Closure(c) => block_valid(c.block@),
            Component::Function(f) => f.wf(),
            Component::View(v) => v.wf(),
            _ => true,
        }
    }
}

/// The kinds of components.
#[derive(Clone, Copy, Debug, PartialEq, Eq, Structural)]
pub enum ComponentKind {
    Constructor,
    Mapping,
    Struct,
    Record,
    Closure,
    Function,
    View,
}

/// The kind of a component.
pub open spec fn kind_of(c: ComponentView) -> ComponentKind {
    match c {
        ComponentView::Constructor(_) => ComponentKind::Constructor,
        ComponentView::Mapping(_) => ComponentKind::Mapping,
        ComponentView::Struct(_) => ComponentKind::Struct,
        ComponentView::Record(_) => ComponentKind::Record,
        ComponentView::Closure(_) => ComponentKind::Closure,
        ComponentView::Function(_) => ComponentKind::Function,
        ComponentView::View(_) => ComponentKind::View,
    }
}

/// The name of a component (the constructor has none).
pub open spec fn name_of(c: ComponentView) -> Option<Seq<char>> {
    match c {
        ComponentView::Constructor(_) => None,
        ComponentView::Mapping(m) => Some(m.name),
        ComponentView::Struct(d) => Some(d.name),
        ComponentView::Record(d) => Some(d.name),
        ComponentView::Closure(c) => Some(c.name),
        ComponentView::Function(f) => Some(f.name),
        ComponentView::View(v) => Some(v.name),
    }
}

/// The most components of each kind that a program may have.
pub open spec fn kind_limit(k: ComponentKind) -> nat {
    let l = mainnet_limits();
    match k {
        ComponentKind::Constructor => 1,
        ComponentKind::Mapping => l.max_mappings as nat,
        ComponentKind::Struct => l.max_structs as nat,
        ComponentKind::Record => l.max_records as nat,
        ComponentKind::Closure => l.max_closures as nat,
        ComponentKind::Function => l.max_functions as nat,
        ComponentKind::View => l.max_views as nat,
    }
}

/// The number of components of the kind.
pub open spec fn count_of(cs: Seq<ComponentView>, k: ComponentKind) -> nat
    decreases cs.len(),
{
    if cs.len() == 0 {
        0
    } else {
        count_of(cs.drop_last(), k) + if kind_of(cs.last()) == k {
            1nat
        } else {
            0nat
        }
    }
}

/// Some component has this name.
pub open spec fn name_in_use(cs: Seq<ComponentView>, n: Seq<char>) -> bool {
    exists|i: int| 0 <= i < cs.len() && name_of(#[trigger] cs[i]) == Some(n)
}

/// The mathematical value of a program.
pub ghost struct ProgramView {
    pub id: ProgramIDView,
    pub imports: Seq<ProgramIDView>,
    pub components: Seq<ComponentView>,
}

/// Why a program was refused.
#[derive(Clone, Debug, PartialEq, Eq)]
pub enum ProgramError {
    /// The program already imports the most programs that it may.
    TooManyImports,
    /// The program imports the same program twice.
    DuplicateImport,
    /// The program imports itself.
    ImportsItself,
    /// The name is already the name of another component.
    NameInUse,
    /// The program already has the most components of this kind that it may.
    TooManyComponents(ComponentKind),
    /// The text is not a program.
    NotAProgram,
    /// The text is longer than a program may be.
    TooLong,
    /// A program was read, but the text goes on after it; the rest of the text.
    Trailing(String),
}

/// Why the program refuses the import, if it does.
pub open spec fn import_error(p: ProgramView, i: ProgramIDView) -> Option<ProgramError> {
    if p.imports.len() >= mainnet_limits().max_imports {
        Some(ProgramError::TooManyImports)
    } else if p.imports.contains(i) {
        Some(ProgramError::DuplicateImport)
    } else if i == p.id {
        Some(ProgramError::ImportsItself)
    } else {
        None
    }
}

/// Why the program refuses the component, if it does: a name may be used once, and each kind
/// has its most.
pub open spec fn component_error(p: ProgramView, c: ComponentView) -> Option<ProgramError> {
    if name_of(c) is Some && name_in_use(p.components, name_of(c)->0) {
        Some(ProgramError::NameInUse)
    } else if count_of(p.components, kind_of(c)) >= kind_limit(kind_of(c)) {
        Some(ProgramError::TooManyComponents(kind_of(c)))
    } else {
        None
    }
}

/// What holds of every program that the rules built.
pub open spec fn program_valid(p: ProgramView) -> bool {
    &&& p.imports.len() <= mainnet_limits().max_imports
    &&& forall|i: int, j: int| 0 <= i < j < p.imports.len() ==> p.imports[i] != p.imports[j]
    &&& !p.imports.contains(p.id)
    &&& forall|i: int, j: int|
        0 <= i < j < p.components.len() && name_of(p.components[i]) is Some ==> name_of(
            #[trigger] p.components[i],
        ) != name_of(#[trigger] p.components[j])
    &&& forall|k: ComponentKind| count_of(p.components, k) <= kind_limit(k)
}

proof fn lemma_count_push(cs: Seq<ComponentView>, c: ComponentView, k: ComponentKind)
    ensures
        count_of(cs.push(c), k) == count_of(cs, k) + if kind_of(c) == k {
            1nat
        } else {
            0nat
        },
{
    assert(cs.push(c).drop_last() =~= cs);
}

/// A program: its ID, its imports and its components in the order they were added.
pub struct ProgramCore {
    id: ProgramID,
    imports: Vec<ProgramID>,
    components: Vec<Component>,
}

/// The views of the programs IDs.
pub open spec fn ids_view(v: Seq<ProgramID>) -> Seq<ProgramIDView> {
    v.map_values(|p: ProgramID| p@)
}

/// The views of the components.
pub open spec fn components_view(v: Seq<Component>) -> Seq<ComponentView> {
    v.map_values(|c: Component| c@)
}

impl View for ProgramCore {
    type V = ProgramView;

    closed spec fn view(&self) -> ProgramView {
        ProgramView {
            id: self.id@,
            imports: ids_view(self.imports@),
            components: components_view(self.components@),
        }
    }
}

impl ProgramCore {
    /// Each component keeps its own rules, and the program keeps its rules.
    pub closed spec fn wf(&self) -> bool {
        &&& forall|i: int| 0 <= i < self.components@.len() ==> (#[trigger] self.components@[i]).wf()
        &&& program_valid(self@)
    }

    /// A new program with the given ID and nothing in it.
    pub fn new(id: ProgramID) -> (r: ProgramCore)
        ensures
            r.wf(),
            r@ == (ProgramView { id: id@, imports: Seq::empty(), components: Seq::empty() }),
    {
        let r = ProgramCore { id, imports: Vec::new(), components: Vec::new() };
        assert(ids_view(r.imports@) =~= Seq::<ProgramIDView>::empty());
        assert(components_view(r.components@) =~= Seq::<ComponentView>::empty());
        proof {
            assert forall|k: ComponentKind| count_of(r@.components, k) <= kind_limit(k) by {}
        }
        r
    }

    /// The ID of the program.
    pub fn id(&self) -> (r: &ProgramID)
        ensures
            r@ == self@.id,
    {
        &self.id
    }

    /// The programs that this program imports, in order.
    pub fn imports(&self) -> (r: &Vec<ProgramID>)
        ensures
            ids_view(r@) == self@.imports,
    {
        &self.imports
    }

    /// The components, in the order they were added.
    pub fn components(&self) -> (r: &Vec<Component>)
        ensures
            components_view(r@) == self@.components,
            self.wf() ==> forall|i: int| 0 <= i < r@.len() ==> (#[trigger] r@[i]).wf(),
    {
        &self.components
    }

    /// Adds an import: refused beyond the most imports, for a program that is already
    /// imported, and for the program itself.
    pub fn add_import(&mut self, import: ProgramID) -> (r: Result<(), ProgramError>)
        requires
            old(self).wf(),
        ensures
            final(self).wf(),
            r == match import_error(old(self)@, import@) {
                Some(e) => Err(e),
                None => Ok(()),
            },
            r is Ok ==> final(self)@ == (ProgramView {
                imports: old(self)@.imports.push(import@),
                ..old(self)@
            }),
            r is Err ==> final(self)@ == old(self)@,
    {
        let l = network_limits();
        if self.imports.len() >= l.max_imports {
            return Err(ProgramError::TooManyImports);
        }
        if self.imports_contain(&import) {
            return Err(ProgramError::DuplicateImport);
        }
        if same_program_id(&self.id, &import) {
            return Err(ProgramError::ImportsItself);
        }
        let ghost before = self@;
        self.imports.push(import);
        proof {
            assert(ids_view(self.imports@) =~= before.imports.push(import@));
            let p = self@;
            assert forall|i: int, j: int| 0 <= i < j < p.imports.len() implies p.imports[i] != p.imports[j] by {
                if j == before.imports.len() {
                    assert(p.imports[i] == before.imports[i]);
                    assert(before.imports.contains(before.imports[i]));
                } else {
                    assert(p.imports[i] == before.imports[i]);
                    assert(p.imports[j] == before.imports[j]);
                }
            }
            assert(!p.imports.contains(p.id)) by {
                if p.imports.contains(p.id) {
                    let j = choose|j: int| 0 <= j < p.imports.len() && p.imports[j] == p.id;
                    if j < before.imports.len() {
                        assert(before.imports[j] == p.id);
                        assert(before.imports.contains(before.id));
                    }
                }
            }
        }
        Ok(())
    }

    fn imports_contain(&self, import: &ProgramID) -> (r: bool)
        ensures
            r == self@.imports.contains(import@),
    {
        let mut i: usize = 0;
        while i < self.imports.len()
            invariant
                i <= self.imports@.len(),
                forall|j: int| 0 <= j < i ==> self.imports@[j]@ != import@,
            decreases self.imports.len() - i,
        {
            if same_program_id(&self.imports[i], import) {
                assert(ids_view(self.imports@)[i as int] == import@);
                return true;
            }
            i = i + 1;
        }
        assert(!self@.imports.contains(import@)) by {
            if self@.imports.contains(import@) {
                let j = choose|j: int| 0 <= j < self@.imports.len() && self@.imports[j] == import@;
                assert(self.imports@[j]@ == import@);
            }
        }
        false
    }

    fn name_used(&self, name: &Identifier) -> (r: bool)
        ensures
            r == name_in_use(self@.components, name@),
    {
        let mut i: usize = 0;
        while i < self.components.len()
            invariant
                i <= self.components@.len(),
                forall|j: int| 0 <= j < i ==> name_of(#[trigger] self@.components[j]) != Some(name@),
            decreases self.components.len() - i,
        {
            let n: Option<&Identifier> = match &self.components[i] {
                Component::Constructor(_) => None,
                Component::Mapping(m) => Some(&m.name),
                Component::Struct(d) => Some(&d.name),
                Component::Record(d) => Some(&d.name),
                Component::Closure(c) => Some(&c.name),
                Component::Function(f) => Some(f.name()),
                Component::View(v) => Some(v.name()),
            };
            assert(self@.components[i as int] == self.components@[i as int]@);
            if let Some(n) = n {
                if same_text(n.name.as_str(), name.name.as_str()) {
                    assert(name_of(self@.components[i as int]) == Some(name@));
                    return true;
                }
            }
            i = i + 1;
        }
        false
    }

    fn count_kind(&self, kind: ComponentKind) -> (r: usize)
        ensures
            r == count_of(self@.components, kind),
    {
        let mut n: usize = 0;
        let mut i: usize = 0;
        while i < self.components.len()
            invariant
                i <= self.components@.len(),
                n == count_of(self@.components.take(i as int), kind),
                n <= i,
            decreases self.components.len() - i,
        {
            let k = match &self.components[i] {
                Component::Constructor(_) => ComponentKind::Constructor,
                Component::Mapping(_) => ComponentKind::Mapping,
                Component::Struct(_) => ComponentKind::Struct,
                Component::Record(_) => ComponentKind::Record,
                Component::Closure(_) => ComponentKind::Closure,
                Component::Function(_) => ComponentKind::Function,
                Component::View(_) => ComponentKind::View,
            };
            proof {
                assert(self@.components.take(i + 1).drop_last() =~= self@.components.take(i as int));
                assert(self@.components[i as int] == self.components@[i as int]@);
            }
            if k == kind {
                n = n + 1;
            }
            i = i + 1;
        }
        assert(self@.components.take(self@.components.len() as int) =~= self@.components);
        n
    }

    /// Adds a component: refused if its name is already the name of another component, and
    /// beyond the most components of its kind (one constructor at most).
    pub fn add_component(&mut self, c: Component) -> (r: Result<(), ProgramError>)
        requires
            old(self).wf(),
            c.wf(),
        ensures
            final(self).wf(),
            r == match component_error(old(self)@, c@) {
                Some(e) => Err(e),
                None => Ok(()),
            },
            r is Ok ==> final(self)@ == (ProgramView {
                components: old(self)@.components.push(c@),
                ..old(self)@
            }),
            r is Err ==> final(self)@ == old(self)@,
    {
        let l = network_limits();
        let (name, kind, limit): (Option<&Identifier>, ComponentKind, usize) = match &c {
            Component::Constructor(_) => (None, ComponentKind::Constructor, 1),
            Component::Mapping(m) => (Some(&m.name), ComponentKind::Mapping, l.max_mappings),
            Component::Struct(d) => (Some(&d.name), ComponentKind::Struct, l.max_structs),
            Component::Record(d) => (Some(&d.name), ComponentKind::Record, l.max_records),
            Component::Closure(x) => (Some(&x.name), ComponentKind::Closure, l.max_closures),
            Component::Function(f) => (Some(f.name()), ComponentKind::Function, l.max_functions),
            Component::View(v) => (Some(v.name()), ComponentKind::View, l.max_views),
        };
        if let Some(n) = name {
            if self.name_used(n) {
                return Err(ProgramError::NameInUse);
            }
        }
        if self.count_kind(kind) >= limit {
            return Err(ProgramError::TooManyComponents(kind));
        }
        let ghost before = self@;
        let ghost cv = c@;
        self.components.push(c);
        proof {
            assert(components_view(self.components@) =~= before.components.push(cv));
            let p = self@;
            assert forall|k: ComponentKind| count_of(p.components, k) <= kind_limit(k) by {
                lemma_count_push(before.components, cv, k);
            }
            assert forall|i: int, j: int|
                0 <= i < j < p.components.len() && name_of(p.components[i]) is Some implies name_of(
                    #[trigger] p.components[i],
                ) != name_of(#[trigger] p.components[j]) by {
                assert(p.components[i] == before.components[i]);
                if j < before.components.len() {
                    assert(p.components[j] == before.components[j]);
                } else {
                    if name_of(p.components[i]) == name_of(cv) {
                        assert(name_in_use(before.components, name_of(cv)->0));
                    }
                }
            }
            assert forall|i: int| 0 <= i < self.components@.len() implies (
            #[trigger] self.components@[i]).wf() by {
                if i < before.components.len() {
                    assert(self.components@[i] == old(self).components@[i]);
                }
            }
        }
        Ok(())
    }
}

impl ProgramCore {
    /// Every program that the rules built is valid: its imports are distinct and not itself,
    /// the names of its components are distinct, and it has at most the network's number of
    /// components of each kind.
    pub proof fn lemma_valid(&self)
        requires
            self.wf(),
        ensures
            program_valid(self@),
    {
    }
}

} // verus!
