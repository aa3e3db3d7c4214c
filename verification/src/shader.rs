//! Shader programs: what the compiler and the linker of the host said of the two stages, and
//! the names by which a linked program lets its uniforms and attributes be found.

use vstd::prelude::*;
use crate::command::{Command, Stage, UniformValue};

verus! {

/// A stage did not compile. The error says which, and carries what the compiler said.
#[derive(Debug, PartialEq, Eq)]
pub enum CompileError {
    Vertex(String),
    Fragment(String),
}

impl CompileError {
    /// The stage that did not compile.
    pub fn stage(&self) -> (stage: Stage)
        ensures
            stage == match *self {
                CompileError::Vertex(_) => Stage::Vertex,
                CompileError::Fragment(_) => Stage::Fragment,
            },
    {
        match self {
            CompileError::Vertex(_) => Stage::Vertex,
            CompileError::Fragment(_) => Stage::Fragment,
        }
    }

    /// What the compiler said of the stage.
    pub fn diagnostics(&self) -> (text: &String)
        ensures
            *text == match *self {
                CompileError::Vertex(log) => log,
                CompileError::Fragment(log) => log,
            },
    {
        match self {
            CompileError::Vertex(log) => log,
            CompileError::Fragment(log) => log,
        }
    }
}

/// The program did not link. The error carries what the linker said.
#[derive(Debug, PartialEq, Eq)]
pub struct LinkError {
    pub log: String,
}

/// What the host found after it linked a program.
#[derive(Debug, PartialEq, Eq)]
pub struct LinkReport {
    /// Whether the program is marked as linked.
    pub linked: bool,
    /// What the linker said.
    pub log: String,
    /// The names of the program's active uniforms, each at the index of its slot.
    pub uniforms: Vec<String>,
    /// The names of the program's active attributes, each at the index of its slot.
    pub attributes: Vec<String>,
}

/// The place of a uniform in the program that resolved it. It means nothing to any other
/// program, nor to the same program once it has been linked anew.
#[derive(Clone, Copy, Debug, PartialEq, Eq, Structural)]
pub struct UniformHandle {
    pub program: u64,
    pub slot: usize,
}

/// The place of an attribute in the program that resolved it.
#[derive(Clone, Copy, Debug, PartialEq, Eq, Structural)]
pub struct AttributeHandle {
    pub program: u64,
    pub slot: usize,
}

/// The error with which the compilation of two stages fails, given what the compiler said of
/// each: that of the vertex stage if it said anything of it, else that of the fragment stage
/// if it said anything of that, else none.
pub open spec fn compile_failure(vertex_log: String, fragment_log: String) -> Option<
    CompileError,
> {
    if vertex_log@.len() > 0 {
        Some(CompileError::Vertex(vertex_log))
    } else if fragment_log@.len() > 0 {
        Some(CompileError::Fragment(fragment_log))
    } else {
        None
    }
}

/// The texts of a list of strings.
pub open spec fn names_of(strings: Seq<String>) -> Seq<Seq<char>> {
    Seq::new(strings.len(), |i: int| strings[i]@)
}

/// The first index at which `name` stands in `names`, if it stands there at all.
pub open spec fn slot_of(names: Seq<Seq<char>>, name: Seq<char>) -> Option<int>
    decreases names.len(),
{
    if names.len() == 0 {
        None
    } else {
        match slot_of(names.drop_last(), name) {
            Some(slot) => Some(slot),
            None => if names.last() == name {
                Some(names.len() - 1)
            } else {
                None
            },
        }
    }
}

/// `slot_of` finds a name exactly when it occurs, and then at its first occurrence.
pub proof fn lemma_slot_of_is_first(names: Seq<Seq<char>>, name: Seq<char>)
    ensures
        match slot_of(names, name) {
            Some(slot) => {
                &&& 0 <= slot < names.len()
                &&& names[slot] == name
                &&& forall|earlier: int| 0 <= earlier < slot ==> names[earlier] != name
            },
            None => forall|any: int| 0 <= any < names.len() ==> names[any] != name,
        },
    decreases names.len(),
{
    if names.len() > 0 {
        let front = names.drop_last();
        lemma_slot_of_is_first(front, name);
        assert forall|i: int| 0 <= i < front.len() implies front[i] == names[i] by {}
    }
}

/// The mathematical content of a linked program.
pub struct ProgramView {
    /// The number that tells this program from every other of its session.
    pub id: u64,
    /// The names of the active uniforms, by slot.
    pub uniforms: Seq<Seq<char>>,
    /// The names of the active attributes, by slot.
    pub attributes: Seq<Seq<char>>,
}

impl ProgramView {
    /// The handle of the uniform called `name`, if the program has one.
    pub open spec fn uniform(self, name: Seq<char>) -> Option<UniformHandle> {
        match slot_of(self.uniforms, name) {
            Some(slot) => Some(UniformHandle { program: self.id, slot: slot as usize }),
            None => None,
        }
    }

    /// The handle of the attribute called `name`, if the program has one.
    pub open spec fn attribute(self, name: Seq<char>) -> Option<AttributeHandle> {
        match slot_of(self.attributes, name) {
            Some(slot) => Some(AttributeHandle { program: self.id, slot: slot as usize }),
            None => None,
        }
    }

    /// Whether `handle` was resolved by this program.
    pub open spec fn owns(self, handle: UniformHandle) -> bool {
        handle.program == self.id && handle.slot < self.uniforms.len()
    }

    /// The command that sets the uniform behind `handle`: none where there is no handle, or
    /// where the handle is not of this program.
    pub open spec fn set_uniform(
        self,
        handle: Option<UniformHandle>,
        value: UniformValue,
    ) -> Option<Command> {
        match handle {
            Some(h) => if self.owns(h) {
                Some(Command::SetUniform { program: self.id, slot: h.slot, value })
            } else {
                None
            },
            None => None,
        }
    }
}

/// A linked shader program.
#[derive(Debug)]
pub struct ShaderProgram {
    id: u64,
    uniforms: Vec<String>,
    attributes: Vec<String>,
}

impl View for ShaderProgram {
    type V = ProgramView;

    closed spec fn view(&self) -> ProgramView {
        ProgramView {
            id: self.id,
            uniforms: names_of(self.uniforms@),
            attributes: names_of(self.attributes@),
        }
    }
}

/// The first index at which `name` stands in `names`.
fn find_slot(names: &Vec<String>, name: &str) -> (found: Option<usize>)
    ensures
        match found {
            Some(slot) => slot_of(names_of(names@), name@) == Some(slot as int),
            None => slot_of(names_of(names@), name@).is_none(),
        },
{
    let wanted = name.to_owned();
    let mut i: usize = 0;
    while i < names.len()
        invariant
            i <= names.len(),
            wanted@ == name@,
            slot_of(names_of(names@).take(i as int), name@).is_none(),
        decreases names.len() - i,
    {
        let ghost all = names_of(names@);
        assert(all.take(i + 1).drop_last() == all.take(i as int));
        if names[i] == wanted {
            proof {
                lemma_slot_found_stays(all, name@, i as int + 1);
            }
            return Some(i);
        }
        i = i + 1;
    }
    assert(names_of(names@).take(i as int) == names_of(names@));
    None
}

/// A name found among the first `upto` names is found at the same place among all of them.
proof fn lemma_slot_found_stays(names: Seq<Seq<char>>, name: Seq<char>, upto: int)
    requires
        0 <= upto <= names.len(),
        slot_of(names.take(upto), name).is_some(),
    ensures
        slot_of(names, name) == slot_of(names.take(upto), name),
    decreases names.len() - upto,
{
    if upto < names.len() {
        assert(names.take(upto + 1).drop_last() == names.take(upto));
        lemma_slot_found_stays(names, name, upto + 1);
    } else {
        assert(names.take(upto) == names);
    }
}

impl ShaderProgram {
    /// Judges the compilation of the two stages by what the compiler said of each: a stage
    /// has failed exactly when its diagnostics are not empty. The vertex stage is looked at
    /// first.
    pub fn compile(vertex_log: String, fragment_log: String) -> (result: Result<
        (),
        CompileError,
    >)
        ensures
            match result {
                Ok(_) => compile_failure(vertex_log, fragment_log) is None,
                Err(error) => compile_failure(vertex_log, fragment_log) == Some(error),
            },
    {
        if !vertex_log.as_str().is_empty() {
            Err(CompileError::Vertex(vertex_log))
        } else if !fragment_log.as_str().is_empty() {
            Err(CompileError::Fragment(fragment_log))
        } else {
            Ok(())
        }
    }

    /// Judges the linking of the program numbered `id` by the host's report: the program
    /// stands exactly when the report marks it as linked, and then has the uniforms and
    /// attributes that the report names.
    pub fn link(id: u64, report: LinkReport) -> (result: Result<
        ShaderProgram,
        LinkError,
    >)
        ensures
            report.linked ==> result is Ok && result->Ok_0@ == (ProgramView {
                id,
                uniforms: names_of(report.uniforms@),
                attributes: names_of(report.attributes@),
            }),
            !report.linked ==> result == Err::<ShaderProgram, LinkError>(
                LinkError { log: report.log },
            ),
    {
        if report.linked {
            Ok(
                ShaderProgram {
                    id,
                    uniforms: report.uniforms,
                    attributes: report.attributes,
                },
            )
        } else {
            Err(LinkError { log: report.log })
        }
    }

    /// The number that tells this program from every other of its session.
    pub fn id(&self) -> (id: u64)
        ensures
            id == self@.id,
    {
        self.id
    }

    /// Looks up the uniform called `name`. A program that has no such uniform answers `None`.
    pub fn resolve_uniform(&self, name: &str) -> (handle: Option<UniformHandle>)
        ensures
            handle == self@.uniform(name@),
            handle is None <==> !self@.uniforms.contains(name@),
            handle matches Some(h) ==> self@.owns(h) && self@.uniforms[h.slot as int] == name@,
    {
        proof {
            lemma_slot_of_is_first(self@.uniforms, name@);
        }
        match find_slot(&self.uniforms, name) {
            Some(slot) => Some(UniformHandle { program: self.id, slot }),
            None => None,
        }
    }

    /// Looks up the attribute called `name`. A program that has no such attribute answers
    /// `None`.
    pub fn resolve_attribute(&self, name: &str) -> (handle: Option<AttributeHandle>)
        ensures
            handle == self@.attribute(name@),
            handle is None <==> !self@.attributes.contains(name@),
            handle matches Some(h) ==> h.program == self@.id && h.slot < self@.attributes.len()
                && self@.attributes[h.slot as int] == name@,
    {
        proof {
            lemma_slot_of_is_first(self@.attributes, name@);
        }
        match find_slot(&self.attributes, name) {
            Some(slot) => Some(AttributeHandle { program: self.id, slot }),
            None => None,
        }
    }

    /// The command that makes this program the current one of the graphics context.
    pub fn activate(&self) -> (command: Command)
        ensures
            command == (Command::UseProgram { program: self@.id }),
    {
        Command::UseProgram { program: self.id }
    }

    /// The command that sets a uniform of this program, if there is anything to set: a
    /// missing handle, or one that another program resolved, sets nothing.
    pub fn set_uniform(&self, handle: Option<UniformHandle>, value: UniformValue) -> (command:
        Option<Command>)
        ensures
            command == self@.set_uniform(handle, value),
    {
        match handle {
            Some(h) => {
                if h.program == self.id && h.slot < self.uniforms.len() {
                    Some(Command::SetUniform { program: self.id, slot: h.slot, value })
                } else {
                    None
                }
            },
            None => None,
        }
    }
}

/// A name that a program does not have resolves to nothing, and setting through what it
/// resolved to sets nothing, whatever the value.
pub proof fn lemma_absent_uniform_sets_nothing(
    program: ProgramView,
    name: Seq<char>,
    value: UniformValue,
)
    requires
        !program.uniforms.contains(name),
    ensures
        program.uniform(name) is None,
        program.set_uniform(program.uniform(name), value) is None,
{
    lemma_slot_of_is_first(program.uniforms, name);
}

/// A handle that one program resolved sets nothing in a program of another number.
pub proof fn lemma_foreign_handle_sets_nothing(
    resolver: ProgramView,
    other: ProgramView,
    name: Seq<char>,
    value: UniformValue,
)
    requires
        resolver.id != other.id,
    ensures
        other.set_uniform(resolver.uniform(name), value) is None,
{
}

} // verus!
