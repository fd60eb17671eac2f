//! Shader stages, linked programs with their cache of uniform locations, and
//! compute programs.

use vstd::prelude::*;
use crate::device::{settled, inert, lemma_run_inert, lemma_run_pair, lemma_run_triple, Bindings, Command};
use crate::kinds::ShaderType;

verus! {

/// The device's answer to a compile: the shader it created, the compile
/// status (0 for failure) and the compiler's log.
#[derive(Debug, PartialEq, Eq)]
pub struct CompileReply {
    pub shader: u32,
    pub status: i32,
    pub log: String,
}

/// The device's answer to a link: the program, the link status (0 for
/// failure) and the linker's log.
#[derive(Debug, PartialEq, Eq)]
pub struct LinkReply {
    pub program: u32,
    pub status: i32,
    pub log: String,
}

/// What a compile comes to: the shader's name, or the compiler's log as the
/// device gave it.
pub open spec fn compile_outcome(reply: CompileReply) -> Result<u32, String> {
    if reply.status == 0 {
        Err(reply.log)
    } else {
        Ok(reply.shader)
    }
}

/// Reads the device's answer to a compile.
pub fn shader_from_source(reply: CompileReply) -> (r: Result<u32, String>)
    ensures
        r == compile_outcome(reply),
{
    if reply.status == 0 {
        Err(reply.log)
    } else {
        Ok(reply.shader)
    }
}

/// What the host knows of a compiled shader.
pub struct ShaderView {
    pub id: u32,
    pub kind: ShaderType,
    pub released: bool,
}

/// One compiled shader stage.
#[derive(Debug)]
pub struct Shader {
    id: u32,
    kind: ShaderType,
    released: bool,
}

impl Shader {
    pub closed spec fn view(self) -> ShaderView {
        ShaderView { id: self.id, kind: self.kind, released: self.released }
    }

    /// The command that compiles `source`, unchanged, for the stage `kind`.
    pub fn compile_command(source: &str, kind: ShaderType) -> (c: Command)
        ensures
            c matches Command::CompileShader { kind: k, source: s } && k == kind && s@ == source@,
    {
        Command::CompileShader { kind, source: source.to_owned() }
    }

    /// The shader of stage `kind` that the device compiled, or the compiler's
    /// log where it did not.
    pub fn from_source(kind: ShaderType, reply: CompileReply) -> (r: Result<Shader, String>)
        ensures
            match compile_outcome(reply) {
                Ok(id) => r matches Ok(s) && s@ == (ShaderView { id, kind, released: false }),
                Err(log) => r matches Err(e) && e == log,
            },
    {
        match shader_from_source(reply) {
            Ok(id) => Ok(Shader { id, kind, released: false }),
            Err(log) => Err(log),
        }
    }

    /// As `from_source`, for a vertex stage.
    pub fn from_vertex_source(reply: CompileReply) -> (r: Result<Shader, String>)
        ensures
            match compile_outcome(reply) {
                Ok(id) => r matches Ok(s) && s@ == (ShaderView {
                    id,
                    kind: ShaderType::Vertex,
                    released: false,
                }),
                Err(log) => r matches Err(e) && e == log,
            },
    {
        Self::from_source(ShaderType::Vertex, reply)
    }

    /// As `from_source`, for a fragment stage.
    pub fn from_frag_source(reply: CompileReply) -> (r: Result<Shader, String>)
        ensures
            match compile_outcome(reply) {
                Ok(id) => r matches Ok(s) && s@ == (ShaderView {
                    id,
                    kind: ShaderType::Fragment,
                    released: false,
                }),
                Err(log) => r matches Err(e) && e == log,
            },
    {
        Self::from_source(ShaderType::Fragment, reply)
    }

    /// The device's name for the shader.
    pub fn id(&self) -> (r: u32)
        ensures
            r == self@.id,
    {
        self.id
    }

    /// The stage the shader was compiled for.
    pub fn kind(&self) -> (r: ShaderType)
        ensures
            r == self@.kind,
    {
        self.kind
    }

    /// Gives the device handle up. The first call returns the command that
    /// deletes the shader; every later call returns none.
    pub fn release(&mut self) -> (c: Option<Command>)
        ensures
            final(self)@ == (ShaderView { released: true, ..old(self)@ }),
            c == if old(self)@.released {
                None
            } else {
                Some(Command::DeleteShader { id: old(self)@.id })
            },
    {
        if self.released {
            None
        } else {
            self.released = true;
            Some(Command::DeleteShader { id: self.id })
        }
    }
}

/// The names of `shaders`, in order.
pub open spec fn shader_ids(shaders: Seq<Shader>) -> Seq<u32> {
    Seq::new(shaders.len(), |i: int| shaders[i]@.id)
}

/// The commands of a link: attach each shader in order, link, then detach
/// each in the same order.
pub open spec fn link_sequence(program: u32, shaders: Seq<u32>) -> Seq<Command> {
    Seq::new(
        2 * shaders.len() + 1,
        |i: int|
            if i < shaders.len() {
                Command::AttachShader { program, shader: shaders[i] }
            } else if i == shaders.len() {
                Command::LinkProgram { program }
            } else {
                Command::DetachShader { program, shader: shaders[i - shaders.len() - 1] }
            },
    )
}

/// What a link comes to: the program's name, or the linker's log as the
/// device gave it.
pub open spec fn link_outcome(reply: LinkReply) -> Result<u32, String> {
    if reply.status == 0 {
        Err(reply.log)
    } else {
        Ok(reply.program)
    }
}

/// The cached location of `name`, if it was recorded.
pub open spec fn lookup(cache: Map<Seq<char>, i32>, name: Seq<char>) -> Option<i32> {
    if cache.contains_key(name) {
        Some(cache[name])
    } else {
        None
    }
}

/// The cache after the device's answer `location` for `name` was recorded:
/// a name that the cache holds keeps its location.
pub open spec fn recorded(cache: Map<Seq<char>, i32>, name: Seq<char>, location: i32) -> Map<
    Seq<char>,
    i32,
> {
    if cache.contains_key(name) {
        cache
    } else {
        cache.insert(name, location)
    }
}

/// Once a location was recorded for a name, whether it was found or not,
/// every later lookup of that name gives that same location and asks for no
/// query, whatever is recorded afterwards.
pub proof fn lemma_location_is_stable(
    cache: Map<Seq<char>, i32>,
    name: Seq<char>,
    location: i32,
    later: Seq<char>,
    later_location: i32,
)
    ensures
        lookup(cache, name) is None ==> lookup(recorded(cache, name, location), name) == Some(
            location,
        ),
        lookup(cache, name) is Some ==> lookup(recorded(cache, name, location), name) == lookup(
            cache,
            name,
        ),
        lookup(recorded(recorded(cache, name, location), later, later_location), name) == lookup(
            recorded(cache, name, location),
            name,
        ),
{
}

/// What the host knows of a linked program.
pub struct ProgramView {
    pub id: u32,
    /// The uniform locations recorded so far, by name.
    pub cache: Map<Seq<char>, i32>,
    pub released: bool,
}

/// One recorded uniform location.
#[derive(Debug)]
struct Uniform {
    name: String,
    location: i32,
}

/// One linked program.
#[derive(Debug)]
pub struct Program {
    id: u32,
    uniform_cache: Vec<Uniform>,
    released: bool,
}

/// Whether `name` stands at `i` in `entries`.
spec fn holds_at(entries: Seq<Uniform>, i: int, name: Seq<char>) -> bool {
    0 <= i < entries.len() && entries[i].name@ == name
}

/// The entries as a map from name to location.
spec fn as_map(entries: Seq<Uniform>) -> Map<Seq<char>, i32> {
    Map::new(
        |name: Seq<char>| exists|i: int| holds_at(entries, i, name),
        |name: Seq<char>| entries[choose|i: int| holds_at(entries, i, name)].location,
    )
}

/// No name stands twice in `entries`.
spec fn distinct(entries: Seq<Uniform>) -> bool {
    forall|i: int, j: int|
        0 <= i < entries.len() && 0 <= j < entries.len() && entries[i].name@ == entries[j].name@
            ==> i == j
}

proof fn lemma_entry_in_map(entries: Seq<Uniform>, i: int)
    requires
        distinct(entries),
        0 <= i < entries.len(),
    ensures
        as_map(entries).contains_key(entries[i].name@),
        as_map(entries)[entries[i].name@] == entries[i].location,
{
    let name = entries[i].name@;
    assert(holds_at(entries, i, name));
    let j = choose|j: int| holds_at(entries, j, name);
    assert(holds_at(entries, j, name));
    assert(i == j);
}

proof fn lemma_push_is_insert(entries: Seq<Uniform>, entry: Uniform)
    requires
        distinct(entries),
        !as_map(entries).contains_key(entry.name@),
    ensures
        distinct(entries.push(entry)),
        as_map(entries.push(entry)) == as_map(entries).insert(entry.name@, entry.location),
{
    let after = entries.push(entry);
    assert forall|i: int| 0 <= i < entries.len() implies entries[i].name@ != entry.name@ by {
        if entries[i].name@ == entry.name@ {
            assert(holds_at(entries, i, entry.name@));
        }
    }
    assert(distinct(after));
    let left = as_map(after);
    let right = as_map(entries).insert(entry.name@, entry.location);
    assert forall|name: Seq<char>| left.contains_key(name) <==> right.contains_key(name) by {
        if left.contains_key(name) {
            let i = choose|i: int| holds_at(after, i, name);
            if i < entries.len() {
                assert(holds_at(entries, i, name));
            }
        }
        if right.contains_key(name) {
            if name == entry.name@ {
                assert(holds_at(after, entries.len() as int, name));
            } else {
                let i = choose|i: int| holds_at(entries, i, name);
                assert(holds_at(after, i, name));
            }
        }
    }
    assert forall|name: Seq<char>| left.contains_key(name) implies left[name] == right[name] by {
        let i = choose|i: int| holds_at(after, i, name);
        lemma_entry_in_map(after, i);
        if i < entries.len() {
            lemma_entry_in_map(entries, i);
        }
    }
    assert(left =~= right);
}

impl Program {
    #[verifier::type_invariant]
    spec fn inv(self) -> bool {
        distinct(self.uniform_cache@)
    }

    pub closed spec fn view(self) -> ProgramView {
        ProgramView { id: self.id, cache: as_map(self.uniform_cache@), released: self.released }
    }

    /// The commands that link `shaders` into the program `id`. The shaders
    /// are detached again whatever the link comes to.
    pub fn link_commands(id: u32, shaders: &[Shader]) -> (commands: Vec<Command>)
        ensures
            commands@ == link_sequence(id, shader_ids(shaders@)),
    {
        let ghost ids = shader_ids(shaders@);
        let ghost goal = link_sequence(id, ids);
        let mut commands: Vec<Command> = Vec::new();
        let n: usize = shaders.len();
        let mut i: usize = 0;
        while i < n
            invariant
                n == shaders@.len(),
                ids == shader_ids(shaders@),
                goal == link_sequence(id, ids),
                i <= n,
                commands@.len() == i,
                forall|k: int| 0 <= k < i ==> commands@[k] == goal[k],
            decreases n - i,
        {
            commands.push(Command::AttachShader { program: id, shader: shaders[i].id() });
            i += 1;
        }
        commands.push(Command::LinkProgram { program: id });
        let mut j: usize = 0;
        while j < n
            invariant
                n == shaders@.len(),
                ids == shader_ids(shaders@),
                goal == link_sequence(id, ids),
                j <= n,
                commands@.len() == n + 1 + j,
                forall|k: int| 0 <= k < n + 1 + j ==> commands@[k] == goal[k],
            decreases n - j,
        {
            commands.push(Command::DetachShader { program: id, shader: shaders[j].id() });
            j += 1;
        }
        assert(commands@ =~= goal);
        commands
    }

    /// The program that the device linked, with an empty cache, or the
    /// linker's log where it did not.
    pub fn from_shaders(reply: LinkReply) -> (r: Result<Program, String>)
        ensures
            match link_outcome(reply) {
                Ok(id) => r matches Ok(p) && p@ == (ProgramView {
                    id,
                    cache: Map::empty(),
                    released: false,
                }),
                Err(log) => r matches Err(e) && e == log,
            },
    {
        if reply.status == 0 {
            Err(reply.log)
        } else {
            let program = Program { id: reply.program, uniform_cache: Vec::new(), released: false };
            assert(program@.cache =~= Map::empty());
            Ok(program)
        }
    }

    /// Makes this the active program, whatever was active before.
    pub fn set_used(&self) -> (c: Command)
        ensures
            c == (Command::UseProgram { id: self@.id }),
    {
        Command::UseProgram { id: self.id }
    }

    /// Where `key` stands in the cache.
    fn find(&self, key: &String) -> (r: Option<usize>)
        ensures
            match r {
                Some(i) => holds_at(self.uniform_cache@, i as int, key@),
                None => !as_map(self.uniform_cache@).contains_key(key@),
            },
    {
        let mut i: usize = 0;
        while i < self.uniform_cache.len()
            invariant
                i <= self.uniform_cache@.len(),
                forall|k: int| 0 <= k < i ==> !holds_at(self.uniform_cache@, k, key@),
            decreases self.uniform_cache@.len() - i,
        {
            if self.uniform_cache[i].name.eq(key) {
                return Some(i);
            }
            i += 1;
        }
        None
    }

    /// The location recorded for `name`. `None` says that the device has to
    /// be asked, and its answer recorded with `record_uniform_location`.
    pub fn get_uniform_location(&self, name: &str) -> (r: Option<i32>)
        ensures
            r == lookup(self@.cache, name@),
    {
        let key = name.to_owned();
        match self.find(&key) {
            Some(i) => {
                proof {
                    use_type_invariant(self);
                    lemma_entry_in_map(self.uniform_cache@, i as int);
                }
                Some(self.uniform_cache[i].location)
            },
            None => None,
        }
    }

    /// Records the device's answer `location` for `name`, found or not, and
    /// returns the location that the cache now holds for it. A name that
    /// was recorded before keeps its location.
    pub fn record_uniform_location(&mut self, name: &str, location: i32) -> (r: i32)
        ensures
            final(self)@ == (ProgramView {
                cache: recorded(old(self)@.cache, name@, location),
                ..old(self)@
            }),
            Some(r) == lookup(final(self)@.cache, name@),
    {
        proof {
            use_type_invariant(&*self);
        }
        let key = name.to_owned();
        match self.find(&key) {
            Some(i) => {
                proof {
                    lemma_entry_in_map(self.uniform_cache@, i as int);
                }
                self.uniform_cache[i].location
            },
            None => {
                let entry = Uniform { name: key, location };
                proof {
                    lemma_push_is_insert(self.uniform_cache@, entry);
                }
                let mut taken = Program {
                    id: self.id,
                    uniform_cache: Vec::new(),
                    released: self.released,
                };
                core::mem::swap(self, &mut taken);
                let Program { id, uniform_cache, released } = taken;
                let mut entries = uniform_cache;
                entries.push(entry);
                *self = Program { id, uniform_cache: entries, released };
                location
            },
        }
    }

    /// Activates this program and writes `val` to the integer uniform
    /// `name`; `None` where the location of `name` is not recorded yet.
    pub fn set_int(&self, name: &str, val: i32) -> (r: Option<Vec<Command>>)
        ensures
            uniform_write(self@, name@, r, |location: i32| Command::Uniform1i { location, value: val }),
    {
        match self.get_uniform_location(name) {
            Some(location) => Some(self.write(Command::Uniform1i { location, value: val })),
            None => None,
        }
    }

    /// As `set_int`, for a float given by its bit pattern.
    pub fn set_float(&self, name: &str, val: u32) -> (r: Option<Vec<Command>>)
        ensures
            uniform_write(self@, name@, r, |location: i32| Command::Uniform1f { location, bits: val }),
    {
        match self.get_uniform_location(name) {
            Some(location) => Some(self.write(Command::Uniform1f { location, bits: val })),
            None => None,
        }
    }

    /// As `set_int`, for two floats given by their bit patterns.
    pub fn set_vec2(&self, name: &str, val: (u32, u32)) -> (r: Option<Vec<Command>>)
        ensures
            uniform_write(
                self@,
                name@,
                r,
                |location: i32| Command::Uniform2f { location, x_bits: val.0, y_bits: val.1 },
            ),
    {
        match self.get_uniform_location(name) {
            Some(location) => Some(
                self.write(Command::Uniform2f { location, x_bits: val.0, y_bits: val.1 }),
            ),
            None => None,
        }
    }

    /// As `set_int`, for three floats given by their bit patterns.
    pub fn set_vec3(&self, name: &str, val: (u32, u32, u32)) -> (r: Option<Vec<Command>>)
        ensures
            uniform_write(
                self@,
                name@,
                r,
                |location: i32|
                    Command::Uniform3f { location, x_bits: val.0, y_bits: val.1, z_bits: val.2 },
            ),
    {
        match self.get_uniform_location(name) {
            Some(location) => Some(
                self.write(
                    Command::Uniform3f { location, x_bits: val.0, y_bits: val.1, z_bits: val.2 },
                ),
            ),
            None => None,
        }
    }

    /// Activates this program, then runs `write`.
    fn write(&self, write: Command) -> (commands: Vec<Command>)
        ensures
            commands@ == seq![Command::UseProgram { id: self@.id }, write],
    {
        let mut commands: Vec<Command> = Vec::new();
        commands.push(self.set_used());
        commands.push(write);
        assert(commands@ =~= seq![Command::UseProgram { id: self@.id }, write]);
        commands
    }

    /// The device's name for the program.
    pub fn id(&self) -> (r: u32)
        ensures
            r == self@.id,
    {
        self.id
    }

    /// Gives the device handle up. The first call returns the command that
    /// deletes the program; every later call returns none. No shader is
    /// deleted with it.
    pub fn release(&mut self) -> (c: Option<Command>)
        ensures
            final(self)@ == (ProgramView { released: true, ..old(self)@ }),
            c == if old(self)@.released {
                None
            } else {
                Some(Command::DeleteProgram { id: old(self)@.id })
            },
    {
        proof {
            use_type_invariant(&*self);
        }
        if self.released {
            None
        } else {
            self.released = true;
            Some(Command::DeleteProgram { id: self.id })
        }
    }
}

/// What a uniform setter returns: where the location of `name` is recorded,
/// the activation of the program followed by the write to that location;
/// else nothing.
pub open spec fn uniform_write(
    program: ProgramView,
    name: Seq<char>,
    r: Option<Vec<Command>>,
    write: spec_fn(i32) -> Command,
) -> bool {
    match lookup(program.cache, name) {
        Some(location) => r matches Some(commands) && commands@ == seq![
            Command::UseProgram { id: program.id },
            write(location),
        ],
        None => r is None,
    }
}

/// The three commands of a compute pass: activate, dispatch, then a barrier
/// on all memory, so that what the pass wrote is visible to whatever runs next.
pub open spec fn dispatch_sequence(program: u32, x: u32, y: u32, z: u32) -> Seq<Command> {
    seq![
        Command::UseProgram { id: program },
        Command::DispatchCompute { x, y, z },
        Command::MemoryBarrierAll,
    ]
}

/// A compute pass ends settled: its dispatch is followed by the barrier.
pub proof fn lemma_dispatch_is_settled(program: u32, x: u32, y: u32, z: u32)
    ensures
        settled(dispatch_sequence(program, x, y, z)),
        dispatch_sequence(program, x, y, z).last() is MemoryBarrierAll,
{
    let cs = dispatch_sequence(program, x, y, z);
    assert forall|i: int| 0 <= i < cs.len() && #[trigger] cs[i] is DispatchCompute implies exists|
        j: int,
    |
        i < j < cs.len() && #[trigger] cs[j] is MemoryBarrierAll by {
        assert(cs[2] is MemoryBarrierAll);
    }
}

/// A compute pass leaves its program active and every other binding as it
/// was; a link binds nothing.
pub proof fn lemma_program_bindings(
    b: Bindings,
    program: u32,
    x: u32,
    y: u32,
    z: u32,
    shaders: Seq<u32>,
)
    ensures
        b.run(dispatch_sequence(program, x, y, z)) == (Bindings { program, ..b }),
        b.run(link_sequence(program, shaders)) == b,
{
    lemma_run_triple(
        b,
        Command::UseProgram { id: program },
        Command::DispatchCompute { x, y, z },
        Command::MemoryBarrierAll,
    );
    let link = link_sequence(program, shaders);
    assert forall|i: int| 0 <= i < link.len() implies inert(#[trigger] link[i]) by {}
    lemma_run_inert(b, link);
}

/// A uniform setter that writes leaves its own program active, so the
/// write lands on it, whatever was active before.
pub proof fn lemma_setter_activates(
    b: Bindings,
    program: ProgramView,
    name: Seq<char>,
    r: Option<Vec<Command>>,
    write: spec_fn(i32) -> Command,
)
    requires
        uniform_write(program, name, r, write),
        r is Some,
        forall|location: i32| inert(#[trigger] write(location)),
    ensures
        b.run(r->0@.drop_last()).program == program.id,
        b.run(r->0@) == (Bindings { program: program.id, ..b }),
{
    let location = lookup(program.cache, name)->0;
    let activate = Command::UseProgram { id: program.id };
    lemma_run_pair(b, activate, write(location));
    assert(r->0@.drop_last() =~= Seq::<Command>::empty().push(activate));
    crate::device::lemma_run_push(b, Seq::<Command>::empty(), activate);
}

/// A program of a single compute stage.
#[derive(Debug)]
pub struct ComputeProgram {
    program: Program,
}

impl ComputeProgram {
    /// The program under this compute program.
    pub closed spec fn program(self) -> Program {
        self.program
    }

    /// The compute program that the device linked from the compute stage
    /// `shader`, or the linker's log where it did not.
    pub fn from_source(shader: &Shader, reply: LinkReply) -> (r: Result<Self, String>)
        requires
            shader@.kind == ShaderType::Compute,
        ensures
            match link_outcome(reply) {
                Ok(id) => r matches Ok(c) && c.program()@ == (ProgramView {
                    id,
                    cache: Map::empty(),
                    released: false,
                }),
                Err(log) => r matches Err(e) && e == log,
            },
    {
        match Program::from_shaders(reply) {
            Ok(program) => Ok(ComputeProgram { program }),
            Err(log) => Err(log),
        }
    }

    /// Runs the program over `x` by `y` by `z` work groups.
    pub fn execute(&self, x: u32, y: u32, z: u32) -> (commands: Vec<Command>)
        ensures
            commands@ == dispatch_sequence(self.program()@.id, x, y, z),
    {
        let mut commands: Vec<Command> = Vec::new();
        commands.push(self.set_used());
        commands.push(Command::DispatchCompute { x, y, z });
        commands.push(Command::MemoryBarrierAll);
        assert(commands@ =~= dispatch_sequence(self.program()@.id, x, y, z));
        commands
    }

    /// Makes this the active program.
    pub fn set_used(&self) -> (c: Command)
        ensures
            c == (Command::UseProgram { id: self.program()@.id }),
    {
        self.program.set_used()
    }

    pub fn get_program(&self) -> (p: &Program)
        ensures
            *p == self.program(),
    {
        &self.program
    }

    pub fn get_program_mut(&mut self) -> (p: &mut Program)
        ensures
            *p == old(self).program(),
            *final(p) == final(self).program(),
    {
        &mut self.program
    }
}

} // verus!
