//! The device seen from the host: the commands this layer issues, and a model
//! of the binding state and of buffer memory that those commands act on.
//!
//! Nothing here talks to a device. Every operation of the layer returns the
//! commands to run, in order; whoever owns the graphics context runs them and
//! hands the device's answers back as plain values.

use vstd::prelude::*;
use crate::kinds::{BufferType, BufferUsage, GlDataType, MapAccess, ShaderType};

verus! {

/// One call on the device.
#[derive(Debug, PartialEq, Eq)]
#[allow(inconsistent_fields)]
pub enum Command {
    /// Make `id` the buffer bound to `target`; `id` 0 unbinds.
    BindBuffer { target: BufferType, id: u32 },
    /// Give the buffer bound to `target` new storage of `byte_size` bytes.
    /// With `initialized` the caller's data fills it, else it is left as it comes.
    BufferData { target: BufferType, byte_size: usize, usage: BufferUsage, initialized: bool },
    /// Map buffer `id` into host memory as a view of `elements` items.
    MapBuffer { id: u32, access: MapAccess, elements: usize },
    /// Release the mapped view of buffer `id`.
    UnmapBuffer { id: u32 },
    /// Copy `length` bytes between two buffers on the device.
    CopyBufferSubData { source: u32, dest: u32, read_offset: usize, write_offset: usize, length: usize },
    /// Bind buffer `id` to the indexed binding point `index` of `target`.
    BindBufferBase { target: BufferType, index: u32, id: u32 },
    DeleteBuffer { id: u32 },
    /// Create a shader of `kind` and compile `source` as it stands.
    CompileShader { kind: ShaderType, source: String },
    DeleteShader { id: u32 },
    AttachShader { program: u32, shader: u32 },
    LinkProgram { program: u32 },
    DetachShader { program: u32, shader: u32 },
    /// Make `id` the active program; `id` 0 deactivates.
    UseProgram { id: u32 },
    DeleteProgram { id: u32 },
    Uniform1i { location: i32, value: i32 },
    /// The value is given by its IEEE 754 bit pattern.
    Uniform1f { location: i32, bits: u32 },
    Uniform2f { location: i32, x_bits: u32, y_bits: u32 },
    Uniform3f { location: i32, x_bits: u32, y_bits: u32, z_bits: u32 },
    DispatchCompute { x: u32, y: u32, z: u32 },
    /// A barrier on every kind of memory.
    MemoryBarrierAll,
    /// Make `id` the bound vertex layout; `id` 0 unbinds.
    BindVertexArray { id: u32 },
    EnableVertexAttribArray { index: u32 },
    VertexAttribPointer {
        index: u32,
        components: u32,
        kind: GlDataType,
        normalized: bool,
        stride: usize,
        offset: usize,
    },
    DeleteVertexArray { id: u32 },
    /// Draw into the rectangle of `width` by `height` at the window's origin.
    Viewport { width: i32, height: i32 },
}

/// The device's implicit binding state: which buffer each target holds, which
/// vertex layout is bound and which program is active. 0 stands for none.
pub struct Bindings {
    pub array: u32,
    pub element_array: u32,
    pub shader_storage: u32,
    pub vertex_array: u32,
    pub program: u32,
}

impl Bindings {
    /// The state in which nothing is bound.
    pub open spec fn neutral() -> Bindings {
        Bindings { array: 0, element_array: 0, shader_storage: 0, vertex_array: 0, program: 0 }
    }

    /// This state with `id` bound to `target`.
    pub open spec fn with_buffer(self, target: BufferType, id: u32) -> Bindings {
        match target {
            BufferType::ArrayBuffer => Bindings { array: id, ..self },
            BufferType::ElementArray => Bindings { element_array: id, ..self },
            BufferType::ShaderStorage => Bindings { shader_storage: id, ..self },
        }
    }

    /// This state with the buffer or layout `id` bound nowhere.
    pub open spec fn without_buffer(self, id: u32) -> Bindings {
        Bindings {
            array: if self.array == id { 0 } else { self.array },
            element_array: if self.element_array == id { 0 } else { self.element_array },
            shader_storage: if self.shader_storage == id { 0 } else { self.shader_storage },
            ..self
        }
    }

    /// The state after one command. Binding to an indexed point binds to the
    /// target as well; deleting what is bound unbinds it; a deleted program
    /// stays active until another is used.
    pub open spec fn step(self, c: Command) -> Bindings {
        match c {
            Command::BindBuffer { target, id } => self.with_buffer(target, id),
            Command::BindBufferBase { target, index, id } => self.with_buffer(target, id),
            Command::DeleteBuffer { id } => self.without_buffer(id),
            Command::BindVertexArray { id } => Bindings { vertex_array: id, ..self },
            Command::DeleteVertexArray { id } => Bindings {
                vertex_array: if self.vertex_array == id { 0 } else { self.vertex_array },
                ..self
            },
            Command::UseProgram { id } => Bindings { program: id, ..self },
            _ => self,
        }
    }

    /// The state after the commands `cs`, run in order.
    pub open spec fn run(self, cs: Seq<Command>) -> Bindings
        decreases cs.len(),
    {
        if cs.len() == 0 {
            self
        } else {
            self.run(cs.drop_last()).step(cs.last())
        }
    }
}

/// Running one command after `cs` is one step from where `cs` ends.
pub proof fn lemma_run_push(b: Bindings, cs: Seq<Command>, c: Command)
    ensures
        b.run(cs.push(c)) == b.run(cs).step(c),
{
    assert(cs.push(c).drop_last() =~= cs);
}

/// Running `first` and then `second` is running the two in a row.
pub proof fn lemma_run_concat(b: Bindings, first: Seq<Command>, second: Seq<Command>)
    ensures
        b.run(first + second) == b.run(first).run(second),
    decreases second.len(),
{
    if second.len() == 0 {
        assert(first + second =~= first);
    } else {
        lemma_run_concat(b, first, second.drop_last());
        assert((first + second).drop_last() =~= first + second.drop_last());
        assert((first + second).last() == second.last());
    }
}

/// Whether a command leaves every binding as it is.
pub open spec fn inert(c: Command) -> bool {
    &&& !(c is BindBuffer)
    &&& !(c is BindBufferBase)
    &&& !(c is DeleteBuffer)
    &&& !(c is BindVertexArray)
    &&& !(c is DeleteVertexArray)
    &&& !(c is UseProgram)
}

/// Commands that bind nothing leave the binding state as it was.
pub proof fn lemma_run_inert(b: Bindings, cs: Seq<Command>)
    requires
        forall|i: int| 0 <= i < cs.len() ==> inert(#[trigger] cs[i]),
    ensures
        b.run(cs) == b,
    decreases cs.len(),
{
    if cs.len() > 0 {
        lemma_run_inert(b, cs.drop_last());
    }
}

/// Two commands in a row are two steps.
pub proof fn lemma_run_pair(b: Bindings, first: Command, second: Command)
    ensures
        b.run(seq![first, second]) == b.step(first).step(second),
{
    let e = Seq::<Command>::empty();
    assert(seq![first, second] =~= e.push(first).push(second));
    lemma_run_push(b, e, first);
    lemma_run_push(b, e.push(first), second);
}

/// Three commands in a row are three steps.
pub proof fn lemma_run_triple(b: Bindings, first: Command, second: Command, third: Command)
    ensures
        b.run(seq![first, second, third]) == b.step(first).step(second).step(third),
{
    let e = Seq::<Command>::empty();
    assert(seq![first, second, third] =~= e.push(first).push(second).push(third));
    lemma_run_push(b, e, first);
    lemma_run_push(b, e.push(first), second);
    lemma_run_push(b, e.push(first).push(second), third);
}

/// Whether every compute dispatch among `cs` is followed, before `cs` ends,
/// by a barrier on all memory: what the dispatches wrote is then visible to
/// whatever runs after `cs`.
pub open spec fn settled(cs: Seq<Command>) -> bool {
    forall|i: int|
        0 <= i < cs.len() && #[trigger] cs[i] is DispatchCompute ==> exists|j: int|
            i < j < cs.len() && #[trigger] cs[j] is MemoryBarrierAll
}

/// What a device-side copy leaves in the destination: `length` bytes of
/// `source` from `read_offset`, laid over `dest` from `write_offset`.
pub open spec fn copied(
    source: Seq<u8>,
    dest: Seq<u8>,
    read_offset: int,
    write_offset: int,
    length: int,
) -> Seq<u8> {
    Seq::new(
        dest.len(),
        |i: int|
            if write_offset <= i < write_offset + length {
                source[i - write_offset + read_offset]
            } else {
                dest[i]
            },
    )
}

/// The bytes of every buffer after the command `c`, where `memory` gives them
/// before it. Only a copy is followed here: it reads the source as it was.
pub open spec fn after_copy(memory: Map<u32, Seq<u8>>, c: Command) -> Map<u32, Seq<u8>> {
    match c {
        Command::CopyBufferSubData { source, dest, read_offset, write_offset, length } => memory.insert(
            dest,
            copied(
                memory[source],
                memory[dest],
                read_offset as int,
                write_offset as int,
                length as int,
            ),
        ),
        _ => memory,
    }
}

/// A copy whose ranges lie within both buffers reproduces the copied range of
/// the source in the destination and leaves every other byte of the
/// destination as it was.
pub proof fn lemma_copy_reproduces_range(
    source: Seq<u8>,
    dest: Seq<u8>,
    read_offset: int,
    write_offset: int,
    length: int,
)
    requires
        0 <= read_offset,
        0 <= write_offset,
        0 <= length,
        read_offset + length <= source.len(),
        write_offset + length <= dest.len(),
    ensures
        copied(source, dest, read_offset, write_offset, length).len() == dest.len(),
        copied(source, dest, read_offset, write_offset, length).subrange(
            write_offset,
            write_offset + length,
        ) == source.subrange(read_offset, read_offset + length),
        forall|i: int|
            0 <= i < dest.len() && !(write_offset <= i < write_offset + length) ==> copied(
                source,
                dest,
                read_offset,
                write_offset,
                length,
            )[i] == dest[i],
{
    assert(copied(source, dest, read_offset, write_offset, length).subrange(
        write_offset,
        write_offset + length,
    ) =~= source.subrange(read_offset, read_offset + length));
}

} // verus!
