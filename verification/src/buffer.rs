//! Typed data buffers: the host's record of one device buffer whose elements
//! all have type `T`, and the commands that create, fill, map and copy it.

use vstd::prelude::*;
use core::marker::PhantomData;
use crate::device::{after_copy, lemma_copy_reproduces_range, lemma_run_triple, Bindings, Command};
use crate::kinds::{BufferType, BufferUsage, MapAccess};

verus! {

/// What the host knows of a buffer.
pub struct BufferView {
    /// The device's name for the buffer.
    pub id: u32,
    pub kind: BufferType,
    /// The size of the buffer's storage in bytes.
    pub byte_size: nat,
    /// The number of elements the storage holds.
    pub len: nat,
    /// Whether the device handle was given up.
    pub released: bool,
}

/// One device buffer of elements of type `T`.
#[derive(Debug)]
pub struct BufferObject<T> {
    id: u32,
    kind: BufferType,
    size: usize,
    count: usize,
    released: bool,
    _owns_t: PhantomData<T>,
}

/// A copy was asked for outside a buffer's storage.
#[derive(Clone, Copy, Debug, PartialEq, Eq, Structural)]
pub enum RangeError {
    /// The range to read does not lie within the source.
    Source,
    /// The range to read lies within the source, but the range to write does
    /// not lie within the destination.
    Destination,
}

/// A mapped view, from acquisition to release: run `open`, lend the view of
/// `elements` items, then run `close`, whatever became of the view's user.
#[derive(Debug, PartialEq, Eq)]
pub struct MappedScope {
    pub open: Command,
    pub elements: usize,
    pub close: Command,
}

/// The number of bytes that `count` elements of `T` occupy.
pub open spec fn byte_len<T>(count: usize) -> nat {
    count as nat * vstd::layout::size_of::<T>()
}

/// The three commands of an operation on a bound buffer.
pub open spec fn scoped(target: BufferType, id: u32, operation: Command) -> Seq<Command> {
    seq![
        Command::BindBuffer { target, id },
        operation,
        Command::BindBuffer { target, id: 0 },
    ]
}

/// An operation that binds a buffer, works on it and unbinds leaves the
/// buffer's target unbound and every other binding as it was.
pub proof fn lemma_scoped_leaves_unbound(b: Bindings, target: BufferType, id: u32, operation: Command)
    requires
        operation is BufferData,
    ensures
        b.run(scoped(target, id, operation)) == b.with_buffer(target, 0),
        Bindings::neutral().run(scoped(target, id, operation)) == Bindings::neutral(),
{
    let bind = Command::BindBuffer { target, id };
    let unbind = Command::BindBuffer { target, id: 0 };
    lemma_run_triple(b, bind, operation, unbind);
    lemma_run_triple(Bindings::neutral(), bind, operation, unbind);
}

impl<T> BufferObject<T> {
    #[verifier::type_invariant]
    spec fn inv(self) -> bool {
        &&& self.size == self.count * vstd::layout::size_of::<T>()
        &&& self.size <= isize::MAX
    }

    pub closed spec fn view(self) -> BufferView {
        BufferView {
            id: self.id,
            kind: self.kind,
            byte_size: self.size as nat,
            len: self.count as nat,
            released: self.released,
        }
    }

    /// Whether `count` elements of `T` fit in one buffer.
    pub open spec fn fits_spec(count: usize) -> bool {
        count * vstd::layout::size_of::<T>() <= isize::MAX
    }

    /// Whether `count` elements of `T` fit in one buffer.
    pub fn fits(count: usize) -> (r: bool)
        ensures
            r == Self::fits_spec(count),
    {
        let width: usize = core::mem::size_of::<T>();
        if width == 0 {
            assert(count * 0 == 0) by (nonlinear_arith);
            true
        } else {
            let limit: usize = (isize::MAX as usize) / width;
            proof {
                let m = isize::MAX as int;
                let w = width as int;
                let c = count as int;
                assert(c <= m / w <==> c * w <= m) by (nonlinear_arith)
                    requires
                        w > 0,
                        c >= 0,
                        m >= 0,
                ;
            }
            count <= limit
        }
    }

    /// The record of the empty buffer that the device named `id`.
    pub fn gen(id: u32, kind: BufferType) -> (r: Self)
        ensures
            r@ == (BufferView { id, kind, byte_size: 0, len: 0, released: false }),
    {
        assert(0 * vstd::layout::size_of::<T>() == 0) by (nonlinear_arith);
        BufferObject { id, kind, size: 0, count: 0, released: false, _owns_t: PhantomData }
    }

    /// A vertex buffer named `id` that holds `data`.
    pub fn create_vbo(id: u32, data: &[T], usage: BufferUsage) -> (r: (Self, Vec<Command>))
        requires
            Self::fits_spec(data.len()),
        ensures
            r.0@ == (BufferView {
                id,
                kind: BufferType::ArrayBuffer,
                byte_size: byte_len::<T>(data.len()),
                len: data.len() as nat,
                released: false,
            }),
            r.1@ == scoped(
                BufferType::ArrayBuffer,
                id,
                Command::BufferData {
                    target: BufferType::ArrayBuffer,
                    byte_size: r.0@.byte_size as usize,
                    usage,
                    initialized: true,
                },
            ),
    {
        Self::with_data(id, BufferType::ArrayBuffer, data, usage)
    }

    /// A buffer of `kind` named `id` that holds `data`.
    pub fn with_data(id: u32, kind: BufferType, data: &[T], usage: BufferUsage) -> (r: (
        Self,
        Vec<Command>,
    ))
        requires
            Self::fits_spec(data.len()),
        ensures
            r.0@ == (BufferView {
                id,
                kind,
                byte_size: byte_len::<T>(data.len()),
                len: data.len() as nat,
                released: false,
            }),
            r.1@ == scoped(
                kind,
                id,
                Command::BufferData {
                    target: kind,
                    byte_size: r.0@.byte_size as usize,
                    usage,
                    initialized: true,
                },
            ),
    {
        let mut buff = Self::gen(id, kind);
        let commands = buff.set_data(data, usage);
        (buff, commands)
    }

    /// A buffer of `kind` named `id` with room for `size` elements, their
    /// values left to whoever writes the buffer first.
    pub fn with_capacity(id: u32, kind: BufferType, size: usize, usage: BufferUsage) -> (r: (
        Self,
        Vec<Command>,
    ))
        requires
            Self::fits_spec(size),
        ensures
            r.0@ == (BufferView {
                id,
                kind,
                byte_size: byte_len::<T>(size),
                len: size as nat,
                released: false,
            }),
            r.1@ == scoped(
                kind,
                id,
                Command::BufferData {
                    target: kind,
                    byte_size: r.0@.byte_size as usize,
                    usage,
                    initialized: false,
                },
            ),
    {
        let mut buff = Self::gen(id, kind);
        let commands = buff.store(size, usage, false);
        (buff, commands)
    }

    /// Replaces the storage by one of `count` elements.
    fn store(&mut self, count: usize, usage: BufferUsage, initialized: bool) -> (commands: Vec<
        Command,
    >)
        requires
            Self::fits_spec(count),
        ensures
            final(self)@ == (BufferView {
                byte_size: byte_len::<T>(count),
                len: count as nat,
                ..old(self)@
            }),
            commands@ == scoped(
                old(self)@.kind,
                old(self)@.id,
                Command::BufferData {
                    target: old(self)@.kind,
                    byte_size: final(self)@.byte_size as usize,
                    usage,
                    initialized,
                },
            ),
    {
        let width: usize = core::mem::size_of::<T>();
        let bytes: usize = count * width;
        *self = BufferObject {
            id: self.id,
            kind: self.kind,
            size: bytes,
            count,
            released: self.released,
            _owns_t: PhantomData,
        };
        let mut commands: Vec<Command> = Vec::new();
        commands.push(self.bind());
        commands.push(
            Command::BufferData { target: self.kind, byte_size: bytes, usage, initialized },
        );
        commands.push(self.unbind());
        assert(commands@ =~= scoped(
            self.kind,
            self.id,
            Command::BufferData { target: self.kind, byte_size: bytes, usage, initialized },
        ));
        commands
    }

    /// Binds the buffer to its target.
    pub fn bind(&self) -> (c: Command)
        ensures
            c == (Command::BindBuffer { target: self@.kind, id: self@.id }),
    {
        Command::BindBuffer { target: self.kind, id: self.id }
    }

    /// Replaces the buffer's contents and size by those of `data`.
    pub fn set_data(&mut self, data: &[T], usage: BufferUsage) -> (commands: Vec<Command>)
        requires
            Self::fits_spec(data.len()),
        ensures
            final(self)@ == (BufferView {
                byte_size: byte_len::<T>(data.len()),
                len: data.len() as nat,
                ..old(self)@
            }),
            commands@ == scoped(
                old(self)@.kind,
                old(self)@.id,
                Command::BufferData {
                    target: old(self)@.kind,
                    byte_size: final(self)@.byte_size as usize,
                    usage,
                    initialized: true,
                },
            ),
    {
        self.store(data.len(), usage, true)
    }

    /// The number of whole elements in the buffer's storage.
    pub fn len(&self) -> (n: usize)
        ensures
            n == self@.len,
            self@.byte_size == self@.len * vstd::layout::size_of::<T>(),
            vstd::layout::size_of::<T>() > 0 ==> n == self@.byte_size / vstd::layout::size_of::<T>(),
    {
        proof {
            use_type_invariant(self);
            let w = vstd::layout::size_of::<T>() as int;
            let c = self.count as int;
            assert(w > 0 ==> (c * w) / w == c) by (nonlinear_arith);
        }
        self.count
    }

    /// The size of the buffer's storage in bytes.
    pub fn byte_size(&self) -> (n: usize)
        ensures
            n == self@.byte_size,
            n <= isize::MAX,
    {
        proof {
            use_type_invariant(self);
        }
        self.size
    }

    /// The device's name for the buffer.
    pub fn id(&self) -> (r: u32)
        ensures
            r == self@.id,
    {
        self.id
    }

    /// The target the buffer was created for.
    pub fn kind(&self) -> (r: BufferType)
        ensures
            r == self@.kind,
    {
        self.kind
    }

    /// A read-only view of every element of the buffer.
    pub fn read_slice(&self) -> (scope: MappedScope)
        ensures
            scope == (MappedScope {
                open: Command::MapBuffer {
                    id: self@.id,
                    access: MapAccess::ReadOnly,
                    elements: self@.len as usize,
                },
                elements: self@.len as usize,
                close: Command::UnmapBuffer { id: self@.id },
            }),
            scope.elements * vstd::layout::size_of::<T>() == self@.byte_size,
    {
        self.map(MapAccess::ReadOnly)
    }

    /// A view of every element of the buffer that may be written through.
    pub fn read_write_slice(&self) -> (scope: MappedScope)
        ensures
            scope == (MappedScope {
                open: Command::MapBuffer {
                    id: self@.id,
                    access: MapAccess::ReadWrite,
                    elements: self@.len as usize,
                },
                elements: self@.len as usize,
                close: Command::UnmapBuffer { id: self@.id },
            }),
            scope.elements * vstd::layout::size_of::<T>() == self@.byte_size,
    {
        self.map(MapAccess::ReadWrite)
    }

    fn map(&self, access: MapAccess) -> (scope: MappedScope)
        ensures
            scope == (MappedScope {
                open: Command::MapBuffer { id: self@.id, access, elements: self@.len as usize },
                elements: self@.len as usize,
                close: Command::UnmapBuffer { id: self@.id },
            }),
            scope.elements * vstd::layout::size_of::<T>() == self@.byte_size,
    {
        proof {
            use_type_invariant(self);
        }
        MappedScope {
            open: Command::MapBuffer { id: self.id, access, elements: self.count },
            elements: self.count,
            close: Command::UnmapBuffer { id: self.id },
        }
    }

    /// Copies the whole of this buffer to the start of `dest`.
    pub fn copy_all_to(&self, dest: &mut BufferObject<T>) -> (r: Result<Command, RangeError>)
        ensures
            r == copy_outcome(self@, old(dest)@, 0, 0, self@.byte_size as usize),
            final(dest)@ == old(dest)@,
    {
        self.copy_to(dest, 0, 0, self.size)
    }

    /// Copies `length` bytes, from `read_offset` in this buffer to
    /// `write_offset` in `dest`, on the device.
    pub fn copy_to(
        &self,
        dest: &mut BufferObject<T>,
        read_offset: usize,
        write_offset: usize,
        length: usize,
    ) -> (r: Result<Command, RangeError>)
        ensures
            r == copy_outcome(self@, old(dest)@, read_offset, write_offset, length),
            final(dest)@ == old(dest)@,
    {
        if length > self.size || read_offset > self.size - length {
            Err(RangeError::Source)
        } else if length > dest.size || write_offset > dest.size - length {
            Err(RangeError::Destination)
        } else {
            Ok(
                Command::CopyBufferSubData {
                    source: self.id,
                    dest: dest.id,
                    read_offset,
                    write_offset,
                    length,
                },
            )
        }
    }

    /// Binds the buffer to the indexed binding point `layout` of its target.
    pub fn bind_base(&self, layout: u32) -> (c: Command)
        ensures
            c == (Command::BindBufferBase { target: self@.kind, index: layout, id: self@.id }),
    {
        Command::BindBufferBase { target: self.kind, index: layout, id: self.id }
    }

    /// Leaves the buffer's target with nothing bound.
    pub fn unbind(&self) -> (c: Command)
        ensures
            c == (Command::BindBuffer { target: self@.kind, id: 0 }),
    {
        Command::BindBuffer { target: self.kind, id: 0 }
    }

    /// Whether the device handle was given up.
    pub fn is_released(&self) -> (r: bool)
        ensures
            r == self@.released,
    {
        self.released
    }

    /// Gives the device handle up. The first call returns the command that
    /// deletes the buffer; every later call returns none.
    pub fn release(&mut self) -> (c: Option<Command>)
        ensures
            final(self)@ == (BufferView { released: true, ..old(self)@ }),
            c == if old(self)@.released {
                None
            } else {
                Some(Command::DeleteBuffer { id: old(self)@.id })
            },
    {
        proof {
            use_type_invariant(&*self);
        }
        if self.released {
            None
        } else {
            self.released = true;
            Some(Command::DeleteBuffer { id: self.id })
        }
    }
}

/// What a copy between two buffers comes to: the command, where both ranges
/// lie within their buffers, else the range that does not.
pub open spec fn copy_outcome(
    source: BufferView,
    dest: BufferView,
    read_offset: usize,
    write_offset: usize,
    length: usize,
) -> Result<Command, RangeError> {
    if read_offset + length > source.byte_size {
        Err(RangeError::Source)
    } else if write_offset + length > dest.byte_size {
        Err(RangeError::Destination)
    } else {
        Ok(
            Command::CopyBufferSubData {
                source: source.id,
                dest: dest.id,
                read_offset,
                write_offset,
                length,
            },
        )
    }
}

/// What the device keeps of an upload of `byte_size` bytes read from
/// `data`: the whole elements that those bytes make up.
pub open spec fn uploaded<T>(data: Seq<T>, byte_size: nat) -> Seq<T>
    recommends
        vstd::layout::size_of::<T>() > 0,
        byte_size <= data.len() * vstd::layout::size_of::<T>(),
{
    data.take((byte_size / vstd::layout::size_of::<T>()) as int)
}

/// What a mapped view of `elements` items shows of a buffer's `contents`.
pub open spec fn viewed<T>(contents: Seq<T>, elements: nat) -> Seq<T>
    recommends
        elements <= contents.len(),
{
    contents.take(elements as int)
}

/// For elements that take up room, the size recorded by an upload of `data`
/// and the length of a view mapped afterwards are such that the view shows
/// `data`, element for element: the upload reads all of it and the view
/// neither ends early nor runs past it.
pub proof fn lemma_upload_round_trips<T>(after: BufferView, data: Seq<T>)
    requires
        vstd::layout::size_of::<T>() > 0,
        data.len() <= usize::MAX,
        after.byte_size == byte_len::<T>(data.len() as usize),
        after.len == data.len(),
    ensures
        after.byte_size / vstd::layout::size_of::<T>() == data.len(),
        viewed(uploaded(data, after.byte_size), after.len) == data,
{
    let w = vstd::layout::size_of::<T>() as int;
    let n = data.len() as int;
    assert((n * w) / w == n) by (nonlinear_arith)
        requires
            w > 0,
    ;
    assert(viewed(uploaded(data, after.byte_size), after.len) =~= data);
}

/// Where a copy is accepted and the device holds both buffers at their
/// recorded sizes, the destination afterwards holds the copied range of the
/// source where it was written, every byte of it outside that range is as it
/// was, and no other buffer has changed.
pub proof fn lemma_copy_to_reproduces_range(
    source: BufferView,
    dest: BufferView,
    read_offset: usize,
    write_offset: usize,
    length: usize,
    memory: Map<u32, Seq<u8>>,
)
    requires
        source.id != dest.id,
        memory.contains_key(source.id),
        memory.contains_key(dest.id),
        memory[source.id].len() == source.byte_size,
        memory[dest.id].len() == dest.byte_size,
        copy_outcome(source, dest, read_offset, write_offset, length) is Ok,
    ensures
        ({
            let command = copy_outcome(source, dest, read_offset, write_offset, length)->Ok_0;
            let after = after_copy(memory, command);
            &&& after.dom() == memory.dom()
            &&& after[dest.id].len() == dest.byte_size
            &&& after[dest.id].subrange(write_offset as int, write_offset + length)
                == memory[source.id].subrange(read_offset as int, read_offset + length)
            &&& forall|i: int|
                0 <= i < dest.byte_size && !(write_offset <= i < write_offset + length)
                    ==> after[dest.id][i] == memory[dest.id][i]
            &&& forall|id: u32| memory.contains_key(id) && id != dest.id ==> after[id] == memory[id]
        }),
{
    lemma_copy_reproduces_range(
        memory[source.id],
        memory[dest.id],
        read_offset as int,
        write_offset as int,
        length as int,
    );
    let command = copy_outcome(source, dest, read_offset, write_offset, length)->Ok_0;
    assert(after_copy(memory, command).dom() =~= memory.dom());
}

} // verus!
