//! Vertex layouts: attributes declared in binding order, with stride and
//! offsets computed from that order, bound to one vertex buffer and at most
//! one index buffer.

use vstd::prelude::*;
use crate::buffer::BufferObject;
use crate::device::{inert, lemma_run_concat, lemma_run_inert, lemma_run_pair, Bindings, Command};
use crate::kinds::{BufferType, GlDataType};

verus! {

/// One vertex attribute: `components` values of type `kind`, `offset` bytes
/// into each vertex.
#[derive(Clone, Copy, Debug, PartialEq, Eq, Structural)]
pub struct Attribute {
    pub kind: GlDataType,
    pub components: u32,
    pub normalized: bool,
    pub offset: usize,
}

impl Attribute {
    /// The number of bytes the attribute occupies in a vertex.
    pub open spec fn width(self) -> nat {
        self.components as nat * self.kind.size_spec() as nat
    }
}

/// Whether `attributes` lie one after the other from byte 0, without gaps,
/// and end at `stride`.
pub open spec fn packed(attributes: Seq<Attribute>, stride: nat) -> bool
    decreases attributes.len(),
{
    if attributes.len() == 0 {
        stride == 0
    } else {
        &&& attributes.last().offset + attributes.last().width() == stride
        &&& packed(attributes.drop_last(), attributes.last().offset as nat)
    }
}

/// What a layout holds.
pub struct LayoutView {
    pub attributes: Seq<Attribute>,
    /// The number of bytes from one vertex to the next.
    pub stride: nat,
}

/// The attributes of a vertex, in binding order.
#[derive(Debug)]
pub struct AttributeLayout {
    attributes: Vec<Attribute>,
    stride: usize,
}

impl AttributeLayout {
    #[verifier::type_invariant]
    spec fn inv(self) -> bool {
        &&& packed(self.attributes@, self.stride as nat)
        &&& self.attributes@.len() <= u32::MAX
    }

    pub closed spec fn view(self) -> LayoutView {
        LayoutView { attributes: self.attributes@, stride: self.stride as nat }
    }

    /// Whether one more attribute of `count` components of `kind` can be
    /// declared: the attribute's slot fits in 32 bits and the stride in `usize`.
    pub open spec fn has_room_spec(self, kind: GlDataType, count: u32) -> bool {
        &&& self@.attributes.len() < u32::MAX
        &&& self@.stride + count * kind.size_spec() <= usize::MAX
    }

    /// A layout without attributes.
    pub fn new() -> (r: Self)
        ensures
            r@ == (LayoutView { attributes: Seq::empty(), stride: 0 }),
    {
        AttributeLayout { attributes: Vec::new(), stride: 0 }
    }

    /// Whether one more attribute of `count` components of `kind` can be declared.
    pub fn has_room(&self, kind: GlDataType, count: u32) -> (r: bool)
        ensures
            r == self.has_room_spec(kind, count),
    {
        proof {
            use_type_invariant(self);
        }
        let size: usize = kind.size();
        let slots: usize = self.attributes.len();
        if slots >= u32::MAX as usize {
            return false;
        }
        let width: u64 = (count as u64) * (size as u64);
        let left: u64 = (usize::MAX - self.stride) as u64;
        width <= left
    }

    /// Declares the next attribute: `count` components of `kind`, placed at
    /// the end of the vertex as declared so far.
    pub fn vector(&mut self, kind: GlDataType, count: u32)
        requires
            old(self).has_room_spec(kind, count),
        ensures
            final(self)@ == declared(old(self)@, kind, count, false),
    {
        self.declare(kind, count, false)
    }

    /// As `vector`, for integer components that the device maps to the unit range.
    pub fn vector_normalized(&mut self, kind: GlDataType, count: u32)
        requires
            old(self).has_room_spec(kind, count),
        ensures
            final(self)@ == declared(old(self)@, kind, count, true),
    {
        self.declare(kind, count, true)
    }

    fn declare(&mut self, kind: GlDataType, count: u32, normalized: bool)
        requires
            old(self).has_room_spec(kind, count),
        ensures
            final(self)@ == declared(old(self)@, kind, count, normalized),
    {
        proof {
            use_type_invariant(&*self);
        }
        let size: usize = kind.size();
        assert(count * size <= usize::MAX - self.stride);
        let width: usize = (count as usize) * size;
        let attribute = Attribute { kind, components: count, normalized, offset: self.stride };
        let stride: usize = self.stride + width;
        let mut taken = AttributeLayout::new();
        core::mem::swap(self, &mut taken);
        let AttributeLayout { attributes, stride: _ } = taken;
        let mut attributes = attributes;
        let ghost before = attributes@;
        attributes.push(attribute);
        proof {
            assert(attributes@.drop_last() =~= before);
            assert(attributes@.last() == attribute);
        }
        *self = AttributeLayout { attributes, stride };
    }

    /// The number of bytes from one vertex to the next.
    pub fn stride(&self) -> (r: usize)
        ensures
            r == self@.stride,
    {
        self.stride
    }

    /// The number of attributes declared. They follow one another from byte
    /// 0, without gaps, and end at the stride.
    pub fn len(&self) -> (r: usize)
        ensures
            r == self@.attributes.len(),
            r <= u32::MAX,
            packed(self@.attributes, self@.stride),
    {
        proof {
            use_type_invariant(self);
        }
        self.attributes.len()
    }

    fn at(&self, index: usize) -> (r: Attribute)
        requires
            index < self@.attributes.len(),
        ensures
            r == self@.attributes[index as int],
    {
        self.attributes[index]
    }

    /// The attribute in slot `index`, if one was declared there.
    pub fn get(&self, index: usize) -> (r: Option<Attribute>)
        ensures
            r == if index < self@.attributes.len() {
                Some(self@.attributes[index as int])
            } else {
                None
            },
    {
        if index < self.attributes.len() {
            Some(self.attributes[index])
        } else {
            None
        }
    }
}

/// The layout after one more attribute was declared.
pub open spec fn declared(layout: LayoutView, kind: GlDataType, count: u32, normalized: bool) -> LayoutView {
    let attribute = Attribute { kind, components: count, normalized, offset: layout.stride as usize };
    LayoutView {
        attributes: layout.attributes.push(attribute),
        stride: layout.stride + attribute.width(),
    }
}

/// A vertex layout cannot be built from what was given.
#[derive(Clone, Copy, Debug, PartialEq, Eq, Structural)]
pub enum ConfigurationError {
    /// No attribute was declared.
    NoAttributes,
    /// The vertex buffer does not hold a whole number of vertices.
    SizeMismatch,
}

/// Whether `size` bytes are a whole number of vertices of `stride` bytes.
pub open spec fn whole_vertices(size: nat, stride: nat) -> bool {
    if stride == 0 {
        size == 0
    } else {
        size % stride == 0
    }
}

/// The commands that describe `attributes` to the device: each slot is
/// enabled, then given its type, stride and offset.
pub open spec fn attribute_sequence(attributes: Seq<Attribute>, stride: nat) -> Seq<Command> {
    Seq::new(
        2 * attributes.len(),
        |k: int|
            if k % 2 == 0 {
                Command::EnableVertexAttribArray { index: (k / 2) as u32 }
            } else {
                Command::VertexAttribPointer {
                    index: (k / 2) as u32,
                    components: attributes[k / 2].components,
                    kind: attributes[k / 2].kind,
                    normalized: attributes[k / 2].normalized,
                    stride: stride as usize,
                    offset: attributes[k / 2].offset,
                }
            },
    )
}

/// The binding of the index buffer, where there is one.
pub open spec fn index_binding(index: Option<u32>) -> Seq<Command> {
    match index {
        Some(id) => seq![Command::BindBuffer { target: BufferType::ElementArray, id }],
        None => Seq::empty(),
    }
}

/// The unbinding of the index buffer, where there is one.
pub open spec fn index_unbinding(index: Option<u32>) -> Seq<Command> {
    match index {
        Some(_) => seq![Command::BindBuffer { target: BufferType::ElementArray, id: 0 }],
        None => Seq::empty(),
    }
}

/// The commands that build a layout: bind the layout and its buffers,
/// describe the attributes, then unbind the layout first, so that it keeps
/// its buffers, and the buffers after it.
pub open spec fn layout_sequence(
    id: u32,
    vertex: u32,
    index: Option<u32>,
    layout: LayoutView,
) -> Seq<Command> {
    seq![
        Command::BindVertexArray { id },
        Command::BindBuffer { target: BufferType::ArrayBuffer, id: vertex },
    ] + index_binding(index) + attribute_sequence(
        layout.attributes,
        layout.stride,
    ) + seq![
        Command::BindVertexArray { id: 0 },
        Command::BindBuffer { target: BufferType::ArrayBuffer, id: 0 },
    ] + index_unbinding(index)
}

/// Building a layout leaves no layout bound and no buffer bound to the
/// array target; nor to the element array target, where an index buffer was
/// given. Every other binding is as it was.
pub proof fn lemma_layout_leaves_unbound(
    b: Bindings,
    id: u32,
    vertex: u32,
    index: Option<u32>,
    layout: LayoutView,
)
    ensures
        b.run(layout_sequence(id, vertex, index, layout)) == (Bindings {
            vertex_array: 0,
            array: 0,
            element_array: if index is Some {
                0
            } else {
                b.element_array
            },
            ..b
        }),
        Bindings::neutral().run(layout_sequence(id, vertex, index, layout)) == Bindings::neutral(),
{
    lemma_layout_run(b, id, vertex, index, layout);
    lemma_layout_run(Bindings::neutral(), id, vertex, index, layout);
}

proof fn lemma_layout_run(b: Bindings, id: u32, vertex: u32, index: Option<u32>, layout: LayoutView)
    ensures
        b.run(layout_sequence(id, vertex, index, layout)) == (Bindings {
            vertex_array: 0,
            array: 0,
            element_array: if index is Some {
                0
            } else {
                b.element_array
            },
            ..b
        }),
{
    let start = seq![
        Command::BindVertexArray { id },
        Command::BindBuffer { target: BufferType::ArrayBuffer, id: vertex },
    ];
    let described = attribute_sequence(layout.attributes, layout.stride);
    let end = seq![
        Command::BindVertexArray { id: 0 },
        Command::BindBuffer { target: BufferType::ArrayBuffer, id: 0 },
    ];
    let e = Seq::<Command>::empty();
    lemma_run_pair(b, start[0], start[1]);
    let b1 = b.run(start);
    lemma_run_concat(b, start, index_binding(index));
    let b2 = b1.run(index_binding(index));
    match index {
        Some(i) => {
            let c = Command::BindBuffer { target: BufferType::ElementArray, id: i };
            assert(index_binding(index) =~= e.push(c));
            crate::device::lemma_run_push(b1, e, c);
        },
        None => {},
    }
    lemma_run_concat(b, start + index_binding(index), described);
    assert forall|k: int| 0 <= k < described.len() implies inert(#[trigger] described[k]) by {}
    lemma_run_inert(b2, described);
    lemma_run_concat(b, start + index_binding(index) + described, end);
    lemma_run_pair(b2, end[0], end[1]);
    let b3 = b2.run(end);
    lemma_run_concat(b, start + index_binding(index) + described + end, index_unbinding(index));
    match index {
        Some(_) => {
            let c = Command::BindBuffer { target: BufferType::ElementArray, id: 0 };
            assert(index_unbinding(index) =~= e.push(c));
            crate::device::lemma_run_push(b3, e, c);
        },
        None => {},
    }
}

/// What the host knows of a vertex layout.
pub struct VertexArrayView {
    pub id: u32,
    pub vertex_buffer: u32,
    pub index_buffer: Option<u32>,
    pub layout: LayoutView,
    pub released: bool,
}

/// One vertex layout on the device. It names its buffers and does not own them.
#[derive(Debug)]
pub struct VertexArrayObject {
    id: u32,
    vertex_buffer: u32,
    index_buffer: Option<u32>,
    layout: AttributeLayout,
    released: bool,
}

/// What building a layout comes to.
pub open spec fn layout_outcome(
    id: u32,
    vertex: crate::buffer::BufferView,
    index: Option<u32>,
    layout: LayoutView,
) -> Result<VertexArrayView, ConfigurationError> {
    if layout.attributes.len() == 0 {
        Err(ConfigurationError::NoAttributes)
    } else if !whole_vertices(vertex.byte_size, layout.stride) {
        Err(ConfigurationError::SizeMismatch)
    } else {
        Ok(
            VertexArrayView {
                id,
                vertex_buffer: vertex.id,
                index_buffer: index,
                layout,
                released: false,
            },
        )
    }
}

/// A two-component float position followed by a two-component float
/// texture coordinate make a vertex of 16 bytes, with the position at byte 0
/// and the coordinate at byte 8, and the layout is accepted over every
/// vertex buffer whose size is a multiple of 16.
pub proof fn lemma_position_and_uv(id: u32, vertex: crate::buffer::BufferView, index: Option<u32>)
    requires
        vertex.byte_size % 16 == 0,
    ensures
        ({
            let empty = LayoutView { attributes: Seq::empty(), stride: 0 };
            let layout = declared(
                declared(empty, GlDataType::Float, 2, false),
                GlDataType::Float,
                2,
                false,
            );
            &&& layout.stride == 16
            &&& layout.attributes.len() == 2
            &&& layout.attributes[0].offset == 0
            &&& layout.attributes[1].offset == 8
            &&& layout_outcome(id, vertex, index, layout) is Ok
        }),
{
}

/// The name of the index buffer, where one is given.
pub open spec fn index_id<I>(index_buffer: Option<&BufferObject<I>>) -> Option<u32> {
    match index_buffer {
        Some(b) => Some(b@.id),
        None => None,
    }
}

impl VertexArrayObject {
    pub closed spec fn view(self) -> VertexArrayView {
        VertexArrayView {
            id: self.id,
            vertex_buffer: self.vertex_buffer,
            index_buffer: self.index_buffer,
            layout: self.layout@,
            released: self.released,
        }
    }

    /// The layout named `id` over `vertex_buffer` and, where given,
    /// `index_buffer`, with the commands that build it on the device.
    pub fn new_arrays<T, I>(
        id: u32,
        vertex_buffer: &BufferObject<T>,
        index_buffer: Option<&BufferObject<I>>,
        layout: AttributeLayout,
    ) -> (r: Result<(Self, Vec<Command>), ConfigurationError>)
        ensures
            match layout_outcome(id, vertex_buffer@, index_id(index_buffer), layout@) {
                Ok(view) => r matches Ok(built) && built.0@ == view && built.1@ == layout_sequence(
                    id,
                    vertex_buffer@.id,
                    index_id(index_buffer),
                    layout@,
                ),
                Err(e) => r == Err::<(Self, Vec<Command>), ConfigurationError>(e),
            },
    {
        let n: usize = layout.len();
        let stride: usize = layout.stride();
        let size: usize = vertex_buffer.byte_size();
        if n == 0 {
            return Err(ConfigurationError::NoAttributes);
        }
        let whole = if stride == 0 {
            size == 0
        } else {
            size % stride == 0
        };
        if !whole {
            return Err(ConfigurationError::SizeMismatch);
        }
        let index: Option<u32> = match index_buffer {
            Some(b) => Some(b.id()),
            None => None,
        };
        let ghost goal = layout_sequence(id, vertex_buffer@.id, index, layout@);
        let ghost described = attribute_sequence(layout@.attributes, layout@.stride);
        let mut commands: Vec<Command> = Vec::new();
        commands.push(Command::BindVertexArray { id });
        commands.push(
            Command::BindBuffer { target: BufferType::ArrayBuffer, id: vertex_buffer.id() },
        );
        let ghost start = seq![
            Command::BindVertexArray { id },
            Command::BindBuffer { target: BufferType::ArrayBuffer, id: vertex_buffer@.id },
        ];
        assert(commands@ =~= start);
        match index {
            Some(i) => {
                commands.push(Command::BindBuffer { target: BufferType::ElementArray, id: i });
                assert(commands@ =~= start + index_binding(index));
            },
            None => {
                assert(commands@ =~= start + index_binding(index));
            },
        }
        let ghost head = commands@;
        let mut k: usize = 0;
        while k < n
            invariant
                n == layout@.attributes.len(),
                n <= u32::MAX,
                stride == layout@.stride,
                described == attribute_sequence(layout@.attributes, layout@.stride),
                k <= n,
                commands@.len() == head.len() + 2 * k,
                head.len() <= 3,
                forall|j: int| 0 <= j < head.len() ==> commands@[j] == head[j],
                forall|j: int| 0 <= j < 2 * k ==> commands@[head.len() + j] == described[j],
            decreases n - k,
        {
            let attribute = layout.at(k);
            commands.push(Command::EnableVertexAttribArray { index: k as u32 });
            commands.push(
                Command::VertexAttribPointer {
                    index: k as u32,
                    components: attribute.components,
                    kind: attribute.kind,
                    normalized: attribute.normalized,
                    stride,
                    offset: attribute.offset,
                },
            );
            k += 1;
        }
        let ghost body = commands@;
        assert(body =~= head + described);
        commands.push(Command::BindVertexArray { id: 0 });
        commands.push(Command::BindBuffer { target: BufferType::ArrayBuffer, id: 0 });
        let ghost end = seq![
            Command::BindVertexArray { id: 0 },
            Command::BindBuffer { target: BufferType::ArrayBuffer, id: 0 },
        ];
        assert(commands@ =~= body + end);
        match index {
            Some(_) => {
                commands.push(Command::BindBuffer { target: BufferType::ElementArray, id: 0 });
                assert(commands@ =~= body + end + index_unbinding(index));
            },
            None => {
                assert(commands@ =~= body + end + index_unbinding(index));
            },
        }
        assert(commands@ =~= goal);
        Ok(
            (
                VertexArrayObject {
                    id,
                    vertex_buffer: vertex_buffer.id(),
                    index_buffer: index,
                    layout,
                    released: false,
                },
                commands,
            ),
        )
    }

    /// Makes this layout, with its buffers, the one the next draw reads.
    pub fn bind(&self) -> (c: Command)
        ensures
            c == (Command::BindVertexArray { id: self@.id }),
    {
        Command::BindVertexArray { id: self.id }
    }

    /// Leaves no layout bound.
    pub fn unbind(&self) -> (c: Command)
        ensures
            c == (Command::BindVertexArray { id: 0 }),
    {
        Command::BindVertexArray { id: 0 }
    }

    /// The device's name for the layout.
    pub fn id(&self) -> (r: u32)
        ensures
            r == self@.id,
    {
        self.id
    }

    /// The attributes of the layout.
    pub fn layout(&self) -> (r: &AttributeLayout)
        ensures
            r@ == self@.layout,
    {
        &self.layout
    }

    /// Gives the device handle up. The first call returns the command that
    /// deletes the layout; every later call returns none. No buffer is
    /// deleted with it.
    pub fn release(&mut self) -> (c: Option<Command>)
        ensures
            final(self)@ == (VertexArrayView { released: true, ..old(self)@ }),
            c == if old(self)@.released {
                None
            } else {
                Some(Command::DeleteVertexArray { id: old(self)@.id })
            },
    {
        if self.released {
            None
        } else {
            self.released = true;
            Some(Command::DeleteVertexArray { id: self.id })
        }
    }
}

} // verus!
