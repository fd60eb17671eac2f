use render_core::buffer::{BufferObject, MappedScope, RangeError};
use render_core::device::Command;
use render_core::kinds::{BufferType, BufferUsage, MapAccess};

fn scoped(target: BufferType, id: u32, operation: Command) -> Vec<Command> {
    vec![
        Command::BindBuffer { target, id },
        operation,
        Command::BindBuffer { target, id: 0 },
    ]
}

#[test]
fn gen_makes_an_empty_buffer() {
    let b = BufferObject::<u32>::gen(7, BufferType::ShaderStorage);
    assert_eq!(b.id(), 7);
    assert_eq!(b.kind(), BufferType::ShaderStorage);
    assert_eq!(b.byte_size(), 0);
    assert_eq!(b.len(), 0);
    assert!(!b.is_released());
}

#[test]
fn with_data_records_size_and_uploads_between_bind_and_unbind() {
    let data: [u32; 4] = [1, 2, 3, 4];
    let (b, commands) = BufferObject::with_data(3, BufferType::ElementArray, &data, BufferUsage::StaticDraw);
    assert_eq!(b.id(), 3);
    assert_eq!(b.byte_size(), 16);
    assert_eq!(b.len(), 4);
    assert_eq!(
        commands,
        scoped(
            BufferType::ElementArray,
            3,
            Command::BufferData {
                target: BufferType::ElementArray,
                byte_size: 16,
                usage: BufferUsage::StaticDraw,
                initialized: true,
            },
        )
    );
}

#[test]
fn create_vbo_targets_the_array_buffer() {
    let data: [u16; 3] = [9, 8, 7];
    let (b, commands) = BufferObject::create_vbo(5, &data, BufferUsage::DynamicDraw);
    assert_eq!(b.kind(), BufferType::ArrayBuffer);
    assert_eq!(b.byte_size(), 6);
    assert_eq!(commands.len(), 3);
    assert_eq!(commands[0], Command::BindBuffer { target: BufferType::ArrayBuffer, id: 5 });
    assert_eq!(commands[2], Command::BindBuffer { target: BufferType::ArrayBuffer, id: 0 });
}

#[test]
fn with_capacity_reserves_without_data() {
    let (b, commands) =
        BufferObject::<u64>::with_capacity(2, BufferType::ShaderStorage, 1000, BufferUsage::DynamicCopy);
    assert_eq!(b.byte_size(), 8000);
    assert_eq!(b.len(), 1000);
    assert_eq!(
        commands[1],
        Command::BufferData {
            target: BufferType::ShaderStorage,
            byte_size: 8000,
            usage: BufferUsage::DynamicCopy,
            initialized: false,
        }
    );
}

#[test]
fn set_data_replaces_the_size() {
    let mut b = BufferObject::<u32>::gen(1, BufferType::ArrayBuffer);
    let first = b.set_data(&[1, 2, 3], BufferUsage::StreamDraw);
    assert_eq!(b.byte_size(), 12);
    assert_eq!(first.len(), 3);
    let second = b.set_data(&[5], BufferUsage::StaticRead);
    assert_eq!(b.byte_size(), 4);
    assert_eq!(b.len(), 1);
    assert_eq!(
        second,
        scoped(
            BufferType::ArrayBuffer,
            1,
            Command::BufferData {
                target: BufferType::ArrayBuffer,
                byte_size: 4,
                usage: BufferUsage::StaticRead,
                initialized: true,
            },
        )
    );
    b.set_data(&[], BufferUsage::StaticRead);
    assert_eq!(b.byte_size(), 0);
}

#[test]
fn mapped_view_has_as_many_elements_as_were_uploaded() {
    let data: [u32; 5] = [10, 20, 30, 40, 50];
    let (b, _) = BufferObject::with_data(4, BufferType::ShaderStorage, &data, BufferUsage::DynamicRead);
    let scope = b.read_slice();
    assert_eq!(scope.elements, data.len());
    assert_eq!(scope.elements, b.byte_size() / std::mem::size_of::<u32>());
    assert_eq!(
        scope,
        MappedScope {
            open: Command::MapBuffer { id: 4, access: MapAccess::ReadOnly, elements: 5 },
            elements: 5,
            close: Command::UnmapBuffer { id: 4 },
        }
    );
}

#[test]
fn writable_view_differs_only_in_access() {
    let (b, _) = BufferObject::<u8>::with_capacity(6, BufferType::ArrayBuffer, 3, BufferUsage::StreamCopy);
    let scope = b.read_write_slice();
    assert_eq!(scope.open, Command::MapBuffer { id: 6, access: MapAccess::ReadWrite, elements: 3 });
    assert_eq!(scope.elements, 3);
    assert_eq!(scope.close, Command::UnmapBuffer { id: 6 });
}

#[test]
fn zero_sized_elements_take_no_bytes() {
    let data: [(); 3] = [(), (), ()];
    let (b, _) = BufferObject::with_data(1, BufferType::ArrayBuffer, &data, BufferUsage::StaticDraw);
    assert_eq!(b.byte_size(), 0);
    assert_eq!(b.len(), 3);
}

#[test]
fn copy_within_both_buffers_is_one_command() {
    let (a, _) = BufferObject::<u32>::with_capacity(1, BufferType::ShaderStorage, 4, BufferUsage::StaticCopy);
    let (mut b, _) = BufferObject::<u32>::with_capacity(2, BufferType::ShaderStorage, 8, BufferUsage::StaticCopy);
    assert_eq!(
        a.copy_to(&mut b, 4, 20, 12),
        Ok(Command::CopyBufferSubData { source: 1, dest: 2, read_offset: 4, write_offset: 20, length: 12 })
    );
    assert_eq!(
        a.copy_to(&mut b, 16, 32, 0),
        Ok(Command::CopyBufferSubData { source: 1, dest: 2, read_offset: 16, write_offset: 32, length: 0 })
    );
}

#[test]
fn copy_outside_the_source_is_refused() {
    let (a, _) = BufferObject::<u32>::with_capacity(1, BufferType::ShaderStorage, 4, BufferUsage::StaticCopy);
    let (mut b, _) = BufferObject::<u32>::with_capacity(2, BufferType::ShaderStorage, 8, BufferUsage::StaticCopy);
    assert_eq!(a.copy_to(&mut b, 8, 0, 9), Err(RangeError::Source));
    assert_eq!(a.copy_to(&mut b, 17, 0, 0), Err(RangeError::Source));
    assert_eq!(a.copy_to(&mut b, usize::MAX, 0, 2), Err(RangeError::Source));
    assert_eq!(a.copy_to(&mut b, 0, 0, usize::MAX), Err(RangeError::Source));
}

#[test]
fn copy_outside_the_destination_is_refused() {
    let (a, _) = BufferObject::<u32>::with_capacity(1, BufferType::ShaderStorage, 8, BufferUsage::StaticCopy);
    let (mut b, _) = BufferObject::<u32>::with_capacity(2, BufferType::ShaderStorage, 4, BufferUsage::StaticCopy);
    assert_eq!(a.copy_to(&mut b, 0, 8, 9), Err(RangeError::Destination));
    assert_eq!(a.copy_to(&mut b, 0, usize::MAX, 1), Err(RangeError::Destination));
    assert_eq!(a.copy_all_to(&mut b), Err(RangeError::Destination));
}

#[test]
fn copy_all_copies_every_byte_to_the_start() {
    let (a, _) = BufferObject::<u32>::with_capacity(1, BufferType::ShaderStorage, 4, BufferUsage::StaticCopy);
    let (mut b, _) = BufferObject::<u32>::with_capacity(2, BufferType::ShaderStorage, 4, BufferUsage::StaticCopy);
    assert_eq!(
        a.copy_all_to(&mut b),
        Ok(Command::CopyBufferSubData { source: 1, dest: 2, read_offset: 0, write_offset: 0, length: 16 })
    );
}

#[test]
fn bind_base_names_target_slot_and_buffer() {
    let b = BufferObject::<u32>::gen(9, BufferType::ShaderStorage);
    assert_eq!(
        b.bind_base(3),
        Command::BindBufferBase { target: BufferType::ShaderStorage, index: 3, id: 9 }
    );
    assert_eq!(b.bind(), Command::BindBuffer { target: BufferType::ShaderStorage, id: 9 });
    assert_eq!(b.unbind(), Command::BindBuffer { target: BufferType::ShaderStorage, id: 0 });
}

#[test]
fn buffer_is_deleted_once() {
    let mut b = BufferObject::<u32>::gen(11, BufferType::ArrayBuffer);
    assert_eq!(b.release(), Some(Command::DeleteBuffer { id: 11 }));
    assert!(b.is_released());
    assert_eq!(b.release(), None);
    assert_eq!(b.release(), None);
    assert_eq!(b.id(), 11);
}

#[test]
fn fits_tells_what_one_buffer_can_hold() {
    assert!(BufferObject::<u32>::fits(0));
    assert!(BufferObject::<u32>::fits(1 << 20));
    assert!(BufferObject::<u32>::fits((isize::MAX as usize) / 4));
    assert!(!BufferObject::<u32>::fits((isize::MAX as usize) / 4 + 1));
    assert!(!BufferObject::<u32>::fits(usize::MAX));
    assert!(BufferObject::<()>::fits(usize::MAX));
}

#[test]
fn raw_constants_are_the_devices() {
    assert_eq!(BufferType::ArrayBuffer.raw(), 0x8892);
    assert_eq!(BufferType::ElementArray.raw(), 0x8893);
    assert_eq!(BufferType::ShaderStorage.raw(), 0x90D2);
    assert_eq!(BufferUsage::StreamDraw.raw(), 0x88E0);
    assert_eq!(BufferUsage::StreamRead.raw(), 0x88E1);
    assert_eq!(BufferUsage::StreamCopy.raw(), 0x88E2);
    assert_eq!(BufferUsage::StaticDraw.raw(), 0x88E4);
    assert_eq!(BufferUsage::StaticRead.raw(), 0x88E5);
    assert_eq!(BufferUsage::StaticCopy.raw(), 0x88E6);
    assert_eq!(BufferUsage::DynamicDraw.raw(), 0x88E8);
    assert_eq!(BufferUsage::DynamicRead.raw(), 0x88E9);
    assert_eq!(BufferUsage::DynamicCopy.raw(), 0x88EA);
    assert_eq!(MapAccess::ReadOnly.raw(), 0x88B8);
    assert_eq!(MapAccess::ReadWrite.raw(), 0x88BA);
}
