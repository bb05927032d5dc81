//! Layout checks: absence is encoded in the name's forbidden zero value,
//! so an optional name costs no more than the raw integer.

use std::mem::size_of;

use glw::name::Name;
use glw::names::BufferName;
use glw::names::TextureName;
use glw::names::VertexArrayName;
use glw::uniform_location::UniformLocation;

#[test]
fn buffer_name_size_of_option_self_equals_size_of_u32() {
    assert_eq!(size_of::<Option<BufferName>>(), size_of::<u32>());
    assert_eq!(
        size_of::<[Option<BufferName>; 32]>(),
        size_of::<[u32; 32]>()
    );
}

#[test]
fn name_size_of_option_self_equals_size_of_u32() {
    assert_eq!(
        size_of::<[Option<Name>; 32]>(),
        size_of::<[u32; 32]>(),
    );
}

#[test]
fn texture_name_size_of_option_self_equals_size_of_u32() {
    assert_eq!(size_of::<Option<TextureName>>(), size_of::<u32>());
    assert_eq!(
        size_of::<[Option<TextureName>; 32]>(),
        size_of::<[u32; 32]>()
    );
}

#[test]
fn uniform_location_size_of_option_self_equals_size_of_u32() {
    assert_eq!(
        size_of::<Option<UniformLocation<[f32; 4]>>>(),
        size_of::<u32>()
    );
}

#[test]
fn vertex_array_name_size_of_option_self_equals_size_of_u32() {
    assert_eq!(size_of::<Option<VertexArrayName>>(), size_of::<u32>());
    assert_eq!(
        size_of::<[Option<VertexArrayName>; 32]>(),
        size_of::<[u32; 32]>()
    );
}
