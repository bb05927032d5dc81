//! Asset paths, uniform locations, texture units, numeric tags, and the
//! log retrieval protocol.

use glw::assets::Assets;
use glw::get_programiv_param::GetProgramivParam;
use glw::get_programiv_param::InfoLogLength;
use glw::get_programiv_param::LinkStatus;
use glw::get_programiv_param::ValidateStatus;
use glw::info_log::log_capacity;
use glw::info_log::take_info_log;
use glw::shader_kind::ShaderKind;
use glw::texture::MaxCombinedTextureImageUnits;
use glw::texture::TextureFilter;
use glw::texture::TextureTarget;
use glw::texture::TextureUnit;
use glw::texture::TextureWrap;
use glw::uniform_location::ColMatrixRef;
use glw::uniform_location::MajorAxis;
use glw::uniform_location::MatrixRef;
use glw::uniform_location::RowMatrixRef;
use glw::uniform_location::UniformLocation;

#[test]
fn asset_paths_join_the_root() {
    let assets = Assets::new(String::from("assets"));
    assert_eq!(assets.root, "assets");
    assert_eq!(assets.chunk_renderer_vert, "assets/chunk_renderer.vert");
    assert_eq!(assets.chunk_renderer_frag, "assets/chunk_renderer.frag");
    assert_eq!(assets.post_renderer_vert, "assets/post_renderer.vert");
    assert_eq!(assets.post_renderer_frag, "assets/post_renderer.frag");
    assert_eq!(assets.text_renderer_vert, "assets/text_renderer.vert");
    assert_eq!(assets.text_renderer_frag, "assets/text_renderer.frag");
    assert_eq!(assets.dirt_xyz_png, "assets/dirt_xyz.png");
    assert_eq!(assets.stone_xyz_png, "assets/stone_xyz.png");
    assert_eq!(assets.font_padded_sdf_png, "assets/font-padded-sdf.png");
}

#[test]
fn uniform_location_round_trips_and_rejects_misses() {
    assert!(UniformLocation::<i32>::from_raw(-1).is_none());
    let loc = UniformLocation::<i32>::from_raw(0).unwrap();
    assert_eq!(loc.as_i32(), 0);
    let loc = UniformLocation::<[f32; 4]>::from_raw(41).unwrap();
    assert_eq!(loc.as_i32(), 41);
    assert!(UniformLocation::<i32>::from_raw(i32::MAX).is_some());
}

#[test]
fn matrix_refs_know_their_major_axis() {
    let m: [i32; 4] = [1, 2, 3, 4];
    assert!(matches!(RowMatrixRef::<&[i32; 4]>::major_axis(), MajorAxis::Row));
    assert!(matches!(ColMatrixRef::<&[i32; 4]>::major_axis(), MajorAxis::Column));
    assert_eq!(MajorAxis::Row.should_transpose(), 1);
    assert_eq!(MajorAxis::Column.should_transpose(), 0);
    assert_eq!(RowMatrixRef(&m).into_inner(), &m);
    assert_eq!(ColMatrixRef(&m).into_inner(), &m);
}

#[test]
fn texture_units_are_checked_against_the_limit() {
    let max = MaxCombinedTextureImageUnits::new(16);
    let unit = TextureUnit::new(0, max).unwrap();
    assert_eq!(unit.as_u32(), 0x84C0);
    let unit = TextureUnit::new(15, max).unwrap();
    assert_eq!(unit.as_u32(), 0x84C0 + 15);
    assert!(TextureUnit::new(16, max).is_none());
}

#[test]
fn numeric_tags_match_the_external_api() {
    assert_eq!(ShaderKind::Vertex.as_u32(), 0x8B31);
    assert_eq!(ShaderKind::Fragment.as_u32(), 0x8B30);
    assert_eq!(ShaderKind::Geometry.as_u32(), 0x8DD9);
    assert_eq!(ShaderKind::Compute.as_u32(), 0x91B9);
    assert_eq!(ShaderKind::TesselationControl.as_u32(), 0x8E88);
    assert_eq!(ShaderKind::TesselationEvaluation.as_u32(), 0x8E87);
    assert_eq!(LinkStatus::as_u32(), 0x8B82);
    assert_eq!(ValidateStatus::as_u32(), 0x8B83);
    assert_eq!(InfoLogLength::as_u32(), 0x8B84);
    assert_eq!(TextureTarget::Texture2D.as_u32(), 0x0DE1);
    assert_eq!(TextureFilter::Linear.as_u32(), 0x2601);
    assert_eq!(TextureWrap::ClampToEdge.as_u32(), 0x812F);
}

#[test]
fn log_retrieval_trusts_the_written_length() {
    // The API reported 4 bytes of capacity but wrote only 2: keep 2.
    let buffer = vec![b'n', b'o', 0, 0];
    assert_eq!(take_info_log(buffer, 2), vec![b'n', b'o']);
    // A written length beyond the buffer cannot grow it.
    let buffer = vec![b'a', b'b'];
    assert_eq!(take_info_log(buffer, 5), vec![b'a', b'b']);
    // A negative reported capacity allocates nothing.
    assert_eq!(log_capacity(-3), 0);
    assert_eq!(log_capacity(11), 11);
}
