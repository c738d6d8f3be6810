use frame_orchestrator::texture::{
    diffuse_sampler, load_texture, stage_texture, AddressMode, BufferCopyLayout, CompareFunction,
    Extent3d, FilterMode, Origin3d, TextureCopyTarget, TextureDimension, TextureError,
    TextureFormat,
};
use frame_orchestrator::usage::TextureUsage;

const RED: [u8; 4] = [255, 0, 0, 255];
const GREEN: [u8; 4] = [0, 255, 0, 255];
const BLUE: [u8; 4] = [0, 0, 255, 255];
const WHITE: [u8; 4] = [255, 255, 255, 128];

fn corners() -> Vec<u8> {
    let mut pixels = Vec::new();
    pixels.extend_from_slice(&RED);
    pixels.extend_from_slice(&GREEN);
    pixels.extend_from_slice(&BLUE);
    pixels.extend_from_slice(&WHITE);
    pixels
}

fn png(pixels: &[u8], width: u32, height: u32, color: image::ColorType) -> Vec<u8> {
    let mut file = Vec::new();
    image::png::PngEncoder::new(&mut file).encode(pixels, width, height, color).unwrap();
    file
}

#[test]
fn tightly_packed_rows_are_staged_as_they_are() {
    let upload = stage_texture(&corners(), 2, 2, 1).unwrap();
    assert_eq!(upload.data, corners());
    assert_eq!(
        upload.layout,
        BufferCopyLayout { offset: 0, bytes_per_row: 8, rows_per_image: 2 }
    );
    assert_eq!(upload.copy_size, Extent3d { width: 2, height: 2, depth: 1 });
    assert_eq!(
        upload.target,
        TextureCopyTarget { mip_level: 0, array_layer: 0, origin: Origin3d { x: 0, y: 0, z: 0 } }
    );
}

#[test]
fn the_texture_is_declared_for_copy_and_sampling() {
    let descriptor = stage_texture(&corners(), 2, 2, 1).unwrap().descriptor;
    assert_eq!(descriptor.size, Extent3d { width: 2, height: 2, depth: 1 });
    assert_eq!(descriptor.array_layer_count, 1);
    assert_eq!(descriptor.mip_level_count, 1);
    assert_eq!(descriptor.sample_count, 1);
    assert_eq!(descriptor.dimension, TextureDimension::D2);
    assert_eq!(descriptor.format, TextureFormat::Rgba8UnormSrgb);
    assert_eq!(
        descriptor.usage,
        TextureUsage {
            copy_src: false,
            copy_dst: true,
            sampled: true,
            storage: false,
            output_attachment: false
        }
    );
}

#[test]
fn rows_are_padded_to_the_row_alignment() {
    let upload = stage_texture(&corners(), 2, 2, 256).unwrap();
    assert_eq!(upload.layout.bytes_per_row, 256);
    assert_eq!(upload.layout.rows_per_image, 2);
    assert_eq!(upload.data.len(), 512);
    assert_eq!(upload.data[0..4], RED);
    assert_eq!(upload.data[4..8], GREEN);
    assert!(upload.data[8..256].iter().all(|b| *b == 0));
    assert_eq!(upload.data[256..260], BLUE);
    assert_eq!(upload.data[260..264], WHITE);
    assert!(upload.data[264..512].iter().all(|b| *b == 0));
}

#[test]
fn a_row_that_is_aligned_already_gets_no_padding() {
    let pixels: Vec<u8> = (0..64 * 4 * 3).map(|i| (i % 251) as u8).collect();
    let upload = stage_texture(&pixels, 64, 3, 256).unwrap();
    assert_eq!(upload.layout.bytes_per_row, 256);
    assert_eq!(upload.data, pixels);
}

#[test]
fn the_row_pitch_is_the_next_multiple_of_the_alignment() {
    let pixels = vec![7u8; 3 * 4 * 2];
    let upload = stage_texture(&pixels, 3, 2, 8).unwrap();
    assert_eq!(upload.layout.bytes_per_row, 16);
    let mut expected = vec![7u8; 12];
    expected.extend_from_slice(&[0; 4]);
    expected.extend_from_slice(&[7; 12]);
    expected.extend_from_slice(&[0; 4]);
    assert_eq!(upload.data, expected);
    let odd = stage_texture(&pixels, 3, 2, 5).unwrap();
    assert_eq!(odd.layout.bytes_per_row, 15);
    assert_eq!(odd.data.len(), 30);
}

#[test]
fn a_zero_row_alignment_is_refused() {
    assert_eq!(stage_texture(&corners(), 2, 2, 0), Err(TextureError::RowAlignment));
    assert_eq!(stage_texture(&[], 0, 0, 0), Err(TextureError::RowAlignment));
}

#[test]
fn an_image_without_texels_is_refused() {
    assert_eq!(stage_texture(&[], 0, 2, 1), Err(TextureError::Empty));
    assert_eq!(stage_texture(&[], 2, 0, 1), Err(TextureError::Empty));
    assert_eq!(stage_texture(&corners(), 0, 0, 1), Err(TextureError::Empty));
}

#[test]
fn a_pixel_buffer_of_the_wrong_size_is_refused() {
    assert_eq!(stage_texture(&corners(), 2, 1, 1), Err(TextureError::SizeMismatch));
    assert_eq!(stage_texture(&corners(), 2, 3, 1), Err(TextureError::SizeMismatch));
    assert_eq!(stage_texture(&corners()[..15], 2, 2, 1), Err(TextureError::SizeMismatch));
    assert_eq!(stage_texture(&[], 1, 1, 1), Err(TextureError::SizeMismatch));
}

#[test]
fn a_row_pitch_beyond_the_copy_limit_is_refused() {
    let width: u32 = 0x2000_0001;
    let pixels = vec![0u8; 4 * width as usize];
    assert_eq!(
        stage_texture(&pixels, width, 1, 0x8000_0001).map(|u| u.layout),
        Err(TextureError::TooLarge)
    );
}

#[test]
fn a_decoded_image_keeps_its_corner_colours() {
    let file = png(&corners(), 2, 2, image::ColorType::Rgba8);
    assert!(file != corners());
    let upload = load_texture(&file, 1).unwrap();
    assert_eq!(upload.copy_size, Extent3d { width: 2, height: 2, depth: 1 });
    assert_eq!(upload.layout.bytes_per_row, 8);
    assert_eq!(upload.data[0..4], RED);
    assert_eq!(upload.data[4..8], GREEN);
    assert_eq!(upload.data[8..12], BLUE);
    assert_eq!(upload.data[12..16], WHITE);
}

#[test]
fn a_decoded_image_is_staged_like_its_pixels() {
    let pixels: Vec<u8> = (0..5 * 3 * 4).map(|i| (i * 7 % 256) as u8).collect();
    let file = png(&pixels, 5, 3, image::ColorType::Rgba8);
    assert_eq!(load_texture(&file, 1), stage_texture(&pixels, 5, 3, 1));
    assert_eq!(load_texture(&file, 256), stage_texture(&pixels, 5, 3, 256));
    assert_eq!(load_texture(&file, 0), Err(TextureError::RowAlignment));
}

#[test]
fn an_image_in_another_pixel_format_is_refused() {
    let file = png(&[1, 2, 3, 4, 5, 6, 7, 8, 9, 10, 11, 12], 2, 2, image::ColorType::Rgb8);
    assert_eq!(load_texture(&file, 1), Err(TextureError::NotRgba8));
    let grey = png(&[1, 2, 3, 4], 2, 2, image::ColorType::L8);
    assert_eq!(load_texture(&grey, 1), Err(TextureError::NotRgba8));
}

#[test]
fn bytes_that_are_no_image_are_refused() {
    assert_eq!(load_texture(&[], 1), Err(TextureError::Undecodable));
    assert_eq!(load_texture(b"not an image at all", 1), Err(TextureError::Undecodable));
    let mut cut = png(&corners(), 2, 2, image::ColorType::Rgba8);
    cut.truncate(20);
    assert_eq!(load_texture(&cut, 1), Err(TextureError::Undecodable));
}

#[test]
fn the_diffuse_sampler_clamps_and_blends_on_magnification() {
    let sampler = diffuse_sampler();
    assert_eq!(sampler.address_mode_u, AddressMode::ClampToEdge);
    assert_eq!(sampler.address_mode_v, AddressMode::ClampToEdge);
    assert_eq!(sampler.address_mode_w, AddressMode::ClampToEdge);
    assert_eq!(sampler.mag_filter, FilterMode::Linear);
    assert_eq!(sampler.min_filter, FilterMode::Nearest);
    assert_eq!(sampler.mipmap_filter, FilterMode::Nearest);
    assert_eq!(f32::from_bits(sampler.lod_min_clamp), -100.0);
    assert_eq!(f32::from_bits(sampler.lod_max_clamp), 100.0);
    assert_eq!(sampler.compare, CompareFunction::Always);
}
