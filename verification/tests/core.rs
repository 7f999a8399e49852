use wgpu_uwu::carre::Movement;
use wgpu_uwu::frame::{frame_action, FrameAction, SurfaceStatus};
use wgpu_uwu::keys::{KeyTable, KEY_TABLE_LEN};
use wgpu_uwu::lumiere;
use wgpu_uwu::mesh::{index_buffer_data, quad_indices};
use wgpu_uwu::plusieurs;
use wgpu_uwu::plusieurs::Direction::{Down, Left, Right, Still, Up};
use wgpu_uwu::texture::{blur_chain, upload_from_decoded, Size};
use wgpu_uwu::viewport::{calc_ratio, checked_calc_ratio};

#[test]
fn viewport_wide_window_fits_height() {
    assert_eq!(calc_ratio(160, 144, 800, 600), [80, 12, 640, 576]);
    assert_eq!(calc_ratio(160, 144, 480, 288), [80, 0, 320, 288]);
}

#[test]
fn viewport_square_window_is_centred() {
    assert_eq!(calc_ratio(160, 144, 1000, 1000), [20, 68, 960, 864]);
}

#[test]
fn viewport_small_window_gets_zero_scale() {
    assert_eq!(calc_ratio(160, 144, 100, 50), [50, 25, 0, 0]);
}

#[test]
fn viewport_tall_mid_texture_fits_height() {
    assert_eq!(calc_ratio(100, 300, 400, 300), [150, 0, 100, 300]);
}

#[test]
fn viewport_reads_sizes_as_i16() {
    // 65535 reads as -1; division rounds toward zero.
    assert_eq!(calc_ratio(160, 144, 65535, 600), [0, 300, 0, 0]);
}

#[test]
fn viewport_checked_matches_unchecked() {
    assert_eq!(checked_calc_ratio(160, 144, 800, 600), Some([80, 12, 640, 576]));
    assert_eq!(checked_calc_ratio(100, 300, 400, 300), Some([150, 0, 100, 300]));
}

#[test]
fn viewport_zero_sized_window_is_empty() {
    assert_eq!(checked_calc_ratio(160, 144, 0, 600), Some([0, 300, 0, 0]));
    assert_eq!(checked_calc_ratio(160, 144, 65536, 600), Some([0, 300, 0, 0]));
}

#[test]
fn viewport_zero_sized_mid_texture_is_refused() {
    assert_eq!(checked_calc_ratio(0, 144, 800, 600), None);
    assert_eq!(checked_calc_ratio(160, 0, 800, 600), None);
}

#[test]
fn viewport_overflowing_scale_is_refused() {
    assert_eq!(checked_calc_ratio(65533, 1, 32767, 32767), None);
    assert_eq!(checked_calc_ratio(65535, 1, 32768, 5), None);
}

#[test]
fn viewport_fits_and_is_largest() {
    for (sw, sh) in [(800i32, 600i32), (480, 288), (1000, 1000), (1920, 1080), (333, 777), (161, 5000)] {
        let v = calc_ratio(160, 144, sw as u32, sh as u32).map(i32::from);
        assert!(0 <= v[0] && v[0] + v[2] <= sw);
        assert!(0 <= v[1] && v[1] + v[3] <= sh);
        let k = v[2] / 160;
        assert!((k + 1) * 160 > sw || (k + 1) * 144 > sh);
    }
}

#[test]
fn viewport_keeps_aspect_ratio() {
    for (sw, sh) in [(800u32, 600u32), (1000, 1000), (1920, 1080), (333, 777), (65535, 600)] {
        let v = calc_ratio(160, 144, sw, sh);
        assert_eq!(v[2] as i32 * 144, v[3] as i32 * 160);
        let left = sw as i16 as i32 - v[2] as i32 - 2 * v[0] as i32;
        assert!((-1..=1).contains(&left));
    }
}

#[test]
fn key_table_starts_released() {
    let t = KeyTable::new();
    for code in 0..KEY_TABLE_LEN {
        assert!(!t.is_pressed(code));
    }
}

#[test]
fn key_table_records_press_and_release() {
    let mut t = KeyTable::new();
    t.record(Some(17), true);
    assert!(t.is_pressed(17));
    assert!(!t.is_pressed(18));
    t.record(Some(18), true);
    t.record(Some(17), false);
    assert!(!t.is_pressed(17));
    assert!(t.is_pressed(18));
}

#[test]
fn key_table_ignores_unidentified_keys() {
    let mut t = KeyTable::new();
    t.record(Some(254), true);
    t.record(None, false);
    assert!(t.is_pressed(254));
}

#[test]
fn brightness_direction_down_overrides_up() {
    assert_eq!(lumiere::Direction::from_arrow_keys(true, true), lumiere::Direction::Down);
    assert_eq!(lumiere::Direction::from_arrow_keys(true, false), lumiere::Direction::Up);
    assert_eq!(lumiere::Direction::from_arrow_keys(false, true), lumiere::Direction::Down);
    assert_eq!(lumiere::Direction::from_arrow_keys(false, false), lumiere::Direction::Still);
    assert_eq!(lumiere::Direction::default(), lumiere::Direction::Still);
}

#[test]
fn square_directions_from_keys() {
    assert_eq!(plusieurs::Direction::from_arrow_keys(true, true, true, true), (Right, Down));
    assert_eq!(plusieurs::Direction::from_arrow_keys(true, false, true, false), (Left, Up));
    assert_eq!(plusieurs::Direction::from_arrow_keys(false, false, false, false), (Still, Still));
    assert_eq!(plusieurs::Direction::default(), Still);
}

#[test]
fn square_axis_steps() {
    assert_eq!(plusieurs::axis_steps((Left, Down)), (-1, -1));
    assert_eq!(plusieurs::axis_steps((Right, Up)), (1, 1));
    assert_eq!(plusieurs::axis_steps((Still, Still)), (0, 0));
    // A vertical direction on the x slot, or a horizontal one on the y slot, does not move.
    assert_eq!(plusieurs::axis_steps((Up, Left)), (0, 0));
}

#[test]
fn square_keys_move_square() {
    let d = plusieurs::Direction::from_arrow_keys(true, true, false, false);
    assert_eq!(plusieurs::axis_steps(d), (1, 0));
    let d = plusieurs::Direction::from_arrow_keys(false, false, false, false);
    assert_eq!(plusieurs::axis_steps(d), (0, 0));
}

#[test]
fn movement_values_compare() {
    assert_eq!(Movement::Up, Movement::Up);
    assert_ne!(Movement::Left, Movement::Right);
    let m = Movement::Still;
    let n = m;
    assert_eq!(m, n);
}

#[test]
fn frame_actions() {
    assert_eq!(frame_action(SurfaceStatus::Success), FrameAction::Draw);
    assert_eq!(frame_action(SurfaceStatus::Occluded), FrameAction::Skip);
    assert_eq!(frame_action(SurfaceStatus::Timeout), FrameAction::Skip);
    assert_eq!(frame_action(SurfaceStatus::Suboptimal), FrameAction::Reconfigure);
    assert_eq!(frame_action(SurfaceStatus::Outdated), FrameAction::Reconfigure);
    assert_eq!(frame_action(SurfaceStatus::Lost), FrameAction::Recreate);
}

#[test]
fn quad_index_list() {
    assert_eq!(quad_indices(), vec![0u16, 1, 2, 1, 3, 2]);
}

#[test]
fn quad_index_buffer_bytes() {
    let indices = quad_indices();
    let (bytes, count) = index_buffer_data(&indices);
    assert_eq!(count, 6);
    let expected: Vec<u8> = indices.iter().flat_map(|i| i.to_ne_bytes()).collect();
    assert_eq!(bytes, expected);
    assert_eq!(bytes.len(), 12);
}

#[test]
fn index_buffer_bytes_of_large_indices() {
    let (bytes, count) = index_buffer_data(&[0x1234u16, 0xabcd]);
    assert_eq!(count, 2);
    let mut expected = Vec::new();
    expected.extend_from_slice(&0x1234u16.to_ne_bytes());
    expected.extend_from_slice(&0xabcdu16.to_ne_bytes());
    assert_eq!(bytes, expected);
}

#[test]
fn texture_sizes() {
    let base = Size { width: 320, height: 240 };
    assert_eq!(base.divided(2), Size { width: 160, height: 120 });
    let wide = Size { width: 480, height: 270 };
    assert_eq!(wide.height_divided(3), Size { width: 480, height: 90 });
    assert_eq!(Size { width: 64, height: 32 }.rgba8_copy_layout(), (256, 32));
}

#[test]
fn blur_chain_sizes() {
    let chain = blur_chain(Size { width: 480, height: 270 });
    let dims: Vec<(u32, u32)> = chain.iter().map(|s| (s.width, s.height)).collect();
    assert_eq!(dims, vec![(240, 135), (120, 67), (60, 33), (120, 67), (240, 135), (480, 270)]);
}

#[test]
fn quad_index_buffer_of_six_indices() {
    let (bytes, count) = wgpu_uwu::mesh::quad_index_buffer_data();
    assert_eq!(count, 6);
    let expected: Vec<u8> = [0u16, 1, 2, 1, 3, 2].iter().flat_map(|i| i.to_ne_bytes()).collect();
    assert_eq!(bytes, expected);
}

#[test]
fn blur_passes_wiring() {
    let passes = wgpu_uwu::texture::blur_passes();
    let wiring: Vec<(usize, usize, Option<usize>)> = passes.iter().map(|p| (p.target, p.first, p.second)).collect();
    assert_eq!(
        wiring,
        vec![(1, 0, None), (2, 1, None), (3, 2, None), (4, 2, Some(3)), (5, 4, Some(1)), (6, 5, Some(0))]
    );
}

#[test]
fn decode_rejects_bytes_that_are_no_image() {
    assert!(wgpu_uwu::texture::decode_rgba8(b"not an image").is_none());
    assert!(wgpu_uwu::texture::diffuse_upload(&[]).is_none());
}

fn tiny_png_2x1() -> Vec<u8> {
    // A 2 x 1 RGBA8 PNG: red then green, built by hand (stored deflate block).
    fn crc32(data: &[u8]) -> u32 {
        let mut crc = 0xffff_ffffu32;
        for &b in data {
            crc ^= u32::from(b);
            for _ in 0..8 {
                crc = if crc & 1 != 0 { (crc >> 1) ^ 0xedb8_8320 } else { crc >> 1 };
            }
        }
        !crc
    }
    fn adler32(data: &[u8]) -> u32 {
        let (mut a, mut b) = (1u32, 0u32);
        for &d in data {
            a = (a + u32::from(d)) % 65521;
            b = (b + a) % 65521;
        }
        (b << 16) | a
    }
    fn chunk(out: &mut Vec<u8>, kind: &[u8], data: &[u8]) {
        out.extend_from_slice(&(data.len() as u32).to_be_bytes());
        let mut body = kind.to_vec();
        body.extend_from_slice(data);
        out.extend_from_slice(&body);
        out.extend_from_slice(&crc32(&body).to_be_bytes());
    }
    let raw = [0u8, 255, 0, 0, 255, 0, 255, 0, 255];
    let mut zlib = vec![0x78, 0x01, 0x01];
    zlib.extend_from_slice(&(raw.len() as u16).to_le_bytes());
    zlib.extend_from_slice(&(!(raw.len() as u16)).to_le_bytes());
    zlib.extend_from_slice(&raw);
    zlib.extend_from_slice(&adler32(&raw).to_be_bytes());
    let mut ihdr = Vec::new();
    ihdr.extend_from_slice(&2u32.to_be_bytes());
    ihdr.extend_from_slice(&1u32.to_be_bytes());
    ihdr.extend_from_slice(&[8, 6, 0, 0, 0]);
    let mut png = vec![0x89, b'P', b'N', b'G', 0x0d, 0x0a, 0x1a, 0x0a];
    chunk(&mut png, b"IHDR", &ihdr);
    chunk(&mut png, b"IDAT", &zlib);
    chunk(&mut png, b"IEND", &[]);
    png
}

#[test]
fn decode_small_png_into_upload() {
    let png = tiny_png_2x1();
    let (px, w, h) = wgpu_uwu::texture::decode_rgba8(&png).expect("decodes");
    assert_eq!((w, h), (2, 1));
    assert_eq!(px, vec![255, 0, 0, 255, 0, 255, 0, 255]);
    let (px, size, layout) = wgpu_uwu::texture::diffuse_upload(&png).expect("uploads");
    assert_eq!(size, Size { width: 2, height: 1 });
    assert_eq!(layout, (8, 1));
    assert_eq!(px.len(), 8);
}

#[test]
fn upload_from_decoded_image() {
    assert_eq!(upload_from_decoded(None), None);
    let px = vec![1u8, 2, 3, 4, 5, 6, 7, 8];
    assert_eq!(
        upload_from_decoded(Some((px.clone(), 2, 1))),
        Some((px, Size { width: 2, height: 1 }, (8, 1)))
    );
    assert_eq!(upload_from_decoded(Some((Vec::new(), u32::MAX / 4 + 1, 1))), None);
    assert_eq!(
        upload_from_decoded(Some((Vec::new(), u32::MAX / 4, 0))),
        Some((Vec::new(), Size { width: u32::MAX / 4, height: 0 }, (u32::MAX / 4 * 4, 0)))
    );
}
