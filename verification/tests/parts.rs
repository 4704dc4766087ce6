use pictor::paths::{extension, path_eq, path_le, path_lt, to_lower};
use pictor::render::{Blitter, Canvas, Filler, Image, PaintOp, WrapMode};
use pictor::picture::{ChannelCount, Gamma, PixelData};
use pictor::utility::spin;
use pictor::vector::Vector;

#[test]
fn byte_paths_order_lexicographically() {
    let a = b"/pics/a.png".to_vec();
    let ab = b"/pics/ab.png".to_vec();
    let b = b"/pics/b.png".to_vec();
    assert!(path_lt(&a, &ab));
    assert!(path_lt(&ab, &b));
    assert!(!path_lt(&b, &a));
    assert!(path_le(&a, &a));
    assert!(path_eq(&a, &a));
    assert!(!path_eq(&a, &b));
    // a prefix sorts before its extension
    assert!(path_lt(&b"/pics/a".to_vec(), &a));
}

#[test]
fn extensions_come_off_the_file_name() {
    assert_eq!(extension(&b"/pics/a.png".to_vec()), Some(b"png".to_vec()));
    assert_eq!(extension(&b"/pics/archive.tar.gz".to_vec()), Some(b"gz".to_vec()));
    assert_eq!(extension(&b"/pics/none".to_vec()), None);
    // a leading dot hides a file rather than naming an extension
    assert_eq!(extension(&b"/pics/.hidden".to_vec()), None);
    // a dot in a directory name is not an extension
    assert_eq!(extension(&b"/pi.cs/none".to_vec()), None);
    assert_eq!(to_lower(&b"PnG".to_vec()), b"png".to_vec());
}

#[test]
fn canvas_spans_the_viewport() {
    let canvas = Canvas::new();
    let corners = canvas.draw([10, 20], [100, 50]);
    assert_eq!(corners, [[10, 20], [10, 70], [110, 70], [110, 20]]);
}

#[test]
fn filler_carries_its_colour() {
    let filler = Filler::new();
    match filler.fill([1000, 0, 0, 1000], [0, 0], [8, 8]) {
        PaintOp::Fill { color, corners } => {
            assert_eq!(color, [1000, 0, 0, 1000]);
            assert_eq!(corners[2], [8, 8]);
        },
        _ => panic!("a fill was asked for"),
    }
}

#[test]
fn blitter_draws_with_the_uploaded_settings() {
    let mut blitter = Blitter::new();
    blitter.upload_texture(
        Image {
            data: Some(PixelData::EightBit(vec![1, 2, 3, 4])),
            resolution: [2, 2],
            channel_count: ChannelCount::One,
        },
        [0, 0, 0, 3],
        Gamma { num: 10, den: 22 },
    );
    match blitter.blit([0, 0], [2, 2]) {
        PaintOp::Blit { swizzle, gamma, corners } => {
            assert_eq!(swizzle, [0, 0, 0, 3]);
            assert_eq!(gamma, Gamma { num: 10, den: 22 });
            assert_eq!(corners[0], [0, 0]);
        },
        _ => panic!("a blit was asked for"),
    }
}

#[test]
fn wrap_modes_name_their_parameters() {
    assert_eq!(WrapMode::Repeat.parameter(), 10497);
    assert_eq!(WrapMode::MirroredRepeat.parameter(), 33648);
    assert_eq!(WrapMode::ClampToEdge.parameter(), 33071);
}

#[test]
fn vectors_hand_out_their_components() {
    let v: Vector<i64, 3> = Vector::new([7, -2, 9]);
    assert_eq!(v.index(0), 7);
    assert_eq!(v.index(1), -2);
    assert_eq!(v.index(2), 9);
}

#[test]
fn spin_returns_after_its_interval() {
    // a zero interval returns at once; a short one returns promptly
    spin(0);
    spin(1);
}
