use espcam::preprocess::{crop_and_resize, prepare_decode_buffer, PreprocessError, MODEL_INPUT_BYTES};

#[test]
fn decode_buffer_grows_for_vga() {
    let mut buf: Vec<u8> = vec![7, 7];
    assert_eq!(prepare_decode_buffer(640, 480, &mut buf), Ok(()));
    assert_eq!(buf.len(), 160 * 120 * 3);
    assert_eq!(&buf[..2], &[7, 7]);
    assert!(buf[2..].iter().all(|&b| b == 0));
}

#[test]
fn decode_buffer_kept_when_large_enough() {
    let mut buf: Vec<u8> = vec![9; 100_000];
    assert_eq!(prepare_decode_buffer(640, 480, &mut buf), Ok(()));
    assert_eq!(buf.len(), 100_000);
    assert!(buf.iter().all(|&b| b == 9));
}

#[test]
fn decode_buffer_refuses_tiny_frames() {
    let mut buf: Vec<u8> = Vec::new();
    assert_eq!(
        prepare_decode_buffer(3, 480, &mut buf),
        Err(PreprocessError::InvalidScaledDimensions { width: 3, height: 480 })
    );
    assert_eq!(
        prepare_decode_buffer(640, 0, &mut buf),
        Err(PreprocessError::InvalidScaledDimensions { width: 640, height: 0 })
    );
    assert!(buf.is_empty());
}

fn pattern(len: usize) -> Vec<u8> {
    (0..len).map(|i| ((i * 7 + i / 13) % 251) as u8).collect()
}

#[test]
fn crop_and_resize_takes_centred_square() {
    let (w, h) = (160usize, 120usize);
    let decoded = pattern(w * h * 3 + 10);
    let mut rgb: Vec<u8> = Vec::new();
    assert_eq!(crop_and_resize(0, &decoded, w, h, &mut rgb), Ok(()));
    assert_eq!(rgb.len(), MODEL_INPUT_BYTES);
    // side 120, crop starts at column 20, row 0
    assert_eq!(&rgb[0..3], &decoded[60..63]);
    // last pixel: column 20 + 127 * 120 / 128 = 139, row 119
    let src = (119 * w + 139) * 3;
    assert_eq!(&rgb[MODEL_INPUT_BYTES - 3..], &decoded[src..src + 3]);
    for dy in 0..128 {
        for dx in 0..128 {
            let sx = 20 + dx * 120 / 128;
            let sy = dy * 120 / 128;
            for c in 0..3 {
                assert_eq!(rgb[(dy * 128 + dx) * 3 + c], decoded[(sy * w + sx) * 3 + c]);
            }
        }
    }
}

#[test]
fn crop_and_resize_upscales_small_images() {
    let (w, h) = (2usize, 3usize);
    let decoded: Vec<u8> = (0..18).collect();
    let mut rgb: Vec<u8> = vec![1; 5];
    assert_eq!(crop_and_resize(0, &decoded, w, h, &mut rgb), Ok(()));
    assert_eq!(rgb.len(), MODEL_INPUT_BYTES);
    // side 2, crop starts at row (3 - 2) / 2 = 0; top-left quarter is pixel (0, 0)
    assert_eq!(&rgb[0..3], &[0, 1, 2]);
    // right half of the first row is pixel (1, 0)
    assert_eq!(&rgb[64 * 3..64 * 3 + 3], &[3, 4, 5]);
    // bottom half of the first column is pixel (0, 1)
    assert_eq!(&rgb[64 * 128 * 3..64 * 128 * 3 + 3], &[6, 7, 8]);
}

#[test]
fn crop_and_resize_errors() {
    let decoded = vec![0u8; 30];
    let mut rgb: Vec<u8> = vec![5; 4];
    assert_eq!(
        crop_and_resize(-3, &decoded, 2, 2, &mut rgb),
        Err(PreprocessError::DecodeFailed { code: -3 })
    );
    assert_eq!(
        crop_and_resize(0, &decoded, 0, 2, &mut rgb),
        Err(PreprocessError::InvalidDecodedSize { width: 0, height: 2 })
    );
    assert_eq!(
        crop_and_resize(0, &decoded, usize::MAX, 2, &mut rgb),
        Err(PreprocessError::DecodedSizeOverflow)
    );
    assert_eq!(
        crop_and_resize(0, &decoded, usize::MAX / 2, 1, &mut rgb),
        Err(PreprocessError::DecodedSizeOverflow)
    );
    assert_eq!(
        crop_and_resize(0, &decoded, 4, 3, &mut rgb),
        Err(PreprocessError::DecodedTooLarge { needed: 36, available: 30 })
    );
    assert_eq!(rgb, vec![5; 4]);
}
