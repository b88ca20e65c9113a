//! Turning a decoded camera frame into the model's input: the decode buffer is
//! sized for a quarter-scale RGB888 image, the decoded image is cropped to a
//! centred square and resized by nearest neighbour to 128x128 RGB, and the
//! pixels are shifted into the signed range the quantized model expects.

use vstd::prelude::*;
use vstd::arithmetic::div_mod::lemma_fundamental_div_mod_converse;

verus! {

/// Width of the model input, in pixels.
pub const MODEL_INPUT_WIDTH: usize = 128;
/// Height of the model input, in pixels.
pub const MODEL_INPUT_HEIGHT: usize = 128;
/// Bytes per pixel (RGB).
pub const MODEL_INPUT_CHANNELS: usize = 3;
/// Bytes in one model input: 128 * 128 * 3.
pub const MODEL_INPUT_BYTES: usize = 49152;
/// The JPEG decoder scales each side down by this factor.
pub const DECODE_SCALE: usize = 4;
/// Status the decoder returns on success.
pub const DECODE_OK: i32 = 0;

/// Why a frame could not be turned into a model input.
#[derive(Debug, Clone, Copy, PartialEq, Eq, Structural)]
pub enum PreprocessError {
    /// The frame is too small to be scaled down by four on either side.
    InvalidScaledDimensions { width: usize, height: usize },
    /// The JPEG decoder reported an error code.
    DecodeFailed { code: i32 },
    /// The decoder reported an empty output image.
    InvalidDecodedSize { width: usize, height: usize },
    /// The decoded image's byte count does not fit in a `usize`.
    DecodedSizeOverflow,
    /// The decoded image is larger than the buffer it was decoded into.
    DecodedTooLarge { needed: usize, available: usize },
}

/// Bytes needed to hold the quarter-scale RGB888 decoding of a frame.
pub open spec fn decode_bytes_needed(frame_width: int, frame_height: int) -> int {
    (frame_width / 4) * (frame_height / 4) * 3
}

/// The side of the centred square cropped out of a `w` x `h` image.
pub open spec fn crop_side(w: int, h: int) -> int {
    if w <= h { w } else { h }
}

/// Source column of destination column `dst_x` (nearest neighbour).
pub open spec fn source_column(w: int, h: int, dst_x: int) -> int {
    (w - crop_side(w, h)) / 2 + dst_x * crop_side(w, h) / 128
}

/// Source row of destination row `dst_y` (nearest neighbour).
pub open spec fn source_row(w: int, h: int, dst_y: int) -> int {
    (h - crop_side(w, h)) / 2 + dst_y * crop_side(w, h) / 128
}

/// Offset in the decoded RGB image of byte `k` of the model input.
pub open spec fn source_offset(w: int, h: int, k: int) -> int {
    let pixel = k / 3;
    (source_row(w, h, pixel / 128) * w + source_column(w, h, pixel % 128)) * 3 + k % 3
}

/// The 128x128 RGB model input cropped and resized from a `w` x `h` decoded image.
pub open spec fn model_input(decoded: Seq<u8>, w: int, h: int) -> Seq<u8> {
    Seq::new(49152, |k: int| decoded[source_offset(w, h, k)])
}

/// The signed model input byte of an unsigned pixel byte: `pixel - 128`.
pub open spec fn quantized(pixel: u8) -> i8 {
    (pixel - 128) as i8
}

/// Makes sure the decode buffer can hold the quarter-scale RGB888 decoding
/// of a `frame_width` x `frame_height` frame, growing it with zeros if it is
/// too short. A frame with a side under four pixels is refused.
pub fn prepare_decode_buffer(frame_width: usize, frame_height: usize, decode_buf: &mut Vec<u8>) -> (r:
    Result<(), PreprocessError>)
    requires
        decode_bytes_needed(frame_width as int, frame_height as int) <= usize::MAX,
    ensures
        frame_width / 4 == 0 || frame_height / 4 == 0 ==> r == Err::<(), PreprocessError>(
            PreprocessError::InvalidScaledDimensions { width: frame_width, height: frame_height },
        ) && final(decode_buf)@ == old(decode_buf)@,
        !(frame_width / 4 == 0 || frame_height / 4 == 0) ==> r is Ok,
        r is Ok ==> final(decode_buf)@.len() >= decode_bytes_needed(frame_width as int, frame_height as int),
        r is Ok && old(decode_buf)@.len() < decode_bytes_needed(frame_width as int, frame_height as int)
            ==> final(decode_buf)@ == old(decode_buf)@ + Seq::new(
            (decode_bytes_needed(frame_width as int, frame_height as int) - old(decode_buf)@.len()) as nat,
            |i: int| 0u8,
        ),
        r is Ok && old(decode_buf)@.len() >= decode_bytes_needed(frame_width as int, frame_height as int)
            ==> final(decode_buf)@ == old(decode_buf)@,
{
    let scaled_width = frame_width / DECODE_SCALE;
    let scaled_height = frame_height / DECODE_SCALE;
    if scaled_width == 0 || scaled_height == 0 {
        return Err(PreprocessError::InvalidScaledDimensions { width: frame_width, height: frame_height });
    }
    let required = scaled_width * scaled_height * MODEL_INPUT_CHANNELS;
    if decode_buf.len() < required {
        decode_buf.resize(required, 0);
        assert(decode_buf@ =~= old(decode_buf)@ + Seq::new(
            (required - old(decode_buf)@.len()) as nat,
            |i: int| 0u8,
        ));
    }
    Ok(())
}

proof fn lemma_source_bounds(w: int, h: int, dst_x: int, dst_y: int)
    requires
        w >= 1,
        h >= 1,
        0 <= dst_x < 128,
        0 <= dst_y < 128,
    ensures
        0 <= source_column(w, h, dst_x) < w,
        0 <= source_row(w, h, dst_y) < h,
{
    let side = crop_side(w, h);
    assert(0 <= dst_x * side / 128 < side) by (nonlinear_arith)
        requires 0 <= dst_x < 128, side >= 1;
    assert(0 <= dst_y * side / 128 < side) by (nonlinear_arith)
        requires 0 <= dst_y < 128, side >= 1;
}

proof fn lemma_source_offset(w: int, h: int, dst_x: int, dst_y: int, c: int)
    requires
        0 <= dst_x < 128,
        0 <= dst_y < 128,
        0 <= c < 3,
    ensures
        source_offset(w, h, dst_y * 384 + dst_x * 3 + c)
            == (source_row(w, h, dst_y) * w + source_column(w, h, dst_x)) * 3 + c,
{
    let k = dst_y * 384 + dst_x * 3 + c;
    let pixel = dst_y * 128 + dst_x;
    lemma_fundamental_div_mod_converse(k, 3, pixel, c);
    lemma_fundamental_div_mod_converse(pixel, 128, dst_y, dst_x);
}

/// Crops the decoded `width` x `height` RGB image to its centred square and
/// resizes that square to 128x128 by nearest neighbour into `rgb_buf`.
/// `status` is what the decoder returned; `decoded` is the whole buffer it
/// decoded into, of which the first `width * height * 3` bytes are the image.
pub fn crop_and_resize(status: i32, decoded: &[u8], width: usize, height: usize, rgb_buf: &mut Vec<u8>) -> (r:
    Result<(), PreprocessError>)
    ensures
        status != DECODE_OK ==> r == Err::<(), PreprocessError>(
            PreprocessError::DecodeFailed { code: status },
        ),
        status == DECODE_OK && (width == 0 || height == 0) ==> r == Err::<(), PreprocessError>(
            PreprocessError::InvalidDecodedSize { width, height },
        ),
        status == DECODE_OK && width > 0 && height > 0 && width * height * 3 > usize::MAX ==> r == Err::<
            (),
            PreprocessError,
        >(PreprocessError::DecodedSizeOverflow),
        status == DECODE_OK && width > 0 && height > 0 && width * height * 3 <= usize::MAX && width
            * height * 3 > decoded@.len() ==> r == Err::<(), PreprocessError>(
            PreprocessError::DecodedTooLarge {
                needed: (width * height * 3) as usize,
                available: decoded@.len() as usize,
            },
        ),
        r is Err ==> final(rgb_buf)@ == old(rgb_buf)@,
        r is Ok <==> status == DECODE_OK && width > 0 && height > 0 && width * height * 3 <= decoded@.len(),
        r is Ok ==> final(rgb_buf)@ == model_input(decoded@, width as int, height as int),
{
    if status != DECODE_OK {
        return Err(PreprocessError::DecodeFailed { code: status });
    }
    if width == 0 || height == 0 {
        return Err(PreprocessError::InvalidDecodedSize { width, height });
    }
    let available = decoded.len();
    let decoded_bytes = match width.checked_mul(height) {
        Some(area) => match area.checked_mul(MODEL_INPUT_CHANNELS) {
            Some(b) => b,
            None => {
                assert(width * height * 3 == area * 3);
                return Err(PreprocessError::DecodedSizeOverflow);
            },
        },
        None => {
            assert(width * height * 3 > usize::MAX) by (nonlinear_arith)
                requires width * height > usize::MAX;
            return Err(PreprocessError::DecodedSizeOverflow);
        },
    };
    if decoded_bytes > available {
        return Err(PreprocessError::DecodedTooLarge { needed: decoded_bytes, available });
    }
    if rgb_buf.len() != MODEL_INPUT_BYTES {
        rgb_buf.resize(MODEL_INPUT_BYTES, 0);
    }
    let side = if width <= height { width } else { height };
    let crop_x = (width - side) / 2;
    let crop_y = (height - side) / 2;
    assert(side * side <= width * height) by (nonlinear_arith)
        requires side <= width, side <= height, side >= 1;
    assert(127 * side <= usize::MAX) by (nonlinear_arith)
        requires side * side * 3 <= usize::MAX, side >= 1;

    let mut x_map: Vec<usize> = Vec::with_capacity(MODEL_INPUT_WIDTH);
    let mut dst_x: usize = 0;
    while dst_x < MODEL_INPUT_WIDTH
        invariant
            dst_x <= 128,
            x_map@.len() == dst_x,
            127 * side <= usize::MAX,
            side == crop_side(width as int, height as int),
            crop_x == (width - side) / 2,
            forall|i: int| 0 <= i < dst_x ==> #[trigger] x_map@[i] == source_column(width as int, height as int, i),
        decreases 128 - dst_x,
    {
        assert(dst_x * side <= 127 * side) by (nonlinear_arith)
            requires dst_x <= 127, side >= 0;
        x_map.push(crop_x + (dst_x * side) / MODEL_INPUT_WIDTH);
        dst_x = dst_x + 1;
    }

    let mut y_map: Vec<usize> = Vec::with_capacity(MODEL_INPUT_HEIGHT);
    let mut dst_y: usize = 0;
    while dst_y < MODEL_INPUT_HEIGHT
        invariant
            dst_y <= 128,
            y_map@.len() == dst_y,
            127 * side <= usize::MAX,
            side == crop_side(width as int, height as int),
            crop_y == (height - side) / 2,
            forall|i: int| 0 <= i < dst_y ==> #[trigger] y_map@[i] == source_row(width as int, height as int, i),
        decreases 128 - dst_y,
    {
        assert(dst_y * side <= 127 * side) by (nonlinear_arith)
            requires dst_y <= 127, side >= 0;
        y_map.push(crop_y + (dst_y * side) / MODEL_INPUT_HEIGHT);
        dst_y = dst_y + 1;
    }

    let ghost w = width as int;
    let ghost h = height as int;
    let mut dst_y: usize = 0;
    while dst_y < MODEL_INPUT_HEIGHT
        invariant
            dst_y <= 128,
            width >= 1,
            height >= 1,
            w == width,
            h == height,
            width * height * 3 <= decoded@.len(),
            decoded_bytes == width * height * 3,
            rgb_buf@.len() == 49152,
            x_map@.len() == 128,
            y_map@.len() == 128,
            forall|i: int| 0 <= i < 128 ==> #[trigger] x_map@[i] == source_column(w, h, i),
            forall|i: int| 0 <= i < 128 ==> #[trigger] y_map@[i] == source_row(w, h, i),
            forall|k: int| 0 <= k < dst_y * 384 ==> #[trigger] rgb_buf@[k] == decoded@[source_offset(w, h, k)],
        decreases 128 - dst_y,
    {
        let src_y = y_map[dst_y];
        proof {
            lemma_source_bounds(w, h, 0, dst_y as int);
            assert(src_y * width * 3 <= (height - 1) * width * 3) by (nonlinear_arith)
                requires src_y < height, width >= 1;
            assert((height - 1) * width * 3 + width * 3 == width * height * 3) by (nonlinear_arith);
            assert(src_y * width <= src_y * width * 3) by (nonlinear_arith)
                requires src_y >= 0, width >= 0;
        }
        let src_row_base = src_y * width * MODEL_INPUT_CHANNELS;
        let dst_row_base = dst_y * MODEL_INPUT_WIDTH * MODEL_INPUT_CHANNELS;
        let mut dst_x: usize = 0;
        while dst_x < MODEL_INPUT_WIDTH
            invariant
                dst_x <= 128,
                dst_y < 128,
                width >= 1,
                height >= 1,
                w == width,
                h == height,
                width * height * 3 <= decoded@.len(),
                decoded_bytes == width * height * 3,
                rgb_buf@.len() == 49152,
                x_map@.len() == 128,
                forall|i: int| 0 <= i < 128 ==> #[trigger] x_map@[i] == source_column(w, h, i),
                src_y == source_row(w, h, dst_y as int),
                src_y < height,
                src_row_base == src_y * width * 3,
                src_row_base + width * 3 <= width * height * 3,
                dst_row_base == dst_y * 384,
                forall|k: int| 0 <= k < dst_y * 384 + dst_x * 3 ==> #[trigger] rgb_buf@[k] == decoded@[source_offset(w, h, k)],
            decreases 128 - dst_x,
        {
            let src_x = x_map[dst_x];
            assert(src_x == source_column(w, h, dst_x as int));
            proof {
                lemma_source_bounds(w, h, dst_x as int, dst_y as int);
                lemma_source_offset(w, h, dst_x as int, dst_y as int, 0);
                lemma_source_offset(w, h, dst_x as int, dst_y as int, 1);
                lemma_source_offset(w, h, dst_x as int, dst_y as int, 2);
                assert((src_y * w + src_x) * 3 == src_row_base + src_x * 3) by (nonlinear_arith)
                    requires src_row_base == src_y * w * 3;
                assert(src_x < width);
            }
            let src_idx = src_row_base + src_x * MODEL_INPUT_CHANNELS;
            let dst_idx = dst_row_base + dst_x * MODEL_INPUT_CHANNELS;
            rgb_buf[dst_idx] = decoded[src_idx];
            rgb_buf[dst_idx + 1] = decoded[src_idx + 1];
            rgb_buf[dst_idx + 2] = decoded[src_idx + 2];
            dst_x = dst_x + 1;
        }
        dst_y = dst_y + 1;
    }
    assert(rgb_buf@ =~= model_input(decoded@, w, h));
    Ok(())
}

/// Every byte of the model input is read from inside the decoded image: from
/// the centred square crop, at an offset below `width * height * 3`.
pub proof fn lemma_source_in_image(w: int, h: int, k: int)
    requires
        w >= 1,
        h >= 1,
        0 <= k < 49152,
    ensures
        0 <= source_offset(w, h, k) < w * h * 3,
        (w - crop_side(w, h)) / 2 <= source_column(w, h, (k / 3) % 128) < (w - crop_side(w, h)) / 2 + crop_side(w, h),
        (h - crop_side(w, h)) / 2 <= source_row(w, h, (k / 3) / 128) < (h - crop_side(w, h)) / 2 + crop_side(w, h),
{
    let side = crop_side(w, h);
    let pixel = k / 3;
    let dx = pixel % 128;
    let dy = pixel / 128;
    assert(0 <= dx * side / 128 < side) by (nonlinear_arith)
        requires 0 <= dx < 128, side >= 1;
    assert(0 <= dy * side / 128 < side) by (nonlinear_arith)
        requires 0 <= dy < 128, side >= 1;
    let sx = source_column(w, h, dx);
    let sy = source_row(w, h, dy);
    assert(sx < w);
    assert(sy < h);
    assert(0 <= (sy * w + sx) * 3 + k % 3 < w * h * 3) by (nonlinear_arith)
        requires 0 <= sx < w, 0 <= sy < h, 0 <= k % 3 < 3;
}

/// The model input is the whole centred square of side min(w, h), however
/// large, scaled to 128x128 by nearest neighbour: byte `c` of model pixel
/// (`dx`, `dy`) is byte `c` of decoded pixel
/// ((w - m) / 2 + dx * m / 128, (h - m) / 2 + dy * m / 128), where m = min(w, h).
/// So model pixel (0, 0) is the square's top-left pixel, and model pixel
/// (127, 127) samples column (w - m) / 2 + 127 * m / 128 and row
/// (h - m) / 2 + 127 * m / 128, within the last 1/128 of the square.
pub proof fn lemma_model_input_scales_whole_square(decoded: Seq<u8>, w: int, h: int, dx: int, dy: int, c: int)
    requires
        w >= 1,
        h >= 1,
        0 <= dx < 128,
        0 <= dy < 128,
        0 <= c < 3,
    ensures
        ({
            let m = if w <= h { w } else { h };
            &&& model_input(decoded, w, h)[(dy * 128 + dx) * 3 + c] == decoded[(((h - m) / 2 + dy * m / 128) * w
                + (w - m) / 2 + dx * m / 128) * 3 + c]
            &&& model_input(decoded, w, h)[c] == decoded[(((h - m) / 2) * w + (w - m) / 2) * 3 + c]
            &&& (w - m) / 2 + m - 1 - m / 128 <= (w - m) / 2 + 127 * m / 128 <= (w - m) / 2 + m - 1
            &&& (h - m) / 2 + m - 1 - m / 128 <= (h - m) / 2 + 127 * m / 128 <= (h - m) / 2 + m - 1
        }),
{
    let m = if w <= h { w } else { h };
    lemma_source_offset(w, h, dx, dy, c);
    lemma_source_offset(w, h, 0, 0, c);
    assert((dy * 128 + dx) * 3 + c == dy * 384 + dx * 3 + c);
    assert(127 * m / 128 <= m - 1) by (nonlinear_arith)
        requires m >= 1;
    assert(127 * m / 128 >= m - 1 - m / 128) by (nonlinear_arith)
        requires m >= 1;
    assert(0 * m / 128 == 0);
}

} // verus!
