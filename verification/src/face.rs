//! The integer side of BlazeFace face detection: the anchor grid the model's
//! boxes are decoded against, the quantized input tensor, and the checks on
//! the tensors the model hands back.

use vstd::prelude::*;
use vstd::arithmetic::div_mod::lemma_fundamental_div_mod_converse;

use crate::preprocess::quantized;

verus! {

/// Number of candidate boxes (and anchors) the model outputs.
pub const NUM_BOXES: usize = 896;
/// Values per box in the box tensor.
pub const BOX_COORDS: usize = 16;
/// Minimum length of the box tensor: `NUM_BOXES * BOX_COORDS`.
pub const BOXES_TENSOR_LEN: usize = 14336;

/// One anchor of the BlazeFace anchor grid: cell (`x`, `y`) of a `grid` x
/// `grid` feature map. Its centre is ((x + 0.5) / grid, (y + 0.5) / grid) in
/// normalized image coordinates; every anchor is one unit wide and high.
#[derive(Debug, Clone, Copy, PartialEq, Eq, Structural)]
pub struct AnchorCell {
    pub grid: usize,
    pub x: usize,
    pub y: usize,
}

/// Why the detector's tensors could not be used.
#[derive(Debug, Clone, Copy, PartialEq, Eq, Structural)]
pub enum DetectError {
    /// The input tensor holds fewer bytes than the model input.
    InputTensorTooShort { got: usize, expected: usize },
    /// The box tensor holds fewer values than `NUM_BOXES * BOX_COORDS`.
    BoxesTooShort { got: usize, expected: usize },
    /// The score tensor holds fewer values than `NUM_BOXES`.
    ScoresTooShort { got: usize, expected: usize },
}

/// Anchor `k` of a `grid` x `grid` map with `per_cell` anchors in each cell,
/// cells taken row by row.
pub open spec fn grid_anchor(grid: int, per_cell: int, k: int) -> AnchorCell {
    let cell = k / per_cell;
    AnchorCell { grid: grid as usize, x: (cell % grid) as usize, y: (cell / grid) as usize }
}

/// Anchor `i` of BlazeFace short range: a 16x16 map (stride 8) with two
/// anchors per cell, then an 8x8 map (stride 16) with six anchors per cell.
pub open spec fn blazeface_anchor(i: int) -> AnchorCell {
    if i < 512 {
        grid_anchor(16, 2, i)
    } else {
        grid_anchor(8, 6, i - 512)
    }
}

/// Appends the anchors of a `grid` x `grid` map with `per_cell` anchors per cell.
fn push_grid(anchors: &mut Vec<AnchorCell>, grid: usize, per_cell: usize)
    requires
        1 <= grid <= 16,
        1 <= per_cell <= 6,
        old(anchors)@.len() + grid * grid * per_cell <= 896,
    ensures
        final(anchors)@.len() == old(anchors)@.len() + grid * grid * per_cell,
        forall|i: int| 0 <= i < old(anchors)@.len() ==> #[trigger] final(anchors)@[i] == old(anchors)@[i],
        forall|k: int|
            0 <= k < grid * grid * per_cell ==> #[trigger] final(anchors)@[old(anchors)@.len() + k]
                == grid_anchor(grid as int, per_cell as int, k),
{
    let ghost base = anchors@.len();
    let ghost g = grid as int;
    let ghost p = per_cell as int;
    let mut y: usize = 0;
    while y < grid
        invariant
            1 <= grid <= 16,
            1 <= per_cell <= 6,
            g == grid,
            p == per_cell,
            base == old(anchors)@.len(),
            base + grid * grid * per_cell <= 896,
            y <= grid,
            anchors@.len() == base + y * grid * per_cell,
            forall|i: int| 0 <= i < base ==> #[trigger] anchors@[i] == old(anchors)@[i],
            forall|k: int| 0 <= k < y * grid * per_cell ==> #[trigger] anchors@[base + k] == grid_anchor(g, p, k),
        decreases grid - y,
    {
        let mut x: usize = 0;
        while x < grid
            invariant
                1 <= grid <= 16,
                1 <= per_cell <= 6,
                g == grid,
                p == per_cell,
                base == old(anchors)@.len(),
                base + grid * grid * per_cell <= 896,
                y < grid,
                x <= grid,
                anchors@.len() == base + (y * grid + x) * per_cell,
                forall|i: int| 0 <= i < base ==> #[trigger] anchors@[i] == old(anchors)@[i],
                forall|k: int|
                    0 <= k < (y * grid + x) * per_cell ==> #[trigger] anchors@[base + k] == grid_anchor(g, p, k),
            decreases grid - x,
        {
            let mut n: usize = 0;
            while n < per_cell
                invariant
                    1 <= grid <= 16,
                    1 <= per_cell <= 6,
                    g == grid,
                    p == per_cell,
                    base == old(anchors)@.len(),
                    base + grid * grid * per_cell <= 896,
                    y < grid,
                    x < grid,
                    n <= per_cell,
                    anchors@.len() == base + (y * grid + x) * per_cell + n,
                    forall|i: int| 0 <= i < base ==> #[trigger] anchors@[i] == old(anchors)@[i],
                    forall|k: int|
                        0 <= k < (y * grid + x) * per_cell + n ==> #[trigger] anchors@[base + k] == grid_anchor(
                            g,
                            p,
                            k,
                        ),
                decreases per_cell - n,
            {
                proof {
                    let cell = y * grid + x;
                    let k = cell * per_cell + n;
                    lemma_fundamental_div_mod_converse(k, p, cell as int, n as int);
                    lemma_fundamental_div_mod_converse(cell as int, g, y as int, x as int);
                    assert((y * grid + x) * per_cell + n < grid * grid * per_cell) by (nonlinear_arith)
                        requires y < grid, x < grid, n < per_cell, grid >= 1, per_cell >= 1;
                }
                anchors.push(AnchorCell { grid, x, y });
                n = n + 1;
            }
            proof {
                assert((y * grid + x + 1) * per_cell == (y * grid + x) * per_cell + per_cell) by (nonlinear_arith);
            }
            x = x + 1;
        }
        proof {
            assert((y + 1) * grid * per_cell == (y * grid + grid) * per_cell) by (nonlinear_arith);
        }
        y = y + 1;
    }
}

/// The 896 anchors of BlazeFace short range, in the order of the model's boxes.
pub fn generate_anchor_cells() -> (anchors: Vec<AnchorCell>)
    ensures
        anchors@.len() == NUM_BOXES,
        forall|i: int| 0 <= i < 896 ==> #[trigger] anchors@[i] == blazeface_anchor(i),
{
    let mut anchors: Vec<AnchorCell> = Vec::with_capacity(NUM_BOXES);
    // MediaPipe BlazeFace short range: strides 8 and 16 over a 128 pixel input.
    push_grid(&mut anchors, 128 / 8, 2);
    let ghost first = anchors@;
    push_grid(&mut anchors, 128 / 16, 6);
    assert forall|i: int| 0 <= i < 896 implies #[trigger] anchors@[i] == blazeface_anchor(i) by {
        if i < 512 {
            assert(anchors@[i] == first[0 + i]);
        } else {
            assert(anchors@[512 + (i - 512)] == grid_anchor(8, 6, i - 512));
        }
    }
    anchors
}

/// Fills the model's input tensor from the RGB model input, shifting each
/// byte by -128 into the signed range the quantized model expects. Bytes of
/// the tensor past the model input are left alone.
pub fn quantize_input(input: &mut [i8], rgb: &[u8]) -> (r: Result<(), DetectError>)
    ensures
        r is Ok <==> old(input)@.len() >= rgb@.len(),
        r is Err ==> r == Err::<(), DetectError>(
            DetectError::InputTensorTooShort { got: old(input)@.len() as usize, expected: rgb@.len() as usize },
        ) && final(input)@ == old(input)@,
        r is Ok ==> final(input)@.len() == old(input)@.len()
            && (forall|i: int| 0 <= i < rgb@.len() ==> #[trigger] final(input)@[i] == quantized(rgb@[i]))
            && (forall|i: int| rgb@.len() <= i < old(input)@.len() ==> #[trigger] final(input)@[i] == old(input)@[i]),
{
    let got = input.len();
    let expected = rgb.len();
    if got < expected {
        return Err(DetectError::InputTensorTooShort { got, expected });
    }
    let mut i: usize = 0;
    while i < expected
        invariant
            expected == rgb@.len(),
            got == old(input)@.len(),
            expected <= got,
            i <= expected,
            input@.len() == got,
            forall|j: int| 0 <= j < i ==> #[trigger] input@[j] == quantized(rgb@[j]),
            forall|j: int| i <= j < got ==> #[trigger] input@[j] == old(input)@[j],
        decreases expected - i,
    {
        input[i] = (rgb[i] as i16 - 128) as i8;
        i = i + 1;
    }
    Ok(())
}

/// Checks that the model's outputs are long enough to decode every box:
/// at least `NUM_BOXES * BOX_COORDS` box values and `NUM_BOXES` scores.
pub fn check_output_tensors(boxes_len: usize, scores_len: usize) -> (r: Result<(), DetectError>)
    ensures
        boxes_len < BOXES_TENSOR_LEN ==> r == Err::<(), DetectError>(
            DetectError::BoxesTooShort { got: boxes_len, expected: BOXES_TENSOR_LEN },
        ),
        boxes_len >= BOXES_TENSOR_LEN && scores_len < NUM_BOXES ==> r == Err::<(), DetectError>(
            DetectError::ScoresTooShort { got: scores_len, expected: NUM_BOXES },
        ),
        r is Ok <==> boxes_len >= BOXES_TENSOR_LEN && scores_len >= NUM_BOXES,
{
    if boxes_len < NUM_BOXES * BOX_COORDS {
        return Err(DetectError::BoxesTooShort { got: boxes_len, expected: NUM_BOXES * BOX_COORDS });
    }
    if scores_len < NUM_BOXES {
        return Err(DetectError::ScoresTooShort { got: scores_len, expected: NUM_BOXES });
    }
    Ok(())
}

/// The anchors go cell by cell, row by row: anchor i < 512 belongs to cell
/// i / 2 of the 16x16 map, that is column x and row y with x < 16 and
/// x + 16 * y == i / 2; anchor 512 <= i < 896 belongs to cell (i - 512) / 6 of
/// the 8x8 map, with x < 8 and x + 8 * y == (i - 512) / 6.
pub proof fn lemma_anchors_row_by_row(i: int)
    requires
        0 <= i < 896,
    ensures
        i < 512 ==> blazeface_anchor(i).grid == 16 && blazeface_anchor(i).x < 16 && blazeface_anchor(i).x + 16
            * blazeface_anchor(i).y == i / 2,
        i >= 512 ==> blazeface_anchor(i).grid == 8 && blazeface_anchor(i).x < 8 && blazeface_anchor(i).x + 8
            * blazeface_anchor(i).y == (i - 512) / 6,
{
    if i < 512 {
        let cell = i / 2;
        vstd::arithmetic::div_mod::lemma_fundamental_div_mod(cell, 16);
        assert(cell / 16 < 16);
    } else {
        let cell = (i - 512) / 6;
        vstd::arithmetic::div_mod::lemma_fundamental_div_mod(cell, 8);
        assert(cell / 8 < 8);
    }
}

} // verus!
