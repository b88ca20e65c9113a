use espcam::face::{check_output_tensors, generate_anchor_cells, quantize_input, AnchorCell, DetectError};

#[test]
fn anchors_cover_both_feature_maps() {
    let anchors = generate_anchor_cells();
    assert_eq!(anchors.len(), 896);
    assert_eq!(anchors[0], AnchorCell { grid: 16, x: 0, y: 0 });
    assert_eq!(anchors[1], AnchorCell { grid: 16, x: 0, y: 0 });
    assert_eq!(anchors[2], AnchorCell { grid: 16, x: 1, y: 0 });
    assert_eq!(anchors[32], AnchorCell { grid: 16, x: 0, y: 1 });
    assert_eq!(anchors[511], AnchorCell { grid: 16, x: 15, y: 15 });
    assert_eq!(anchors[512], AnchorCell { grid: 8, x: 0, y: 0 });
    assert_eq!(anchors[517], AnchorCell { grid: 8, x: 0, y: 0 });
    assert_eq!(anchors[518], AnchorCell { grid: 8, x: 1, y: 0 });
    assert_eq!(anchors[560], AnchorCell { grid: 8, x: 0, y: 1 });
    assert_eq!(anchors[895], AnchorCell { grid: 8, x: 7, y: 7 });
}

#[test]
fn quantize_shifts_pixels() {
    let rgb = [0u8, 1, 127, 128, 129, 255];
    let mut input = [55i8; 8];
    assert_eq!(quantize_input(&mut input, &rgb), Ok(()));
    assert_eq!(input, [-128, -127, -1, 0, 1, 127, 55, 55]);
}

#[test]
fn quantize_refuses_short_tensor() {
    let rgb = [10u8; 4];
    let mut input = [3i8; 3];
    assert_eq!(
        quantize_input(&mut input, &rgb),
        Err(DetectError::InputTensorTooShort { got: 3, expected: 4 })
    );
    assert_eq!(input, [3, 3, 3]);
}

#[test]
fn output_tensor_lengths() {
    assert_eq!(check_output_tensors(14336, 896), Ok(()));
    assert_eq!(check_output_tensors(20000, 1000), Ok(()));
    assert_eq!(
        check_output_tensors(14335, 896),
        Err(DetectError::BoxesTooShort { got: 14335, expected: 14336 })
    );
    assert_eq!(
        check_output_tensors(14336, 895),
        Err(DetectError::ScoresTooShort { got: 895, expected: 896 })
    );
    assert_eq!(
        check_output_tensors(0, 0),
        Err(DetectError::BoxesTooShort { got: 0, expected: 14336 })
    );
}
