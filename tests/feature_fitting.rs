use audio_labeller::{fit, prepare, stack, validate, ElementType, FeatureTensor, InferenceError, ValidationError};

const ROW: usize = 128 * 4;

fn rows_of(frames: usize, value: f32) -> Vec<u8> {
    let mut data = Vec::with_capacity(frames * ROW);
    for _ in 0..frames * 128 {
        data.extend_from_slice(&value.to_le_bytes());
    }
    data
}

#[test]
fn long_input_is_truncated() {
    let t = validate(ElementType::Float32, &vec![2000, 128], rows_of(2000, 0.0)).unwrap();
    let f = fit(&t);
    assert_eq!(f.frames, 1024);
    assert_eq!(f.data.len(), 1024 * ROW);
    assert!(f.data.iter().all(|&b| b == 0));
}

#[test]
fn long_input_keeps_its_first_rows() {
    let mut data = Vec::new();
    for row in 0..1100u32 {
        for _ in 0..128 {
            data.extend_from_slice(&(row as f32).to_le_bytes());
        }
    }
    let f = prepare(ElementType::Float32, &vec![1100, 128], data.clone()).unwrap();
    assert_eq!(f.frames, 1024);
    assert_eq!(f.data[..], data[..1024 * ROW]);
}

#[test]
fn short_input_is_padded_with_zero_rows() {
    let data = rows_of(500, 1.5);
    let f = prepare(ElementType::Float32, &vec![500, 128], data.clone()).unwrap();
    assert_eq!(f.frames, 1024);
    assert_eq!(f.data.len(), 1024 * ROW);
    assert_eq!(f.data[..500 * ROW], data[..]);
    for chunk in f.data[500 * ROW..].chunks(4) {
        assert_eq!(f32::from_le_bytes([chunk[0], chunk[1], chunk[2], chunk[3]]), 0.0);
    }
}

#[test]
fn exact_length_is_kept() {
    let data = rows_of(1024, -2.0);
    let f = prepare(ElementType::Float32, &vec![1024, 128], data.clone()).unwrap();
    assert_eq!(f.data, data);
}

#[test]
fn empty_input_becomes_all_zero() {
    let f = prepare(ElementType::Float32, &vec![0, 128], Vec::new()).unwrap();
    assert_eq!(f.frames, 1024);
    assert!(f.data.iter().all(|&b| b == 0));
}

#[test]
fn wrong_element_type_is_refused() {
    let r = validate(ElementType::Other, &vec![10, 128], rows_of(10, 0.0));
    assert!(matches!(r, Err(ValidationError::UnsupportedElementType)));
    let r = validate(ElementType::Other, &vec![10, 64], Vec::new());
    assert!(matches!(r, Err(ValidationError::UnsupportedElementType)));
}

#[test]
fn wrong_shape_is_refused() {
    let r = validate(ElementType::Float32, &vec![10, 64], rows_of(5, 0.0));
    assert!(matches!(r, Err(ValidationError::ShapeMismatch)));
    let r = validate(ElementType::Float32, &vec![1, 10, 128], rows_of(10, 0.0));
    assert!(matches!(r, Err(ValidationError::ShapeMismatch)));
    let r = validate(ElementType::Float32, &vec![1280], rows_of(10, 0.0));
    assert!(matches!(r, Err(ValidationError::ShapeMismatch)));
    let r = validate(ElementType::Float32, &vec![11, 128], rows_of(10, 0.0));
    assert!(matches!(r, Err(ValidationError::ShapeMismatch)));
}

#[test]
fn tensors_stack_in_order() {
    let a = FeatureTensor { frames: 2, data: rows_of(2, 1.0) };
    let b = FeatureTensor { frames: 2, data: rows_of(2, 2.0) };
    let mut expected = a.data.clone();
    expected.extend_from_slice(&b.data);
    assert_eq!(stack(&vec![a, b]).unwrap(), expected);
}

#[test]
fn inconsistent_shapes_do_not_stack() {
    let a = FeatureTensor { frames: 2, data: rows_of(2, 1.0) };
    let b = FeatureTensor { frames: 3, data: rows_of(3, 2.0) };
    assert!(matches!(stack(&vec![a, b]), Err(InferenceError::Stack)));
    assert!(matches!(stack(&Vec::new()), Err(InferenceError::Stack)));
}
