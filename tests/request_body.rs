use audio_labeller::{decode_request, encode_request, RequestError, ValidationError};
use safetensors::{serialize, tensor::TensorView, Dtype};

fn rows_of(frames: usize, value: f32) -> Vec<u8> {
    let mut data = Vec::new();
    for _ in 0..frames * 128 {
        data.extend_from_slice(&value.to_le_bytes());
    }
    data
}

#[test]
fn encoded_body_decodes_to_the_fitted_tensor() {
    let data = rows_of(3, 0.25);
    let body = encode_request(3, &data).unwrap();
    assert_ne!(body, data);
    let t = decode_request(&body).unwrap();
    assert_eq!(t.frames, 1024);
    assert_eq!(t.data[..data.len()], data[..]);
    assert!(t.data[data.len()..].iter().all(|&b| b == 0));
}

#[test]
fn encoding_needs_matching_bytes() {
    assert_eq!(encode_request(2, &rows_of(1, 1.0)), None);
}

#[test]
fn garbage_body_is_malformed() {
    assert_eq!(decode_request(b"not a tensor").err(), Some(RequestError::Malformed));
    assert_eq!(decode_request(&[]).err(), Some(RequestError::Malformed));
}

#[test]
fn body_without_fbank_is_malformed() {
    let data = rows_of(1, 1.0);
    let view = TensorView::new(Dtype::F32, vec![1, 128], &data).unwrap();
    let body = serialize([("other", view)], None).unwrap();
    assert_eq!(decode_request(&body).err(), Some(RequestError::Malformed));
}

#[test]
fn integer_fbank_is_refused() {
    let data = vec![0u8; 4 * 128];
    let view = TensorView::new(Dtype::I32, vec![1, 128], &data).unwrap();
    let body = serialize([("fbank", view)], None).unwrap();
    assert_eq!(
        decode_request(&body).err(),
        Some(RequestError::Invalid(ValidationError::UnsupportedElementType))
    );
}

#[test]
fn wrong_mel_bins_are_refused() {
    let data = vec![0u8; 4 * 64];
    let view = TensorView::new(Dtype::F32, vec![1, 64], &data).unwrap();
    let body = serialize([("fbank", view)], None).unwrap();
    assert_eq!(
        decode_request(&body).err(),
        Some(RequestError::Invalid(ValidationError::ShapeMismatch))
    );
}

#[test]
fn declared_sizes_beyond_the_body_are_malformed() {
    let size: u64 = (1u64 << 61) - 1;
    let mut entries = Vec::new();
    for i in 0..8u64 {
        entries.push(format!(
            "\"t{}\":{{\"dtype\":\"U8\",\"shape\":[{}],\"data_offsets\":[{},{}]}}",
            i,
            size,
            i * size,
            (i + 1) * size
        ));
    }
    let header = format!("{{{}}}", entries.join(","));
    let mut body = (header.len() as u64).to_le_bytes().to_vec();
    body.extend_from_slice(header.as_bytes());
    assert_eq!(decode_request(&body).err(), Some(RequestError::Malformed));
}

#[test]
fn header_longer_than_the_body_is_malformed() {
    let mut body = 1000u64.to_le_bytes().to_vec();
    body.extend_from_slice(b"{}");
    assert_eq!(decode_request(&body).err(), Some(RequestError::Malformed));
}
