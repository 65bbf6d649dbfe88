use vstd::prelude::*;
use vstd::slice::slice_subrange;

use crate::features::{
    prepare, prepared, ElementType, FeatureTensor, ValidationError, FRAME_BYTES, NUM_FRAMES, NUM_MEL_BINS,
};

verus! {

/// What a safetensors buffer stores under `name`: whether its element type is
/// 32-bit float, its shape and its bytes; `None` when the buffer does not
/// parse or holds no tensor of that name.
pub uninterp spec fn stored_tensor(buffer: Seq<u8>, name: Seq<char>) -> Option<(bool, Seq<usize>, Seq<u8>)>;

/// What the safetensors buffer holding one 32-bit float tensor `name` of
/// the given shape and bytes is; `None` when it cannot be written.
pub uninterp spec fn serialized_f32_tensor(name: Seq<char>, shape: Seq<usize>, data: Seq<u8>) -> Option<Seq<u8>>;

/// What size of tensor data a safetensors header declares (the end offset of
/// its last tensor); `None` when the header does not parse or is invalid.
pub uninterp spec fn header_data_len(header: Seq<u8>) -> Option<usize>;

/// Relies on `serde_json::from_slice` into `safetensors::tensor::Metadata`,
/// which validates the tensors' offsets with checked arithmetic, and on
/// `Metadata::data_len`: the size of tensor data the header declares.
#[verifier::external_body]
fn declared_data_len(header: &[u8]) -> (r: Option<usize>)
    ensures
        r == header_data_len(header@),
{
    serde_json::from_slice::<safetensors::tensor::Metadata>(header).ok().map(|m| m.data_len())
}

/// The little-endian value of the bytes of `b` from position `i` up to 8.
pub open spec fn le_value(b: Seq<u8>, i: int) -> nat
    decreases 8 - i,
{
    if i < 0 || i >= 8 {
        0
    } else {
        b[i] as nat + 256 * le_value(b, i + 1)
    }
}

/// The bound `256` to the power `8 - i` on `le_value(b, i)`.
pub open spec fn le_bound(i: int) -> nat
    decreases 8 - i,
{
    if i < 0 || i >= 8 {
        1
    } else {
        256 * le_bound(i + 1)
    }
}

proof fn lemma_le_bound(i: int)
    requires
        0 <= i <= 8,
    ensures
        le_bound(i) <= le_bound(0),
        le_bound(0) == 0x1_0000_0000_0000_0000,
    decreases i,
{
    reveal_with_fuel(le_bound, 9);
    if i > 0 {
        lemma_le_bound(i - 1);
    }
}

/// The header length that a buffer declares in its first eight bytes.
pub open spec fn header_len(b: Seq<u8>) -> nat {
    le_value(b, 0)
}

/// A buffer whose declared header fits in it and whose header declares no
/// more tensor data than follows the header. On such a buffer the parser's
/// own size sum cannot overflow.
pub open spec fn sizes_fit(b: Seq<u8>) -> bool {
    &&& b.len() >= 8
    &&& header_len(b) + 8 <= b.len()
    &&& header_data_len(b.subrange(8, 8 + header_len(b) as int)) matches Some(d) && d + 8 + header_len(b)
        <= b.len()
}

/// Reads the header length: the first eight bytes, little-endian.
fn read_header_len(body: &[u8]) -> (r: u128)
    requires
        body@.len() >= 8,
    ensures
        r == header_len(body@),
        r < 0x1_0000_0000_0000_0000,
{
    let mut acc: u128 = 0;
    let mut i: usize = 8;
    proof {
        lemma_le_bound(8);
    }
    while i > 0
        invariant
            i <= 8,
            body@.len() >= 8,
            acc == le_value(body@, i as int),
            acc < le_bound(i as int),
            le_bound(0) == 0x1_0000_0000_0000_0000,
        decreases i,
    {
        proof {
            lemma_le_bound(i - 1);
            assert(le_bound(i - 1) == 256 * le_bound(i as int));
        }
        let byte = body[i - 1];
        assert(byte as int + 256 * acc < 256 * le_bound(i as int)) by (nonlinear_arith)
            requires byte < 256, acc < le_bound(i as int), acc >= 0;
        acc = byte as u128 + 256 * acc;
        i = i - 1;
    }
    acc
}

/// Relies on `safetensors::SafeTensors::deserialize` and
/// `SafeTensors::tensor`: parse the buffer and look up the tensor `name`.
/// The parser adds the declared data size to the header size unchecked, so
/// only buffers whose sizes fit are handed to it.
#[verifier::external_body]
fn read_tensor(buffer: &[u8], name: &str) -> (r: Option<(bool, Vec<usize>, Vec<u8>)>)
    requires
        sizes_fit(buffer@),
    ensures
        r matches Some((f, shape, data)) ==> stored_tensor(buffer@, name@) == Some((f, shape@, data@)),
        r is None ==> stored_tensor(buffer@, name@) is None,
{
    let tensors = safetensors::SafeTensors::deserialize(buffer).ok()?;
    let view = tensors.tensor(name).ok()?;
    Some((matches!(view.dtype(), safetensors::Dtype::F32), view.shape().to_vec(), view.data().to_vec()))
}

/// Relies on `safetensors::tensor::TensorView::new` and
/// `safetensors::serialize`: write one 32-bit float tensor into a buffer.
#[verifier::external_body]
fn write_tensor(name: &str, shape: &Vec<usize>, data: &Vec<u8>) -> (r: Option<Vec<u8>>)
    requires
        shape@.len() == 2,
        data@.len() == shape@[0] * shape@[1] * 4,
        data@.len() * 8 <= usize::MAX,
    ensures
        r matches Some(b) ==> serialized_f32_tensor(name@, shape@, data@) == Some(b@),
        r is None ==> serialized_f32_tensor(name@, shape@, data@) is None,
{
    let view = safetensors::tensor::TensorView::new(safetensors::Dtype::F32, shape.clone(), data.as_slice()).ok()?;
    safetensors::serialize([(name, view)], None).ok()
}

/// Why a request body was refused.
#[derive(Debug, Clone, Copy, PartialEq, Eq, Structural)]
pub enum RequestError {
    /// The body is not a safetensors buffer holding a tensor `fbank`, or its
    /// declared sizes exceed the body.
    Malformed,
    /// The `fbank` tensor has the wrong element type or shape.
    Invalid(ValidationError),
}

/// The element type that the stored tensor declares.
pub open spec fn element_of(is_f32: bool) -> ElementType {
    if is_f32 {
        ElementType::Float32
    } else {
        ElementType::Other
    }
}

/// Reads the `fbank` tensor of a request body, validates it and fits its time
/// axis.
pub fn decode_request(body: &[u8]) -> (r: Result<FeatureTensor, RequestError>)
    ensures
        !sizes_fit(body@) ==> r matches Err(RequestError::Malformed),
        sizes_fit(body@) ==> match stored_tensor(body@, "fbank"@) {
            None => r matches Err(RequestError::Malformed),
            Some((is_f32, shape, data)) => match prepared(element_of(is_f32), shape, data) {
                Ok(bytes) => r matches Ok(t) && t.wf() && t.frames == NUM_FRAMES && t.data@ == bytes,
                Err(e) => r matches Err(RequestError::Invalid(e2)) && e2 == e,
            },
        },
{
    if body.len() < 8 {
        return Err(RequestError::Malformed);
    }
    let n = read_header_len(body);
    if n > (body.len() - 8) as u128 {
        return Err(RequestError::Malformed);
    }
    let n: usize = n as usize;
    let header = slice_subrange(body, 8, 8 + n);
    match declared_data_len(header) {
        None => {
            return Err(RequestError::Malformed);
        },
        Some(d) => {
            if d > body.len() - 8 - n {
                return Err(RequestError::Malformed);
            }
        },
    }
    match read_tensor(body, "fbank") {
        None => Err(RequestError::Malformed),
        Some((is_f32, shape, data)) => {
            let element = if is_f32 {
                ElementType::Float32
            } else {
                ElementType::Other
            };
            match prepare(element, &shape, data) {
                Ok(t) => Ok(t),
                Err(e) => Err(RequestError::Invalid(e)),
            }
        },
    }
}

/// The request body that carries a filter bank of `frames` rows: one 32-bit
/// float tensor `fbank` of shape `[frames, NUM_MEL_BINS]`.
pub fn encode_request(frames: usize, data: &Vec<u8>) -> (r: Option<Vec<u8>>)
    requires
        data@.len() == frames * FRAME_BYTES,
        data@.len() * 8 <= usize::MAX,
    ensures
        r matches Some(b) ==> serialized_f32_tensor("fbank"@, seq![frames, NUM_MEL_BINS], data@) == Some(b@),
        r is None ==> serialized_f32_tensor("fbank"@, seq![frames, NUM_MEL_BINS], data@) is None,
{
    let mut shape: Vec<usize> = Vec::new();
    shape.push(frames);
    shape.push(NUM_MEL_BINS);
    assert(shape@ =~= seq![frames, NUM_MEL_BINS]);
    assert(frames * FRAME_BYTES == frames * NUM_MEL_BINS * 4) by (nonlinear_arith)
        requires FRAME_BYTES == 512, NUM_MEL_BINS == 128;
    write_tensor("fbank", &shape, data)
}

} // verus!
