use vstd::prelude::*;

use crate::scheduler::InferenceError;

verus! {

/// Number of mel bins in every frame of a feature tensor.
pub const NUM_MEL_BINS: usize = 128;

/// Number of frames that every admitted tensor is fitted to.
pub const NUM_FRAMES: usize = 1024;

/// Bytes in one frame: `NUM_MEL_BINS` little-endian 32-bit floats.
pub const FRAME_BYTES: usize = 512;

/// Bytes in a fitted tensor: `NUM_FRAMES` frames.
pub const FITTED_BYTES: usize = 524288;

/// The element type that a submitted tensor declares.
#[derive(Debug, Clone, Copy, PartialEq, Eq, Structural)]
pub enum ElementType {
    Float32,
    Other,
}

/// Why a submitted tensor was refused before admission.
#[derive(Debug, Clone, Copy, PartialEq, Eq, Structural)]
pub enum ValidationError {
    ShapeMismatch,
    UnsupportedElementType,
}

/// A 2-D feature tensor of `frames` rows of `NUM_MEL_BINS` 32-bit floats,
/// held as its little-endian bytes, row after row.
pub struct FeatureTensor {
    pub frames: usize,
    pub data: Vec<u8>,
}

impl FeatureTensor {
    /// The bytes hold exactly `frames` whole rows.
    pub open spec fn wf(&self) -> bool {
        self.data@.len() == self.frames * FRAME_BYTES
    }
}

/// A shape and byte count that describe a `[frames, NUM_MEL_BINS]` tensor.
pub open spec fn shape_ok(shape: Seq<usize>, data_len: nat) -> bool {
    &&& shape.len() == 2
    &&& shape[1] == NUM_MEL_BINS
    &&& data_len == shape[0] * FRAME_BYTES
}

/// The time axis fitted to `NUM_FRAMES` rows: the first rows are kept and any
/// missing rows at the tail are zero (the bytes of `0.0`).
pub open spec fn fitted(data: Seq<u8>) -> Seq<u8> {
    if data.len() >= FITTED_BYTES {
        data.subrange(0, FITTED_BYTES as int)
    } else {
        data + Seq::new((FITTED_BYTES - data.len()) as nat, |i: int| 0u8)
    }
}

/// What admission makes of a submitted tensor: the fitted bytes, or why it
/// is refused (the element type is checked first).
pub open spec fn prepared(element: ElementType, shape: Seq<usize>, data: Seq<u8>) -> Result<
    Seq<u8>,
    ValidationError,
> {
    if element != ElementType::Float32 {
        Err(ValidationError::UnsupportedElementType)
    } else if !shape_ok(shape, data.len()) {
        Err(ValidationError::ShapeMismatch)
    } else {
        Ok(fitted(data))
    }
}

/// Checks that a submitted tensor is a float32 `[frames, NUM_MEL_BINS]`
/// tensor whose bytes match its shape, and wraps it. The element type is
/// checked first.
pub fn validate(element: ElementType, shape: &Vec<usize>, data: Vec<u8>) -> (r: Result<
    FeatureTensor,
    ValidationError,
>)
    ensures
        r matches Err(ValidationError::UnsupportedElementType) <==> element != ElementType::Float32,
        r matches Err(ValidationError::ShapeMismatch) <==> element == ElementType::Float32
            && !shape_ok(shape@, data@.len()),
        r matches Ok(t) ==> t.wf() && t.frames == shape@[0] && t.data@ == data@,
{
    if element != ElementType::Float32 {
        return Err(ValidationError::UnsupportedElementType);
    }
    if shape.len() != 2 || shape[1] != NUM_MEL_BINS {
        return Err(ValidationError::ShapeMismatch);
    }
    let frames: usize = shape[0];
    let len: usize = data.len();
    if len % FRAME_BYTES != 0 || len / FRAME_BYTES != frames {
        proof {
            if data@.len() == frames * FRAME_BYTES {
                assert(len % 512 == 0 && len / 512 == frames) by (nonlinear_arith)
                    requires len == frames * 512;
            }
        }
        return Err(ValidationError::ShapeMismatch);
    }
    proof {
        assert(len == frames * 512) by (nonlinear_arith)
            requires len % 512 == 0, len / 512 == frames;
    }
    Ok(FeatureTensor { frames, data })
}

/// Fits a tensor to `NUM_FRAMES` rows: longer tensors keep their first rows,
/// shorter ones get zero rows at the tail.
pub fn fit(tensor: &FeatureTensor) -> (r: FeatureTensor)
    requires
        tensor.wf(),
    ensures
        r.wf(),
        r.frames == NUM_FRAMES,
        r.data@ == fitted(tensor.data@),
{
    let src = &tensor.data;
    let mut out: Vec<u8> = Vec::with_capacity(FITTED_BYTES);
    let mut i: usize = 0;
    while i < FITTED_BYTES
        invariant
            i <= FITTED_BYTES,
            out@.len() == i,
            forall|j: int| 0 <= j < i ==> out@[j] == fitted(src@)[j],
        decreases FITTED_BYTES - i,
    {
        if i < src.len() {
            out.push(src[i]);
        } else {
            out.push(0u8);
        }
        i = i + 1;
    }
    assert(out@ =~= fitted(src@));
    FeatureTensor { frames: NUM_FRAMES, data: out }
}

/// Validates a submitted tensor and fits its time axis.
pub fn prepare(element: ElementType, shape: &Vec<usize>, data: Vec<u8>) -> (r: Result<
    FeatureTensor,
    ValidationError,
>)
    ensures
        r matches Err(ValidationError::UnsupportedElementType) <==> element != ElementType::Float32,
        r matches Err(ValidationError::ShapeMismatch) <==> element == ElementType::Float32
            && !shape_ok(shape@, data@.len()),
        r matches Ok(t) ==> t.wf() && t.frames == NUM_FRAMES && t.data@ == fitted(data@),
        match prepared(element, shape@, data@) {
            Ok(bytes) => r matches Ok(t) && t.data@ == bytes,
            Err(e) => r matches Err(e2) && e2 == e,
        },
{
    match validate(element, shape, data) {
        Ok(t) => Ok(fit(&t)),
        Err(e) => Err(e),
    }
}

/// The tensors of a batch share one shape, so they can be stacked.
pub open spec fn stackable(ts: Seq<FeatureTensor>) -> bool {
    &&& ts.len() > 0
    &&& forall|i: int|
        0 <= i < ts.len() ==> (#[trigger] ts[i]).frames == ts[0].frames && ts[i].data@.len()
            == ts[0].data@.len()
}

/// The bytes of the tensors, one after the other: the batch tensor of shape
/// `[ts.len(), frames, NUM_MEL_BINS]`.
pub open spec fn stacked(ts: Seq<FeatureTensor>) -> Seq<u8>
    decreases ts.len(),
{
    if ts.len() == 0 {
        Seq::empty()
    } else {
        stacked(ts.drop_last()) + ts.last().data@
    }
}

/// Stacks a batch's tensors along a new leading axis; fails with a stacking
/// error when the batch is empty or its tensors differ in shape.
pub fn stack(tensors: &Vec<FeatureTensor>) -> (r: Result<Vec<u8>, InferenceError>)
    ensures
        r is Ok <==> stackable(tensors@),
        r matches Ok(bytes) ==> bytes@ == stacked(tensors@),
        r matches Err(e) ==> e == InferenceError::Stack,
{
    if tensors.len() == 0 {
        return Err(InferenceError::Stack);
    }
    let frames: usize = tensors[0].frames;
    let len: usize = tensors[0].data.len();
    let mut out: Vec<u8> = Vec::new();
    let mut i: usize = 0;
    while i < tensors.len()
        invariant
            0 < tensors@.len(),
            i <= tensors@.len(),
            frames == tensors@[0].frames,
            len == tensors@[0].data@.len(),
            forall|j: int|
                0 <= j < i ==> (#[trigger] tensors@[j]).frames == frames && tensors@[j].data@.len()
                    == len,
            out@ == stacked(tensors@.subrange(0, i as int)),
        decreases tensors.len() - i,
    {
        let t = &tensors[i];
        if t.frames != frames || t.data.len() != len {
            return Err(InferenceError::Stack);
        }
        let ghost before = out@;
        out.extend_from_slice(t.data.as_slice());
        proof {
            assert(out@ =~= before + t.data@);
            assert(tensors@[i as int].frames == frames && tensors@[i as int].data@.len() == len);
            assert(tensors@.subrange(0, i + 1).drop_last() =~= tensors@.subrange(0, i as int));
        }
        i = i + 1;
    }
    assert(tensors@.subrange(0, tensors@.len() as int) =~= tensors@);
    Ok(out)
}

} // verus!
