//! Native sample formats and their decoding to the canonical sample type.
//!
//! The canonical sample is an `i32` whose full scale is the full `i32` range:
//! a narrower integer sample is widened by scaling it up to that range.
use crate::error::CaptureError;
use vstd::prelude::*;

verus! {

/// Every sample representation an input device may report.
#[derive(Clone, Copy, Debug, PartialEq, Eq, Structural)]
pub enum NativeFormat {
    I8,
    I16,
    I32,
    I64,
    U8,
    U16,
    U32,
    U64,
    F32,
    F64,
}

/// The native formats that capture accepts.
#[derive(Clone, Copy, Debug, PartialEq, Eq, Structural)]
pub enum SampleKind {
    I8,
    I16,
    I32,
    F32,
}

/// The decoder for `format`, if there is one.
pub open spec fn kind_of(format: NativeFormat) -> Option<SampleKind> {
    match format {
        NativeFormat::I8 => Some(SampleKind::I8),
        NativeFormat::I16 => Some(SampleKind::I16),
        NativeFormat::I32 => Some(SampleKind::I32),
        NativeFormat::F32 => Some(SampleKind::F32),
        _ => None,
    }
}

/// Chooses the decoder for a device's native format; any format but signed
/// 8, 16 or 32-bit integers and 32-bit floats is refused.
pub fn sample_kind(format: NativeFormat) -> (r: Result<SampleKind, CaptureError>)
    ensures
        kind_of(format) is Some ==> r == Ok::<SampleKind, CaptureError>(kind_of(format)->0),
        kind_of(format) is None ==> r == Err::<SampleKind, CaptureError>(CaptureError::UnsupportedFormat),
{
    match format {
        NativeFormat::I8 => Ok(SampleKind::I8),
        NativeFormat::I16 => Ok(SampleKind::I16),
        NativeFormat::I32 => Ok(SampleKind::I32),
        NativeFormat::F32 => Ok(SampleKind::F32),
        _ => Err(CaptureError::UnsupportedFormat),
    }
}

/// Scale from an 8-bit sample to the canonical range.
pub const I8_SCALE: i32 = 16777216;

/// Scale from a 16-bit sample to the canonical range.
pub const I16_SCALE: i32 = 65536;

/// One block of integer samples as the device delivered it. Blocks of
/// 32-bit float samples are scaled to `i32` before they reach the library.
pub enum RawBlock {
    I8(Vec<i8>),
    I16(Vec<i16>),
    I32(Vec<i32>),
}

pub open spec fn widen_i8(x: i8) -> i32 {
    (x as int * I8_SCALE as int) as i32
}

pub open spec fn widen_i16(x: i16) -> i32 {
    (x as int * I16_SCALE as int) as i32
}

/// The canonical samples of a block, in order.
pub open spec fn decoded(block: RawBlock) -> Seq<i32> {
    match block {
        RawBlock::I8(v) => v@.map_values(|x: i8| widen_i8(x)),
        RawBlock::I16(v) => v@.map_values(|x: i16| widen_i16(x)),
        RawBlock::I32(v) => v@,
    }
}

/// Converts every sample of the block to the canonical type, in order.
pub fn decode(block: &RawBlock) -> (r: Vec<i32>)
    ensures
        r@ == decoded(*block),
{
    match block {
        RawBlock::I8(v) => {
            let mut out: Vec<i32> = Vec::with_capacity(v.len());
            let mut i: usize = 0;
            while i < v.len()
                invariant
                    i <= v@.len(),
                    out@.len() == i,
                    forall|j: int| 0 <= j < i ==> out@[j] == widen_i8(#[trigger] v@[j]),
                decreases v@.len() - i,
            {
                out.push((v[i] as i32) * I8_SCALE);
                i += 1;
            }
            assert(out@ =~= v@.map_values(|x: i8| widen_i8(x)));
            out
        },
        RawBlock::I16(v) => {
            let mut out: Vec<i32> = Vec::with_capacity(v.len());
            let mut i: usize = 0;
            while i < v.len()
                invariant
                    i <= v@.len(),
                    out@.len() == i,
                    forall|j: int| 0 <= j < i ==> out@[j] == widen_i16(#[trigger] v@[j]),
                decreases v@.len() - i,
            {
                out.push((v[i] as i32) * I16_SCALE);
                i += 1;
            }
            assert(out@ =~= v@.map_values(|x: i16| widen_i16(x)));
            out
        },
        RawBlock::I32(v) => v.clone(),
    }
}

/// Decoding reaches the ends of the canonical range: the most negative
/// native value becomes `i32::MIN` and the most positive one lands within
/// one native step below `i32::MAX`; 32-bit samples are already canonical.
pub proof fn lemma_full_scale()
    ensures
        widen_i8(i8::MIN) == i32::MIN,
        i32::MAX - I8_SCALE < widen_i8(i8::MAX) <= i32::MAX,
        widen_i16(i16::MIN) == i32::MIN,
        i32::MAX - I16_SCALE < widen_i16(i16::MAX) <= i32::MAX,
        forall|v: Vec<i32>| #[trigger] decoded(RawBlock::I32(v)) == v@,
{
}

} // verus!
