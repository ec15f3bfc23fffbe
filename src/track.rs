//! Decisions made around a native subtitle track.

use vstd::prelude::*;

verus! {

/// Largest value of the native engine's signed 32-bit length fields.
pub const NATIVE_LEN_MAX: usize = 0x7fff_ffff;

/// Allocation failure in the native engine.
#[derive(Debug, PartialEq, Eq, Structural, Clone, Copy)]
pub struct AllocError();

/// A chunk of data whose byte length does not fit the native engine's
/// signed 32-bit length field.
#[derive(Debug, PartialEq, Eq, Structural, Clone, Copy)]
pub struct SliceTooLong();

/// Optional capabilities of a track, toggled with `set_feature`.
#[derive(Debug, PartialEq, Eq, Structural, Clone, Copy)]
#[non_exhaustive]
pub enum Feature {
    /// Extensions that display authored ASS subtitles incorrectly, but help
    /// applications that convert from other formats.
    IncompatibleExtensions,
    /// Bracket pairing of the revised Unicode Bidirectional Algorithm
    /// (Unicode 6.3). Unavailable when the engine was built against an old
    /// FriBidi.
    BidirectionalBrackets,
    /// Process each event's text as a whole instead of in VSFilter-compatible
    /// segments.
    WholeTextLayout,
    /// Break lines by the Unicode Line Breaking Algorithm. Unavailable when
    /// the engine was built without libunibreak.
    WrapUnicode,
}

/// The native engine's code for a feature.
pub open spec fn feature_code(f: Feature) -> i32 {
    match f {
        Feature::IncompatibleExtensions => 0,
        Feature::BidirectionalBrackets => 1,
        Feature::WholeTextLayout => 2,
        Feature::WrapUnicode => 3,
    }
}

impl Feature {
    /// The code the native engine knows this feature by.
    pub fn code(&self) -> (r: i32)
        ensures
            r == feature_code(*self),
    {
        match self {
            Feature::IncompatibleExtensions => 0,
            Feature::BidirectionalBrackets => 1,
            Feature::WholeTextLayout => 2,
            Feature::WrapUnicode => 3,
        }
    }
}

/// The native length of a chunk of subtitle data, or `SliceTooLong` when its
/// byte length exceeds the native signed 32-bit range. Nothing may be handed
/// to the engine in the second case.
pub fn chunk_length(data: &str) -> (r: Result<i32, SliceTooLong>)
    ensures
        r is Ok <==> data.len() <= NATIVE_LEN_MAX,
        r is Ok ==> r->Ok_0 as usize == data.len(),
{
    let n = data.len();
    if n <= NATIVE_LEN_MAX {
        Ok(n as i32)
    } else {
        Err(SliceTooLong())
    }
}

/// The outcome of toggling a feature, from the native status code: `Some`
/// when the engine reports success (code zero), `None` when it reports the
/// feature unknown or unavailable, which callers must tolerate.
pub fn feature_status(code: i32) -> (r: Option<()>)
    ensures
        r is Some <==> code == 0,
{
    if code == 0 {
        Some(())
    } else {
        None
    }
}

/// The index of a newly allocated style or event, from the native return
/// value: a non-negative value is the index, a negative one an allocation
/// failure.
pub fn alloc_index(code: i32) -> (r: Result<i32, AllocError>)
    ensures
        r is Ok <==> code >= 0,
        r is Ok ==> r->Ok_0 == code,
{
    if code >= 0 {
        Ok(code)
    } else {
        Err(AllocError())
    }
}

} // verus!
