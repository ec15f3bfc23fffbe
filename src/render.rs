//! Decisions made around a native renderer: narrowing of geometry and cache
//! settings, font lookup settings with their paths, render timestamps, and
//! the change-detection slot of a render call.

use vstd::prelude::*;
use vstd::utf8::{decode_utf8, encode_scalar, encode_utf8, has_width_1_encoding, is_scalar, valid_utf8};
use crate::library::{utf8_text, FontProvider, font_provider_code};

verus! {

/// Describes how the images of a render call differ from those of the
/// previous call on the same renderer.
#[derive(Debug, PartialEq, Eq, Structural, Clone, Copy)]
#[non_exhaustive]
pub enum ChangeDetection {
    /// There is no change.
    Identical,
    /// The content is the same, but at other positions.
    DifferentPositions,
    /// The content differs.
    DifferentContent,
}

/// The native code of a change-detection value.
pub open spec fn change_code(c: ChangeDetection) -> i32 {
    match c {
        ChangeDetection::Identical => 0,
        ChangeDetection::DifferentPositions => 1,
        ChangeDetection::DifferentContent => 2,
    }
}

/// The change-detection value of a native code, if it names one.
pub open spec fn change_of(code: i32) -> Option<ChangeDetection> {
    if code == 0 {
        Some(ChangeDetection::Identical)
    } else if code == 1 {
        Some(ChangeDetection::DifferentPositions)
    } else if code == 2 {
        Some(ChangeDetection::DifferentContent)
    } else {
        None
    }
}

/// A native integer that names no value of the type it was read as.
/// Holds the type's name and the integer.
#[derive(Debug)]
pub struct FromIntError(pub String, pub i32);

impl ChangeDetection {
    /// The code the native engine knows this value by.
    pub fn code(&self) -> (r: i32)
        ensures
            r == change_code(*self),
    {
        match self {
            ChangeDetection::Identical => 0,
            ChangeDetection::DifferentPositions => 1,
            ChangeDetection::DifferentContent => 2,
        }
    }

    /// Reads a native change-detection code; a code outside the three known
    /// ones is an error that names the value.
    pub fn from_code(value: i32) -> (r: Result<ChangeDetection, FromIntError>)
        ensures
            r is Ok <==> change_of(value) is Some,
            r is Ok ==> change_of(value) == Some(r->Ok_0),
            r is Err ==> r->Err_0.1 == value && r->Err_0.0@ == "ChangeDetection"@,
    {
        match value {
            0 => Ok(ChangeDetection::Identical),
            1 => Ok(ChangeDetection::DifferentPositions),
            2 => Ok(ChangeDetection::DifferentContent),
            val => {
                let name = "ChangeDetection".to_owned();
                Err(FromIntError(name, val))
            },
        }
    }
}

impl TryFrom<i32> for ChangeDetection {
    type Error = FromIntError;

    fn try_from(value: i32) -> (r: Result<Self, Self::Error>)
        ensures
            r is Ok <==> change_of(value) is Some,
            r is Ok ==> change_of(value) == Some(r->Ok_0),
            r is Err ==> r->Err_0.1 == value && r->Err_0.0@ == "ChangeDetection"@,
    {
        ChangeDetection::from_code(value)
    }
}

/// The outcome of a conversion is stated by the `ensures` of `try_from`.
impl vstd::std_specs::convert::TryFromSpecImpl<i32> for ChangeDetection {
    open spec fn obeys_try_from_spec() -> bool {
        false
    }

    open spec fn try_from_spec(v: i32) -> Result<Self, FromIntError> {
        match change_of(v) {
            Some(c) => Ok(c),
            None => Err(arbitrary()),
        }
    }
}


/// Text shaping levels of the renderer.
#[derive(Debug, PartialEq, Eq, Structural, Clone, Copy)]
#[non_exhaustive]
pub enum ShapingLevel {
    /// Fast, font-agnostic shaper that can only substitute.
    Simple,
    /// Slower shaper using OpenType for substitutions and positioning.
    Complex,
}

/// The native code of a shaping level.
pub open spec fn shaping_code(l: ShapingLevel) -> i32 {
    match l {
        ShapingLevel::Simple => 0,
        ShapingLevel::Complex => 1,
    }
}

impl ShapingLevel {
    /// The code the native engine knows this level by.
    pub fn code(&self) -> (r: i32)
        ensures
            r == shaping_code(*self),
    {
        match self {
            ShapingLevel::Simple => 0,
            ShapingLevel::Complex => 1,
        }
    }
}

impl Default for ShapingLevel {
    fn default() -> (r: Self)
        ensures
            r == ShapingLevel::Complex,
    {
        ShapingLevel::Complex
    }
}

/// Font hinting methods. Any method but `Disabled` reduces compatibility
/// with VSFilter and may break scripts that rely on smooth scaling.
#[derive(Debug, PartialEq, Eq, Structural, Clone, Copy)]
#[non_exhaustive]
pub enum FontHinting {
    /// No hinting.
    Disabled,
    /// FreeType's light autohinter.
    Light,
    /// FreeType's normal autohinter.
    Normal,
    /// The font's native hinter.
    Native,
}

/// The native code of a hinting method.
pub open spec fn hinting_code(h: FontHinting) -> i32 {
    match h {
        FontHinting::Disabled => 0,
        FontHinting::Light => 1,
        FontHinting::Normal => 2,
        FontHinting::Native => 3,
    }
}

impl FontHinting {
    /// The code the native engine knows this method by.
    pub fn code(&self) -> (r: i32)
        ensures
            r == hinting_code(*self),
    {
        match self {
            FontHinting::Disabled => 0,
            FontHinting::Light => 1,
            FontHinting::Normal => 2,
            FontHinting::Native => 3,
        }
    }
}

impl Default for FontHinting {
    fn default() -> (r: Self)
        ensures
            r == FontHinting::Disabled,
    {
        FontHinting::Disabled
    }
}

/// A frame or storage dimension as the engine takes it: the value itself
/// when it fits a native `int`, zero (the engine's "unset") otherwise. The
/// geometry setters are infallible, so a value out of range resets the
/// dimension instead of failing.
pub fn frame_extent(v: u32) -> (r: i32)
    ensures
        r == (if v <= i32::MAX { v as i32 } else { 0i32 }),
{
    if v <= 0x7fff_ffffu32 {
        v as i32
    } else {
        0
    }
}

/// A cache limit as the engine takes it: the value, saturated at the
/// largest native `int`.
pub fn cache_limit(v: u32) -> (r: i32)
    ensures
        r == (if v <= i32::MAX { v as i32 } else { i32::MAX }),
{
    if v <= 0x7fff_ffffu32 {
        v as i32
    } else {
        i32::MAX
    }
}

/// A render timestamp in whole milliseconds as the engine takes it (a native
/// `long long`), or `None` when it does not fit: the render then fails
/// without a native call.
pub fn render_time(ms: i128) -> (r: Option<i64>)
    ensures
        r is Some <==> i64::MIN <= ms <= i64::MAX,
        r is Some ==> r->Some_0 == ms,
{
    if i64::MIN as i128 <= ms && ms <= i64::MAX as i128 {
        Some(ms as i64)
    } else {
        None
    }
}

/// The change-detection slot after a render call. A caller that passed no
/// slot gets none back; one that did gets the value the engine reported in
/// it, and an error when that code is outside the known ones, which means
/// the engine changed incompatibly.
pub fn next_change(slot: Option<ChangeDetection>, reported: i32) -> (r: Result<
    Option<ChangeDetection>,
    FromIntError,
>)
    ensures
        slot is None ==> r == Ok::<Option<ChangeDetection>, FromIntError>(None),
        slot is Some ==> (r is Ok <==> change_of(reported) is Some),
        slot is Some && r is Ok ==> r->Ok_0 == change_of(reported),
        r is Err ==> r->Err_0.1 == reported && r->Err_0.0@ == "ChangeDetection"@,
{
    match slot {
        Some(_) => match ChangeDetection::from_code(reported) {
            Ok(c) => Ok(Some(c)),
            Err(e) => Err(e),
        },
        None => Ok(None),
    }
}

/// A path that cannot be handed to the engine.
#[derive(Debug, PartialEq)]
pub enum PathErr {
    /// The path holds a zero byte; holds the offset of the first one and the
    /// path's bytes.
    NullInPath(usize, Vec<u8>),
    /// The path is not valid UTF-8; holds its bytes.
    NotUtf8(Vec<u8>),
}

/// True when a path, given as its bytes, can be handed to the engine: it is
/// valid UTF-8 and holds no zero byte.
pub open spec fn path_accepted(raw: Seq<u8>) -> bool {
    valid_utf8(raw) && !raw.contains(0u8)
}

/// The NUL-terminated string the engine receives for an accepted path.
pub open spec fn c_string_of(raw: Seq<u8>) -> Seq<u8> {
    raw.push(0u8)
}

/// True when `e` is the error owed for the rejected path `raw`: invalid
/// UTF-8 is reported first, with the path's bytes; otherwise the offset of
/// the first zero byte, with the path's bytes.
pub open spec fn path_error_for(raw: Seq<u8>, e: PathErr) -> bool {
    match e {
        PathErr::NotUtf8(b) => !valid_utf8(raw) && b@ == raw,
        PathErr::NullInPath(p, b) => {
            &&& b@ == raw
            &&& valid_utf8(raw)
            &&& p < raw.len()
            &&& raw[p as int] == 0u8
            &&& forall|j: int| 0 <= j < p ==> raw[j] != 0u8
        },
    }
}

/// Converts a path, given as its bytes, into the NUL-terminated UTF-8 string
/// that the engine takes. A path that is not UTF-8 or that holds a zero byte
/// is rejected before anything reaches the engine.
pub fn c_path(raw: &[u8]) -> (r: Result<Vec<u8>, PathErr>)
    ensures
        r is Ok <==> path_accepted(raw@),
        r is Ok ==> r->Ok_0@ == c_string_of(raw@),
        r is Err ==> path_error_for(raw@, r->Err_0),
{
    match utf8_text(raw) {
        Some(_) => {},
        None => {
            return Err(PathErr::NotUtf8(vstd::slice::slice_to_vec(raw)));
        },
    }
    let mut out: Vec<u8> = Vec::new();
    let mut i: usize = 0;
    while i < raw.len()
        invariant
            i <= raw@.len(),
            valid_utf8(raw@),
            out@ == raw@.subrange(0, i as int),
            forall|j: int| 0 <= j < i ==> raw@[j] != 0u8,
        decreases raw@.len() - i,
    {
        if raw[i] == 0 {
            return Err(PathErr::NullInPath(i, vstd::slice::slice_to_vec(raw)));
        }
        out.push(raw[i]);
        i = i + 1;
    }
    proof {
        assert(raw@.subrange(0, raw@.len() as int) =~= raw@);
        assert(!raw@.contains(0u8));
    }
    out.push(0);
    Ok(out)
}

/// No byte of the UTF-8 encoding of a character other than NUL is zero.
proof fn lemma_scalar_bytes_nonzero(c: char)
    requires
        c != '\0',
    ensures
        forall|k: int|
            0 <= k < encode_scalar(c as u32).len() ==> #[trigger] encode_scalar(c as u32)[k]
                != 0u8,
{
    let s = c as u32;
    assert(is_scalar(s));
    assert(s != 0);
    assert(forall|x: u8| #[trigger] (0x80u8 | x) != 0u8) by (bit_vector);
    assert(forall|x: u8| #[trigger] (0xC0u8 | x) != 0u8) by (bit_vector);
    assert(forall|x: u8| #[trigger] (0xE0u8 | x) != 0u8) by (bit_vector);
    assert(forall|x: u8| #[trigger] (0xF0u8 | x) != 0u8) by (bit_vector);
    if has_width_1_encoding(s) {
        assert((s & 0x7F) as u8 != 0u8) by (bit_vector)
            requires
                s != 0 && s <= 0x7F,
        ;
    }
}

/// No byte of the UTF-8 encoding of a text without NUL characters is zero.
proof fn lemma_encoding_nonzero(chars: Seq<char>)
    requires
        forall|i: int| 0 <= i < chars.len() ==> chars[i] != '\0',
    ensures
        !encode_utf8(chars).contains(0u8),
    decreases chars.len(),
{
    if chars.len() > 0 {
        let head = encode_scalar(chars[0] as u32);
        let rest = chars.drop_first();
        lemma_scalar_bytes_nonzero(chars[0]);
        lemma_encoding_nonzero(rest);
        let whole = encode_utf8(chars);
        assert(whole == head + encode_utf8(rest));
        assert forall|k: int| 0 <= k < whole.len() implies whole[k] != 0u8 by {
            if k >= head.len() {
                assert(whole[k] == encode_utf8(rest)[k - head.len()]);
            }
        }
    }
}

/// Path round trip: the UTF-8 encoding of a path without NUL characters is
/// accepted, and decoding the string handed to the engine, without its
/// terminating NUL, yields exactly the original path.
pub proof fn lemma_path_round_trip(path: Seq<char>)
    requires
        forall|i: int| 0 <= i < path.len() ==> path[i] != '\0',
    ensures
        path_accepted(encode_utf8(path)),
        decode_utf8(c_string_of(encode_utf8(path)).drop_last()) == path,
{
    broadcast use vstd::utf8::encode_utf8_valid_utf8, vstd::utf8::encode_utf8_decode_utf8;

    lemma_encoding_nonzero(path);
    assert(c_string_of(encode_utf8(path)).drop_last() =~= encode_utf8(path));
}

/// Font lookup settings in the form the engine takes them: each path a
/// NUL-terminated UTF-8 string, the provider as its native code.
#[derive(Debug, PartialEq)]
pub struct FontSettings {
    /// Path to the default font.
    pub default_font: Option<Vec<u8>>,
    /// Fallback font family.
    pub default_family: Option<Vec<u8>>,
    /// Native code of the font provider.
    pub provider: i32,
    /// Path to a Fontconfig configuration file.
    pub fontconfig_config: Option<Vec<u8>>,
    /// Whether the Fontconfig cache is to be built or updated now.
    pub update: bool,
}

/// The bytes of an optional path.
pub open spec fn bytes_opt(o: Option<&[u8]>) -> Option<Seq<u8>> {
    match o {
        Some(b) => Some(b@),
        None => None,
    }
}

/// The bytes of an optional converted path.
pub open spec fn vec_opt(o: Option<Vec<u8>>) -> Option<Seq<u8>> {
    match o {
        Some(b) => Some(b@),
        None => None,
    }
}

/// True when an optional path is absent or accepted.
pub open spec fn opt_accepted(o: Option<Seq<u8>>) -> bool {
    match o {
        Some(b) => path_accepted(b),
        None => true,
    }
}

/// The string the engine receives for an optional path.
pub open spec fn opt_c_string(o: Option<Seq<u8>>) -> Option<Seq<u8>> {
    match o {
        Some(b) => Some(c_string_of(b)),
        None => None,
    }
}

/// The Fontconfig configuration path that is passed on: none when the
/// provider is Fontconfig itself, whose own configuration then applies.
pub open spec fn effective_config(provider: FontProvider, config: Option<Seq<u8>>) -> Option<
    Seq<u8>,
> {
    if provider == FontProvider::Fontconfig {
        None
    } else {
        config
    }
}

/// True when `e` is the error owed for the first rejected path among the
/// default font, the fallback family and the configuration path, in that order.
pub open spec fn fonts_error_for(
    font: Option<Seq<u8>>,
    family: Option<Seq<u8>>,
    config: Option<Seq<u8>>,
    e: PathErr,
) -> bool {
    if !opt_accepted(font) {
        path_error_for(font->Some_0, e)
    } else if !opt_accepted(family) {
        path_error_for(family->Some_0, e)
    } else {
        !opt_accepted(config) && path_error_for(config->Some_0, e)
    }
}

/// Converts an optional path.
fn c_path_opt(o: Option<&[u8]>) -> (r: Result<Option<Vec<u8>>, PathErr>)
    ensures
        r is Ok <==> opt_accepted(bytes_opt(o)),
        r is Ok ==> vec_opt(r->Ok_0) == opt_c_string(bytes_opt(o)),
        r is Err ==> o is Some && path_error_for(o->Some_0@, r->Err_0),
{
    match o {
        Some(raw) => match c_path(raw) {
            Ok(c) => Ok(Some(c)),
            Err(e) => Err(e),
        },
        None => Ok(None),
    }
}

/// Prepares the font lookup defaults of a renderer: the default font path,
/// the fallback family, the provider, an optional Fontconfig configuration
/// path (dropped when the provider is Fontconfig itself) and the cache
/// update flag. A path that cannot be handed to the engine is reported, and
/// the engine is then not called.
pub fn font_settings(
    default_font: Option<&[u8]>,
    default_family: Option<&[u8]>,
    font_provider: FontProvider,
    fontconfig_config: Option<&[u8]>,
    update: bool,
) -> (r: Result<FontSettings, PathErr>)
    ensures
        r is Ok <==> opt_accepted(bytes_opt(default_font)) && opt_accepted(
            bytes_opt(default_family),
        ) && opt_accepted(effective_config(font_provider, bytes_opt(fontconfig_config))),
        r is Ok ==> vec_opt(r->Ok_0.default_font) == opt_c_string(bytes_opt(default_font)),
        r is Ok ==> vec_opt(r->Ok_0.default_family) == opt_c_string(bytes_opt(default_family)),
        r is Ok ==> r->Ok_0.provider == font_provider_code(font_provider),
        r is Ok ==> vec_opt(r->Ok_0.fontconfig_config) == opt_c_string(
            effective_config(font_provider, bytes_opt(fontconfig_config)),
        ),
        r is Ok ==> r->Ok_0.update == update,
        r is Err ==> fonts_error_for(
            bytes_opt(default_font),
            bytes_opt(default_family),
            effective_config(font_provider, bytes_opt(fontconfig_config)),
            r->Err_0,
        ),
{
    let font = match c_path_opt(default_font) {
        Ok(c) => c,
        Err(e) => {
            return Err(e);
        },
    };
    let family = match c_path_opt(default_family) {
        Ok(c) => c,
        Err(e) => {
            return Err(e);
        },
    };
    let config_in = if font_provider == FontProvider::Fontconfig {
        None
    } else {
        fontconfig_config
    };
    assert(bytes_opt(config_in) == effective_config(font_provider, bytes_opt(fontconfig_config)));
    let config = match c_path_opt(config_in) {
        Ok(c) => c,
        Err(e) => {
            return Err(e);
        },
    };
    Ok(
        FontSettings {
            default_font: font,
            default_family: family,
            provider: font_provider.code(),
            fontconfig_config: config,
            update,
        },
    )
}

/// The parameters a renderer needs to work; the others are optional and set
/// through the renderer's own setters. Paths are held as their bytes.
#[derive(Debug, Clone, PartialEq)]
pub struct RendererConfig {
    /// Frame width in pixels, margins included. No image extends outside the
    /// frame.
    pub frame_width: i32,
    /// Frame height in pixels, margins included.
    pub frame_height: i32,
    /// Storage width of the video in pixels, without anamorphic de-squeeze;
    /// zero resets it to the default.
    pub storage_width: i32,
    /// Storage height of the video in pixels.
    pub storage_height: i32,
    /// Path to the default font; needed when no system font provider works.
    pub default_font: Option<Vec<u8>>,
    /// Fallback font family.
    pub default_font_family: Option<Vec<u8>>,
    /// Font provider; one that is missing or fails to start behaves as
    /// `FontProvider::Disabled`.
    pub default_font_provider: FontProvider,
    /// Path to a Fontconfig configuration file, used only with Fontconfig.
    pub fontconfig_path: Option<Vec<u8>>,
    /// Whether the Fontconfig cache is to be built or updated now.
    pub update_fontconfig: bool,
}

} // verus!
