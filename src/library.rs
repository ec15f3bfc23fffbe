//! Decisions made around the native library context: log levels, font
//! providers, and the text of native log messages.

use vstd::prelude::*;
use vstd::utf8::{decode_utf8, valid_utf8};

verus! {

/// Severity of a native log message. Messages below `Application` are
/// written to stderr by the engine when no callback is registered.
#[derive(Debug, PartialEq, Eq, Structural, PartialOrd, Clone, Copy)]
#[non_exhaustive]
pub enum LogLevel {
    /// Fatal errors.
    Fatal,
    /// Errors.
    Error,
    /// Warnings.
    Warn,
    /// Informational messages.
    Info,
    /// The level recommended for applications.
    Application,
    /// Verbose messages.
    Verbose,
    /// Debugging messages.
    Debug,
}

/// The log level of a native severity code; unknown codes read as
/// `Application`.
pub open spec fn log_level_of(code: i32) -> LogLevel {
    if code == 0 {
        LogLevel::Fatal
    } else if code == 1 {
        LogLevel::Error
    } else if code == 2 {
        LogLevel::Warn
    } else if code == 4 {
        LogLevel::Info
    } else if code == 6 {
        LogLevel::Verbose
    } else if code == 7 {
        LogLevel::Debug
    } else {
        LogLevel::Application
    }
}

/// The native code of a log level.
pub open spec fn log_level_code(l: LogLevel) -> i32 {
    match l {
        LogLevel::Fatal => 0,
        LogLevel::Error => 1,
        LogLevel::Warn => 2,
        LogLevel::Info => 4,
        LogLevel::Application => 5,
        LogLevel::Verbose => 6,
        LogLevel::Debug => 7,
    }
}

impl LogLevel {
    /// The code the native engine knows this level by.
    pub fn code(&self) -> (r: i32)
        ensures
            r == log_level_code(*self),
    {
        match self {
            LogLevel::Fatal => 0,
            LogLevel::Error => 1,
            LogLevel::Warn => 2,
            LogLevel::Info => 4,
            LogLevel::Application => 5,
            LogLevel::Verbose => 6,
            LogLevel::Debug => 7,
        }
    }
}

impl From<i32> for LogLevel {
    fn from(log_level: i32) -> Self {
        match log_level {
            0 => LogLevel::Fatal,
            1 => LogLevel::Error,
            2 => LogLevel::Warn,
            4 => LogLevel::Info,
            6 => LogLevel::Verbose,
            7 => LogLevel::Debug,
            _ => LogLevel::Application,
        }
    }
}

impl vstd::std_specs::convert::FromSpecImpl<i32> for LogLevel {
    open spec fn obeys_from_spec() -> bool {
        true
    }

    open spec fn from_spec(v: i32) -> Self {
        log_level_of(v)
    }
}

impl Default for LogLevel {
    fn default() -> (r: Self)
        ensures
            r == LogLevel::Application,
    {
        LogLevel::Application
    }
}

/// Font provider used for font lookup.
#[derive(Debug, PartialEq, Eq, Structural, PartialOrd, Clone, Copy)]
#[non_exhaustive]
pub enum FontProvider {
    /// No default font provider.
    Disabled,
    /// The first available font provider.
    Autodetect,
    /// CoreText (macOS only).
    CoreText,
    /// A Fontconfig-based provider.
    Fontconfig,
    /// A DirectWrite-based provider (Windows only).
    DirectWrite,
}

/// The native code of a font provider.
pub open spec fn font_provider_code(p: FontProvider) -> i32 {
    match p {
        FontProvider::Disabled => 0,
        FontProvider::Autodetect => 1,
        FontProvider::CoreText => 2,
        FontProvider::Fontconfig => 3,
        FontProvider::DirectWrite => 4,
    }
}

/// The font provider of a native code; unknown codes read as `Disabled`.
pub open spec fn font_provider_of(code: i32) -> FontProvider {
    if code == 1 {
        FontProvider::Autodetect
    } else if code == 2 {
        FontProvider::CoreText
    } else if code == 3 {
        FontProvider::Fontconfig
    } else if code == 4 {
        FontProvider::DirectWrite
    } else {
        FontProvider::Disabled
    }
}

impl FontProvider {
    /// The code the native engine knows this provider by.
    pub fn code(&self) -> (r: i32)
        ensures
            r == font_provider_code(*self),
    {
        match self {
            FontProvider::Disabled => 0,
            FontProvider::Autodetect => 1,
            FontProvider::CoreText => 2,
            FontProvider::Fontconfig => 3,
            FontProvider::DirectWrite => 4,
        }
    }
}

impl From<i32> for FontProvider {
    fn from(value: i32) -> Self {
        match value {
            1 => FontProvider::Autodetect,
            2 => FontProvider::CoreText,
            3 => FontProvider::Fontconfig,
            4 => FontProvider::DirectWrite,
            _ => FontProvider::Disabled,
        }
    }
}

impl vstd::std_specs::convert::FromSpecImpl<i32> for FontProvider {
    open spec fn obeys_from_spec() -> bool {
        true
    }

    open spec fn from_spec(v: i32) -> Self {
        font_provider_of(v)
    }
}

impl Default for FontProvider {
    fn default() -> (r: Self)
        ensures
            r == FontProvider::Autodetect,
    {
        FontProvider::Autodetect
    }
}

/// Reads the array of provider codes that the native engine hands out:
/// one provider per code, in order, each a variant of `FontProvider`.
pub fn font_providers(codes: &[i32]) -> (r: Vec<FontProvider>)
    ensures
        r@.len() == codes@.len(),
        forall|i: int| 0 <= i < codes@.len() ==> r@[i] == font_provider_of(#[trigger] codes@[i]),
{
    let mut out: Vec<FontProvider> = Vec::new();
    let mut i: usize = 0;
    while i < codes.len()
        invariant
            i <= codes@.len(),
            out@.len() == i,
            forall|j: int| 0 <= j < i ==> out@[j] == font_provider_of(#[trigger] codes@[j]),
        decreases codes@.len() - i,
    {
        out.push(FontProvider::from(codes[i]));
        i = i + 1;
    }
    out
}

/// Relies on std::str::from_utf8: it succeeds exactly on valid UTF-8, and the
/// text it returns is the one those bytes encode.
#[verifier::external_body]
pub(crate) fn utf8_text(bytes: &[u8]) -> (r: Option<&str>)
    ensures
        r is Some <==> valid_utf8(bytes@),
        r is Some ==> r->Some_0@ == decode_utf8(bytes@),
{
    std::str::from_utf8(bytes).ok()
}

/// The text delivered to a log callback for a native message: empty when
/// the message is absent or not valid UTF-8, its decoded text otherwise.
pub open spec fn message_view(raw: Option<Seq<u8>>) -> Seq<char> {
    match raw {
        Option::Some(b) => if valid_utf8(b) {
            decode_utf8(b)
        } else {
            Seq::empty()
        },
        Option::None => Seq::empty(),
    }
}

/// The text of a native log message, given its bytes without the
/// terminating NUL (`None` for a null message pointer). Never fails: what
/// cannot be decoded is delivered as the empty string.
pub fn message_text<'a>(raw: Option<&'a [u8]>) -> (r: &'a str)
    ensures
        r@ == message_view(
            match raw {
                Option::Some(b) => Option::Some(b@),
                Option::None => Option::None,
            },
        ),
{
    proof {
        reveal_strlit("");
    }
    match raw {
        Option::Some(bytes) => match utf8_text(bytes) {
            Option::Some(text) => text,
            Option::None => "",
        },
        Option::None => "",
    }
}

} // verus!
