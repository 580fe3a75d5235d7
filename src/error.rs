use vstd::prelude::*;

verus! {

/// The failures that the program reports.
#[derive(Clone, Copy, Debug, PartialEq, Eq, Structural)]
pub enum AppError {
    /// The font file is missing or cannot be read.
    FontMissing,
    /// The font file's bytes are not a font.
    FontInvalid,
    /// The windowing system refused to create the window.
    WindowUnavailable,
    /// No GPU adapter can present to the window's surface.
    NoAdapter,
    /// The next presentable image could not be acquired in time: the
    /// presentation chain no longer matches what the window presents. Unlike
    /// the others this is a transient condition, not a fatal one.
    SurfaceStale,
}

/// The diagnostic text of each error. For the two font errors it is followed
/// by the quoted font path.
pub open spec fn message_text(e: AppError) -> Seq<char> {
    match e {
        AppError::FontMissing => "Failed to open"@,
        AppError::FontInvalid => "Failed to generate glyph brush for"@,
        AppError::WindowUnavailable => "Failed to create the window."@,
        AppError::NoAdapter => "No compatible GPU adapter."@,
        AppError::SurfaceStale => "Timed out acquiring next swap chain texture."@,
    }
}

/// Whether the diagnostic of `e` names the font file.
pub open spec fn names_font_path(e: AppError) -> bool {
    e == AppError::FontMissing || e == AppError::FontInvalid
}

/// Whether `e` is a true fatal error rather than a transient one.
pub open spec fn fatal(e: AppError) -> bool {
    e != AppError::SurfaceStale
}

impl AppError {
    /// The diagnostic printed when the program stops on this error.
    pub fn message(&self) -> (r: &'static str)
        ensures
            r@ == message_text(*self),
    {
        match self {
            AppError::FontMissing => "Failed to open",
            AppError::FontInvalid => "Failed to generate glyph brush for",
            AppError::WindowUnavailable => "Failed to create the window.",
            AppError::NoAdapter => "No compatible GPU adapter.",
            AppError::SurfaceStale => "Timed out acquiring next swap chain texture.",
        }
    }

    /// Whether the diagnostic is followed by the quoted font path: true for
    /// the two font errors only.
    pub fn names_font_path(&self) -> (r: bool)
        ensures
            r == names_font_path(*self),
    {
        match self {
            AppError::FontMissing | AppError::FontInvalid => true,
            _ => false,
        }
    }

    /// Whether this error is fatal: every error is, but a stale presentation
    /// chain, which is transient.
    pub fn is_fatal(&self) -> (r: bool)
        ensures
            r == fatal(*self),
    {
        match self {
            AppError::SurfaceStale => false,
            _ => true,
        }
    }
}

} // verus!
