//! Fonts the interface uses, and how a text style picks one.
use crate::domain::DomainError;
use vstd::prelude::*;

verus! {

/// Font families of the interface.
#[derive(Debug, Clone, Copy, PartialEq, Eq, Hash, Structural)]
pub enum FontType {
    UiEmoji,
    UiRegular,
    UiMonospace,
    UiDisplay,
}

impl FontType {
    /// Name of the font type as written in diagnostics.
    pub open spec fn spec_name(self) -> Seq<char> {
        match self {
            FontType::UiEmoji => "UiEmoji"@,
            FontType::UiRegular => "UiRegular"@,
            FontType::UiMonospace => "UiMonospace"@,
            FontType::UiDisplay => "UiDisplay"@,
        }
    }

    /// Name of the font type as written in diagnostics.
    pub fn name(&self) -> (r: &'static str)
        ensures
            r@ == self.spec_name(),
    {
        match self {
            FontType::UiEmoji => "UiEmoji",
            FontType::UiRegular => "UiRegular",
            FontType::UiMonospace => "UiMonospace",
            FontType::UiDisplay => "UiDisplay",
        }
    }
}

/// Text sizes of the interface.
#[derive(Debug, Clone, Copy, PartialEq, Eq, Structural)]
pub enum FontSize {
    Small,
    Regular,
    Medium,
    Large,
    ExtraLarge,
}

/// Font weights.
#[derive(Debug, Clone, Copy, PartialEq, Eq, Structural)]
pub enum FontWeight {
    Normal,
    Bold,
}

/// A text style: family, size and weight.
#[derive(Debug, Clone, Copy, PartialEq, Eq, Structural)]
pub struct FontConfig {
    pub font_type: FontType,
    pub size: FontSize,
    pub weight: FontWeight,
}

impl Default for FontConfig {
    fn default() -> (r: Self)
        ensures
            r == (FontConfig { font_type: FontType::UiRegular, size: FontSize::Regular, weight: FontWeight::Normal }),
    {
        FontConfig { font_type: FontType::UiRegular, size: FontSize::Regular, weight: FontWeight::Normal }
    }
}

impl FontConfig {
    /// A style from its three parts.
    pub fn new(font_type: FontType, size: FontSize, weight: FontWeight) -> (r: Self)
        ensures
            r == (FontConfig { font_type, size, weight }),
    {
        FontConfig { font_type, size, weight }
    }

    /// Emoji text of a size, normal weight.
    pub fn emoji(size: FontSize) -> (r: Self)
        ensures
            r == (FontConfig { font_type: FontType::UiEmoji, size, weight: FontWeight::Normal }),
    {
        FontConfig { font_type: FontType::UiEmoji, size, weight: FontWeight::Normal }
    }

    /// Regular text of a size, normal weight.
    pub fn regular(size: FontSize) -> (r: Self)
        ensures
            r == (FontConfig { font_type: FontType::UiRegular, size, weight: FontWeight::Normal }),
    {
        FontConfig { font_type: FontType::UiRegular, size, weight: FontWeight::Normal }
    }

    /// Display text of a size, bold.
    pub fn display(size: FontSize) -> (r: Self)
        ensures
            r == (FontConfig { font_type: FontType::UiDisplay, size, weight: FontWeight::Bold }),
    {
        FontConfig { font_type: FontType::UiDisplay, size, weight: FontWeight::Bold }
    }

    /// Monospace text of a size, normal weight.
    pub fn monospace(size: FontSize) -> (r: Self)
        ensures
            r == (FontConfig { font_type: FontType::UiMonospace, size, weight: FontWeight::Normal }),
    {
        FontConfig { font_type: FontType::UiMonospace, size, weight: FontWeight::Normal }
    }
}

/// Errors of font loading.
#[derive(Debug, Clone, PartialEq)]
pub enum FontError {
    FontNotFound { path: String },
    LoadFailed { reason: String },
    UnsupportedFormat { format: String },
    ValidationFailed { details: String },
    FontTypeNotConfigured { font_type: FontType },
}

impl FontError {
    /// The text of the error.
    pub open spec fn spec_message(&self) -> Seq<char> {
        match self {
            FontError::FontNotFound { path } => "Font file not found: "@ + path@,
            FontError::LoadFailed { reason } => "Failed to load font: "@ + reason@,
            FontError::UnsupportedFormat { format } => "Unsupported font format: "@ + format@,
            FontError::ValidationFailed { details } => "Font validation failed: "@ + details@,
            FontError::FontTypeNotConfigured { font_type } => "Font type not configured: "@ + font_type.spec_name(),
        }
    }

    /// The text of the error.
    pub fn to_string(&self) -> (r: String)
        ensures
            r@ == self.spec_message(),
    {
        let r = match self {
            FontError::FontNotFound { path } => String::from_str("Font file not found: ").concat(path.as_str()),
            FontError::LoadFailed { reason } => String::from_str("Failed to load font: ").concat(reason.as_str()),
            FontError::UnsupportedFormat { format } => String::from_str("Unsupported font format: ").concat(format.as_str()),
            FontError::ValidationFailed { details } => String::from_str("Font validation failed: ").concat(details.as_str()),
            FontError::FontTypeNotConfigured { font_type } => String::from_str("Font type not configured: ").concat(font_type.name()),
        };
        assert(r@ =~= self.spec_message());
        r
    }
}

impl FontError {
    /// The error as a domain error of the font service.
    pub fn into_domain_error(self) -> (r: DomainError)
        ensures
            r matches DomainError::ServiceError { service, reason }
                && service@ == "FontService"@ && reason@ == self.spec_message(),
    {
        DomainError::ServiceError { service: String::from_str("FontService"), reason: self.to_string() }
    }
}

/// Paths of the font files.
#[derive(Debug, Clone, Copy)]
pub struct FontPaths {
    pub ui_emoji: &'static str,
    pub ui_regular: &'static str,
    pub ui_monospace: Option<&'static str>,
    pub ui_display: Option<&'static str>,
}

impl Default for FontPaths {
    fn default() -> (r: Self)
        ensures
            r.ui_emoji@ == "fonts/FiraSans-Regular.ttf"@,
            r.ui_regular@ == "fonts/FiraSans-Regular.ttf"@,
            r.ui_monospace is None,
            r.ui_display is None,
    {
        FontPaths {
            ui_emoji: "fonts/FiraSans-Regular.ttf",
            ui_regular: "fonts/FiraSans-Regular.ttf",
            ui_monospace: None,
            ui_display: None,
        }
    }
}

} // verus!
