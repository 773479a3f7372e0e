//! HTTP content (MIME) types and the extension lookup table.

use crate::str_eq;
use vstd::prelude::*;

verus! {

/// Error returned when a file extension lies outside the recognized table;
/// it carries the offending extension for diagnostics. Unknown extensions
/// never fall back to a silent default.
#[derive(Debug, PartialEq, Eq)]
pub struct InvalidContentType(pub String);

impl InvalidContentType {
    /// The extension that failed to resolve to a content type.
    pub fn token(&self) -> (t: &str)
        ensures
            t@ == self.0@,
    {
        self.0.as_str()
    }

    /// The diagnostic text of this error, naming the extension.
    pub fn message(&self) -> (m: String)
        ensures
            m@ == "Invalid Content Type: "@ + self.0@,
    {
        let mut m = String::from_str("Invalid Content Type: ");
        m.append(self.0.as_str());
        m
    }
}

/// A recognized content (MIME) type.
#[derive(Debug, Clone, Copy, PartialEq, Eq, Structural)]
pub enum ContentType {
    CSS,
    HTML,
    GIF,
    PNG,
    JPEG,
    TEXT,
    SVG,
    XML,
    PDF,
    ICO,
}

/// The content type a lowercase file extension resolves to, or `None` when
/// the extension is outside the recognized table.
pub open spec fn spec_content_of(s: Seq<char>) -> Option<ContentType> {
    if s == "css"@ {
        Some(ContentType::CSS)
    } else if s == "gif"@ {
        Some(ContentType::GIF)
    } else if s == "htm"@ {
        Some(ContentType::HTML)
    } else if s == "html"@ {
        Some(ContentType::HTML)
    } else if s == "jpeg"@ {
        Some(ContentType::JPEG)
    } else if s == "jpg"@ {
        Some(ContentType::JPEG)
    } else if s == "png"@ {
        Some(ContentType::PNG)
    } else if s == "svg"@ {
        Some(ContentType::SVG)
    } else if s == "txt"@ {
        Some(ContentType::TEXT)
    } else if s == "xml"@ {
        Some(ContentType::XML)
    } else if s == "pdf"@ {
        Some(ContentType::PDF)
    } else if s == "ico"@ {
        Some(ContentType::ICO)
    } else {
        None
    }
}

/// The canonical MIME string of a content type.
pub open spec fn spec_mime(c: ContentType) -> Seq<char> {
    match c {
        ContentType::CSS => "text/css"@,
        ContentType::GIF => "image/gif"@,
        ContentType::HTML => "text/html"@,
        ContentType::JPEG => "image/jpeg"@,
        ContentType::PNG => "image/png"@,
        ContentType::SVG => "image/svg+xml"@,
        ContentType::TEXT => "text/plain"@,
        ContentType::XML => "application/xml"@,
        ContentType::PDF => "application/pdf"@,
        ContentType::ICO => "image/x-icon"@,
    }
}

impl ContentType {
    /// Resolves a lowercase file extension through the recognized table; any
    /// other extension fails with an [`InvalidContentType`] error carrying
    /// that extension.
    pub fn from_ext_str(ext: &str) -> (r: Result<ContentType, InvalidContentType>)
        ensures
            match r {
                Ok(c) => spec_content_of(ext@) == Some(c),
                Err(e) => spec_content_of(ext@) is None && e.0@ == ext@,
            },
    {
        if str_eq(ext, "css") {
            Ok(ContentType::CSS)
        } else if str_eq(ext, "gif") {
            Ok(ContentType::GIF)
        } else if str_eq(ext, "htm") {
            Ok(ContentType::HTML)
        } else if str_eq(ext, "html") {
            Ok(ContentType::HTML)
        } else if str_eq(ext, "jpeg") {
            Ok(ContentType::JPEG)
        } else if str_eq(ext, "jpg") {
            Ok(ContentType::JPEG)
        } else if str_eq(ext, "png") {
            Ok(ContentType::PNG)
        } else if str_eq(ext, "svg") {
            Ok(ContentType::SVG)
        } else if str_eq(ext, "txt") {
            Ok(ContentType::TEXT)
        } else if str_eq(ext, "xml") {
            Ok(ContentType::XML)
        } else if str_eq(ext, "pdf") {
            Ok(ContentType::PDF)
        } else if str_eq(ext, "ico") {
            Ok(ContentType::ICO)
        } else {
            Err(InvalidContentType(ext.to_owned()))
        }
    }

    /// The canonical MIME string of this content type.
    pub fn as_str(&self) -> (s: &str)
        ensures
            s@ == spec_mime(*self),
    {
        match *self {
            ContentType::CSS => "text/css",
            ContentType::GIF => "image/gif",
            ContentType::HTML => "text/html",
            ContentType::JPEG => "image/jpeg",
            ContentType::PNG => "image/png",
            ContentType::SVG => "image/svg+xml",
            ContentType::TEXT => "text/plain",
            ContentType::XML => "application/xml",
            ContentType::PDF => "application/pdf",
            ContentType::ICO => "image/x-icon",
        }
    }
}

} // verus!
