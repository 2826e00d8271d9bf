//! Where the source of a module comes from, and what kind of module it is.

use crate::text::{same_text, text_from_utf8};
use vstd::prelude::*;
use vstd::utf8::{decode_utf8, valid_utf8};

verus! {

/// Why the source of a module could not be had.
#[derive(Debug, Clone, PartialEq, Eq)]
pub enum SourceError {
    /// A `file:` URL that names no path.
    InvalidFileUrl,
    /// A `data:` URL that is none, or whose body does not decode.
    InvalidDataUrl,
    /// A `data:` URL whose body is not valid UTF-8.
    InvalidDataUrlCode,
    /// A URL of a scheme that no source is read from.
    InvalidSchema { scheme: String },
    /// A path whose extension is no text.
    UnknownExtension,
    /// A path without an extension.
    UnknownMediaType { path: String },
}

/// The text with which `{:?}` shows the path `path`, on the platform that
/// the library is built for.
pub uninterp spec fn path_debug_text(path: Seq<char>) -> Seq<char>;

/// Formats the path with `{:?}`, the `Debug` impl of `std::path::Path`. The
/// contract only names the text that comes back.
#[verifier::external_body]
fn debug_path(path: &str) -> (out: String)
    ensures
        out@ == path_debug_text(path@),
{
    format!("{:?}", std::path::Path::new(path))
}

/// The message of `error`.
pub open spec fn source_error_text(error: SourceError) -> Seq<char> {
    match error {
        SourceError::InvalidFileUrl => "Invalid file URL."@,
        SourceError::InvalidDataUrl => "Not a valid data URL."@,
        SourceError::InvalidDataUrlCode => "Not a valid data URL code."@,
        SourceError::InvalidSchema { scheme } => "Invalid schema "@ + scheme@,
        SourceError::UnknownExtension => "Unknown extension"@,
        SourceError::UnknownMediaType { path } => "Unknown media type "@ + path_debug_text(path@),
    }
}

impl SourceError {
    /// The message of this error.
    pub fn message(&self) -> (out: String)
        ensures
            out@ == source_error_text(*self),
    {
        match self {
            SourceError::InvalidFileUrl => String::from_str("Invalid file URL."),
            SourceError::InvalidDataUrl => String::from_str("Not a valid data URL."),
            SourceError::InvalidDataUrlCode => String::from_str("Not a valid data URL code."),
            SourceError::InvalidSchema { scheme } => {
                let mut out = String::from_str("Invalid schema ");
                out.append(scheme.as_str());
                out
            },
            SourceError::UnknownExtension => String::from_str("Unknown extension"),
            SourceError::UnknownMediaType { path } => {
                let mut out = String::from_str("Unknown media type ");
                out.append(debug_path(path.as_str()).as_str());
                out
            },
        }
    }
}

/// How the source behind a URL is had.
#[derive(Debug, Clone, PartialEq, Eq)]
pub enum SourceRequest {
    /// It is fetched over the network. A response with an error status is a
    /// failure.
    Fetch,
    /// It is read from the file that the URL names.
    ReadFile,
    /// The URL carries it: here it is.
    Inline(String),
}

/// The body that `data_url::DataUrl::process` and `decode_to_vec` give for
/// the URL `url`; `None` where the text is no `data:` URL or its base64 body
/// is invalid.
pub uninterp spec fn data_url_body(url: Seq<char>) -> Option<Seq<u8>>;

/// Calls `data_url::DataUrl::process` on the text and `decode_to_vec` on
/// what it gives: the processor of `data:` URLs of the Fetch Standard. The
/// fragment is dropped. The contract only names the body that comes back.
#[verifier::external_body]
fn decode_data_url(url: &str) -> (out: Option<Vec<u8>>)
    ensures
        match out {
            Some(body) => data_url_body(url@) == Some(body@),
            None => data_url_body(url@) is None,
        },
{
    match data_url::DataUrl::process(url) {
        Ok(data) => match data.decode_to_vec() {
            Ok((body, _)) => Some(body),
            Err(_) => None,
        },
        Err(_) => None,
    }
}

/// Whether `out` is how the source behind a URL is had, where `scheme` is
/// the scheme of the URL and `body` what it decodes to as a data URL: `http`
/// and `https` are fetched, `file` is read, `data` is decoded here, and no
/// other scheme is a source.
pub open spec fn is_source_request(
    scheme: Seq<char>,
    body: Option<Seq<u8>>,
    out: Result<SourceRequest, SourceError>,
) -> bool {
    if scheme == "http"@ || scheme == "https"@ {
        out == Ok::<SourceRequest, SourceError>(SourceRequest::Fetch)
    } else if scheme == "file"@ {
        out == Ok::<SourceRequest, SourceError>(SourceRequest::ReadFile)
    } else if scheme == "data"@ {
        match body {
            None => out == Err::<SourceRequest, SourceError>(SourceError::InvalidDataUrl),
            Some(bytes) => if valid_utf8(bytes) {
                out matches Ok(SourceRequest::Inline(code)) && code@ == decode_utf8(bytes)
            } else {
                out == Err::<SourceRequest, SourceError>(SourceError::InvalidDataUrlCode)
            },
        }
    } else {
        out matches Err(SourceError::InvalidSchema { scheme: named }) && named@ == scheme
    }
}

/// Says how the source behind `url` is had, and decodes it where the URL
/// carries it. `scheme` is the scheme of the URL.
pub fn get_source_code(scheme: &str, url: &str) -> (out: Result<SourceRequest, SourceError>)
    ensures
        is_source_request(scheme@, data_url_body(url@), out),
{
    proof {
        reveal_strlit("http");
        reveal_strlit("https");
        reveal_strlit("file");
        reveal_strlit("data");
        assert("http"@.len() == 4 && "https"@.len() == 5);
        assert("http"@[0] == 'h' && "file"@[0] == 'f' && "data"@[0] == 'd');
    }
    if same_text(scheme, "http") || same_text(scheme, "https") {
        Ok(SourceRequest::Fetch)
    } else if same_text(scheme, "file") {
        Ok(SourceRequest::ReadFile)
    } else if same_text(scheme, "data") {
        match decode_data_url(url) {
            None => Err(SourceError::InvalidDataUrl),
            Some(bytes) => match text_from_utf8(bytes) {
                Some(code) => Ok(SourceRequest::Inline(code)),
                None => Err(SourceError::InvalidDataUrlCode),
            },
        }
    } else {
        Err(SourceError::InvalidSchema { scheme: String::from_str(scheme) })
    }
}

/// The kind of module that a loaded source is run as.
#[derive(Debug, Clone, Copy, PartialEq, Eq, Structural)]
pub enum ModuleKind {
    JavaScript,
    Json,
}

/// The extension that `std::path::Path::extension` gives for `path`, on the
/// platform that the library is built for.
pub uninterp spec fn path_extension(path: Seq<char>) -> Option<Seq<char>>;

/// The text that `str::to_lowercase` gives for `text`.
pub uninterp spec fn lowercase_text(text: Seq<char>) -> Seq<char>;

/// Calls `Path::extension`, which gives what follows the last dot of the
/// file name, if the name has one that is not its first character. The
/// contract only names what comes back.
#[verifier::external_body]
fn extension_of(path: &str) -> (out: Option<String>)
    ensures
        match out {
            Some(extension) => path_extension(path@) == Some(extension@),
            None => path_extension(path@) is None,
        },
{
    std::path::Path::new(path).extension().map(|e| e.to_string_lossy().into_owned())
}

/// Calls `str::to_lowercase`. The contract only names what comes back.
#[verifier::external_body]
fn lowercase(text: &str) -> (out: String)
    ensures
        out@ == lowercase_text(text@),
{
    text.to_lowercase()
}

/// The kind of the module at `path`, for a given extension of the path:
/// structured data under `json` in any case of the letters, a script under
/// every other extension, and unknown without one.
pub open spec fn module_kind_of(extension: Option<Seq<char>>) -> Option<ModuleKind> {
    match extension {
        Some(text) => if lowercase_text(text) == "json"@ {
            Some(ModuleKind::Json)
        } else {
            Some(ModuleKind::JavaScript)
        },
        None => None,
    }
}

/// The kind of the module at `path`.
pub fn get_module_type(path: &str) -> (out: Result<ModuleKind, SourceError>)
    ensures
        match out {
            Ok(kind) => module_kind_of(path_extension(path@)) == Some(kind),
            Err(error) => {
                &&& module_kind_of(path_extension(path@)) is None
                &&& error matches SourceError::UnknownMediaType { path: named }
                &&& named@ == path@
            },
        },
{
    match extension_of(path) {
        Some(extension) => {
            if same_text(lowercase(extension.as_str()).as_str(), "json") {
                Ok(ModuleKind::Json)
            } else {
                Ok(ModuleKind::JavaScript)
            }
        },
        None => Err(SourceError::UnknownMediaType { path: String::from_str(path) }),
    }
}

} // verus!
