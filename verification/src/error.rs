//! The errors of the converter, with their messages and exit codes.

use vstd::prelude::*;

verus! {

/// How an I/O operation failed, as far as the exit code needs to know.
#[derive(Debug, Clone, Copy, PartialEq, Eq, Structural)]
pub enum IoErrorKind {
    NotFound,
    PermissionDenied,
    Other,
}

/// Everything that can go wrong in a conversion.
///
/// Errors that come from an outside library or from the operating system carry
/// that library's own message.
#[derive(Debug, Clone)]
pub enum MartiniError {
    Io { kind: IoErrorKind, message: String },
    SvgParse(String),
    Rendering(String),
    Image(String),
    UnsupportedConversion { from: String, to: String },
    InputFileNotFound { path: String },
    InvalidInputData { reason: String },
    OutputWrite { reason: String },
    PdfRender(String),
}

/// The exit code that reports an error to scripts and agents.
pub open spec fn spec_exit_code(e: MartiniError) -> i32 {
    match e {
        MartiniError::InputFileNotFound { .. } => 2,
        MartiniError::InvalidInputData { .. } => 3,
        MartiniError::SvgParse(_) => 3,
        MartiniError::Rendering(_) => 4,
        MartiniError::Image(_) => 4,
        MartiniError::PdfRender(_) => 4,
        MartiniError::Io { kind, .. } => match kind {
            IoErrorKind::NotFound => 2,
            IoErrorKind::PermissionDenied => 5,
            IoErrorKind::Other => 4,
        },
        MartiniError::OutputWrite { .. } => 5,
        MartiniError::UnsupportedConversion { .. } => 6,
    }
}

/// The human-readable message of an error.
pub open spec fn error_message(e: MartiniError) -> Seq<char> {
    match e {
        MartiniError::Io { message, .. } => "IO error: "@ + message@,
        MartiniError::SvgParse(m) => "SVG parsing error: "@ + m@,
        MartiniError::Rendering(m) => "Rendering error: "@ + m@,
        MartiniError::Image(m) => "Image processing error: "@ + m@,
        MartiniError::UnsupportedConversion { from, to } =>
            "Unsupported conversion from '"@ + from@ + "' to '"@ + to@ + "'"@,
        MartiniError::InputFileNotFound { path } => "Input file not found: "@ + path@,
        MartiniError::InvalidInputData { reason } => "Invalid input data: "@ + reason@,
        MartiniError::OutputWrite { reason } => "Output writing error: "@ + reason@,
        MartiniError::PdfRender(m) => "PDF rendering error: "@ + m@,
    }
}

impl MartiniError {
    /// Maps the error to a granular exit code for programmatic consumption:
    /// 2 input not found, 3 invalid input, 4 processing failure, 5 output not
    /// writable, 6 unsupported conversion.
    pub fn exit_code(&self) -> (code: i32)
        ensures
            code == spec_exit_code(*self),
    {
        match self {
            MartiniError::InputFileNotFound { .. } => 2,
            MartiniError::InvalidInputData { .. } | MartiniError::SvgParse(_) => 3,
            MartiniError::Rendering(_) | MartiniError::Image(_) | MartiniError::PdfRender(_) => 4,
            MartiniError::Io { kind: IoErrorKind::NotFound, .. } => 2,
            MartiniError::Io { kind: IoErrorKind::PermissionDenied, .. } => 5,
            MartiniError::Io { .. } => 4,
            MartiniError::OutputWrite { .. } => 5,
            MartiniError::UnsupportedConversion { .. } => 6,
        }
    }

    /// The message of the error, as it is shown to the user.
    pub fn to_string(&self) -> (r: String)
        ensures
            r@ == error_message(*self),
    {
        let mut out = String::new();
        match self {
            MartiniError::Io { message, .. } => {
                out.append("IO error: ");
                out.append(message.as_str());
            },
            MartiniError::SvgParse(m) => {
                out.append("SVG parsing error: ");
                out.append(m.as_str());
            },
            MartiniError::Rendering(m) => {
                out.append("Rendering error: ");
                out.append(m.as_str());
            },
            MartiniError::Image(m) => {
                out.append("Image processing error: ");
                out.append(m.as_str());
            },
            MartiniError::UnsupportedConversion { from, to } => {
                out.append("Unsupported conversion from '");
                out.append(from.as_str());
                out.append("' to '");
                out.append(to.as_str());
                out.append("'");
            },
            MartiniError::InputFileNotFound { path } => {
                out.append("Input file not found: ");
                out.append(path.as_str());
            },
            MartiniError::InvalidInputData { reason } => {
                out.append("Invalid input data: ");
                out.append(reason.as_str());
            },
            MartiniError::OutputWrite { reason } => {
                out.append("Output writing error: ");
                out.append(reason.as_str());
            },
            MartiniError::PdfRender(m) => {
                out.append("PDF rendering error: ");
                out.append(m.as_str());
            },
        }
        out
    }
}

} // verus!
