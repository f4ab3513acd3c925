use vstd::prelude::*;

use crate::text::push_str;

verus! {

/// Why compiling or rendering TeX did not produce a page.
#[derive(Debug, Clone, PartialEq, Eq)]
pub enum RenderError {
    /// Rendering was cancelled before it started.
    RenderingCancelled,
    /// Compilation was cancelled before the compiler started.
    CompilationCancelled,
    /// The preamble and the equations together exceed the source limit.
    SourcesTooLarge,
    /// The configured package directory is not an existing absolute directory.
    PackageDirectory,
    /// The compiler was cancelled while running or ran longer than three minutes.
    CompilerStopped,
    /// The compiler wrote more than 8 MB of output.
    CompilerOutputTooLarge,
    /// The compiler failed; holds the tail of its output.
    CompilationFailed(String),
    /// The produced PDF exceeds the preview size limit.
    PdfTooLarge,
    /// The PDF reader refused the document; holds its description of why.
    UnreadablePdf(String),
    /// A batch of equations did not produce one page per equation.
    PageCountMismatch,
    /// The document has no pages.
    NoPages,
}

/// The message of each error, as the editor shows it.
pub open spec fn render_error_text(e: RenderError) -> Seq<char> {
    match e {
        RenderError::RenderingCancelled => "Rendering cancelled"@,
        RenderError::CompilationCancelled => "Compilation cancelled"@,
        RenderError::SourcesTooLarge => "Equations or preamble are too large"@,
        RenderError::PackageDirectory => "latex.package_directory must be an existing absolute directory"@,
        RenderError::CompilerStopped => "LaTeX compilation cancelled or exceeded three minutes"@,
        RenderError::CompilerOutputTooLarge => "LaTeX compiler output exceeded 8 MB"@,
        RenderError::CompilationFailed(tail) => "LaTeX compilation failed:\n"@ + tail@,
        RenderError::PdfTooLarge => "PDF exceeds the 100 MB preview limit"@,
        RenderError::UnreadablePdf(why) => "Could not read PDF: "@ + why@,
        RenderError::PageCountMismatch => "Each equation must produce exactly one page"@,
        RenderError::NoPages => "PDF contains no pages"@,
    }
}

impl RenderError {
    /// The error's message.
    pub fn message(&self) -> (r: String)
        ensures
            r@ == render_error_text(*self),
    {
        match self {
            RenderError::RenderingCancelled => "Rendering cancelled".to_owned(),
            RenderError::CompilationCancelled => "Compilation cancelled".to_owned(),
            RenderError::SourcesTooLarge => "Equations or preamble are too large".to_owned(),
            RenderError::PackageDirectory => {
                "latex.package_directory must be an existing absolute directory".to_owned()
            },
            RenderError::CompilerStopped => {
                "LaTeX compilation cancelled or exceeded three minutes".to_owned()
            },
            RenderError::CompilerOutputTooLarge => "LaTeX compiler output exceeded 8 MB".to_owned(),
            RenderError::CompilationFailed(tail) => {
                let mut m = "LaTeX compilation failed:\n".to_owned();
                push_str(&mut m, tail.as_str());
                m
            },
            RenderError::PdfTooLarge => "PDF exceeds the 100 MB preview limit".to_owned(),
            RenderError::UnreadablePdf(why) => {
                let mut m = "Could not read PDF: ".to_owned();
                push_str(&mut m, why.as_str());
                m
            },
            RenderError::PageCountMismatch => {
                "Each equation must produce exactly one page".to_owned()
            },
            RenderError::NoPages => "PDF contains no pages".to_owned(),
        }
    }
}

} // verus!
