use vstd::prelude::*;

use crate::errors::RenderError;

verus! {

/// How long the TeX compiler may run, in nanoseconds (three minutes).
pub const COMPILE_TIME_LIMIT_NANOS: u128 = 180_000_000_000;

/// Most bytes of output the compiler may write (8 MiB).
pub const MAX_COMPILER_OUTPUT: u64 = 8388608;

/// Most bytes of PDF that are previewed (100 MiB).
pub const MAX_PDF_BYTES: u64 = 104857600;

/// Bytes from the end of the compiler's output that a failure reports.
pub const LOG_TAIL_BYTES: u64 = 8000;

/// How the compiler is started.
#[derive(Debug, Clone, Copy, PartialEq, Eq)]
pub enum CompileInput {
    /// The compiler reads the document's file and runs in the document's
    /// directory; its PDF is named after the document.
    DocumentFile,
    /// The compiler reads the source from standard input (argument `-`) and
    /// runs in the package directory, so that local packages there resolve;
    /// its PDF is `texput.pdf`.
    StdinInPackageDirectory,
}

/// Whether a configured package directory can be used: it must be an
/// absolute path that names an existing directory.
pub fn package_directory_usable(is_absolute: bool, is_dir: bool) -> (r: bool)
    ensures
        r == (is_absolute && is_dir),
{
    is_absolute && is_dir
}

/// Decides how a TeX source is compiled. `package_directory` is `None` when
/// no package directory is configured, otherwise whether the configured one
/// is an existing absolute directory. Nothing starts once compilation is
/// cancelled, nor with an unusable package directory.
pub fn compile_tex_in(cancelled: bool, package_directory: Option<bool>) -> (r: Result<
    CompileInput,
    RenderError,
>)
    ensures
        r == if cancelled {
            Err(RenderError::CompilationCancelled)
        } else {
            match package_directory {
                None => Ok(CompileInput::DocumentFile),
                Some(true) => Ok(CompileInput::StdinInPackageDirectory),
                Some(false) => Err(RenderError::PackageDirectory),
            }
        },
{
    if cancelled {
        return Err(RenderError::CompilationCancelled);
    }
    match package_directory {
        None => Ok(CompileInput::DocumentFile),
        Some(usable) => {
            if usable {
                Ok(CompileInput::StdinInPackageDirectory)
            } else {
                Err(RenderError::PackageDirectory)
            }
        },
    }
}

/// Decides how a TeX document that uses no package directory is compiled.
pub fn compile_tex(cancelled: bool) -> (r: Result<CompileInput, RenderError>)
    ensures
        r == if cancelled {
            Err(RenderError::CompilationCancelled)
        } else {
            Ok::<CompileInput, RenderError>(CompileInput::DocumentFile)
        },
{
    compile_tex_in(cancelled, None)
}

/// Decides whether a previewed document is compiled: once rendering is
/// cancelled, no compiler starts.
pub fn compile_document_input(cancelled: bool) -> (r: Result<CompileInput, RenderError>)
    ensures
        r == if cancelled {
            Err(RenderError::RenderingCancelled)
        } else {
            Ok::<CompileInput, RenderError>(CompileInput::DocumentFile)
        },
{
    if cancelled {
        return Err(RenderError::RenderingCancelled);
    }
    compile_tex(false)
}

/// Checked while the compiler runs, before waiting on it again: it is
/// stopped once cancelled or after three minutes, and when its output
/// (whose size is `None` when unknown) exceeds 8 MiB.
pub fn check_running_compiler(cancelled: bool, elapsed_nanos: u128, output_len: Option<u64>) -> (r:
    Result<(), RenderError>)
    ensures
        cancelled || elapsed_nanos > COMPILE_TIME_LIMIT_NANOS ==> r == Err::<(), RenderError>(
            RenderError::CompilerStopped,
        ),
        !(cancelled || elapsed_nanos > COMPILE_TIME_LIMIT_NANOS) ==> (r is Ok <==> !(output_len is Some
            && output_len->0 > MAX_COMPILER_OUTPUT)),
        !(cancelled || elapsed_nanos > COMPILE_TIME_LIMIT_NANOS) && r is Err ==> r == Err::<
            (),
            RenderError,
        >(RenderError::CompilerOutputTooLarge),
{
    if cancelled || elapsed_nanos > COMPILE_TIME_LIMIT_NANOS {
        return Err(RenderError::CompilerStopped);
    }
    match output_len {
        Some(len) => {
            if len > MAX_COMPILER_OUTPUT {
                return Err(RenderError::CompilerOutputTooLarge);
            }
            Ok(())
        },
        None => Ok(()),
    }
}

/// Where the reported tail of a failed compiler's output starts: its last
/// 8000 bytes, or all of it when shorter.
pub fn log_tail_start(len: u64) -> (start: u64)
    ensures
        start == if len > LOG_TAIL_BYTES {
            len - LOG_TAIL_BYTES
        } else {
            0
        },
{
    if len > LOG_TAIL_BYTES {
        len - LOG_TAIL_BYTES
    } else {
        0
    }
}

/// Checks the size of the produced PDF against the preview limit.
pub fn check_pdf_size(len: u64) -> (r: Result<(), RenderError>)
    ensures
        len <= MAX_PDF_BYTES ==> r is Ok,
        len > MAX_PDF_BYTES ==> r == Err::<(), RenderError>(RenderError::PdfTooLarge),
{
    if len > MAX_PDF_BYTES {
        Err(RenderError::PdfTooLarge)
    } else {
        Ok(())
    }
}

} // verus!
