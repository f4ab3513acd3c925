use zed_latex::compiler::{
    check_pdf_size, check_running_compiler, compile_document_input, compile_tex, compile_tex_in,
    package_directory_usable,
    log_tail_start, CompileInput,
};
use zed_latex::equations::{
    batch_failure, check_math_sources, check_page_count, math_document, sources_fit, BatchFailure,
    MathEquation,
};
use zed_latex::equations::check_not_cancelled;
use zed_latex::errors::RenderError;
use zed_latex::pdf::{open_equation_pdf, open_pdf, page_index, select_page};
use zed_latex::pixels::{straight_bgra, straight_bgra_pixels, RenderedPage};

#[test]
fn raster_colors_apply_alpha_once() {
    assert_eq!(straight_bgra([64, 32, 16, 128]), [32, 64, 128, 128]);
    assert_eq!(straight_bgra([255, 255, 255, 255]), [255, 255, 255, 255]);
    assert_eq!(straight_bgra([0, 0, 0, 0]), [0, 0, 0, 0]);
}

#[test]
fn cancelled_documents_do_not_start_a_compiler() {
    let result = compile_document_input(true);
    assert!(result.err().unwrap().message().contains("cancelled"));
}

#[test]
fn straight_alpha_rounds_and_clamps() {
    // 200 * 255 / 100 = 510, clamped; an invalid premultiplied channel.
    assert_eq!(straight_bgra([200, 0, 0, 100]), [0, 0, 255, 100]);
    // (1 * 255 + 1) / 3 = 85
    assert_eq!(straight_bgra([1, 2, 3, 3]), [255, 170, 85, 3]);
    // transparent pixels lose their color
    assert_eq!(straight_bgra([9, 9, 9, 0]), [0, 0, 0, 0]);
}

#[test]
fn straightened_channels_premultiply_back() {
    for a in 0u32..=255 {
        for c in 0..=a {
            let s = straight_bgra([c as u8, 0, 0, a as u8])[2] as u32;
            assert_eq!((s * a + 127) / 255, c);
        }
    }
}

#[test]
fn opaque_pixels_only_reorder() {
    assert_eq!(straight_bgra([1, 2, 3, 255]), [3, 2, 1, 255]);
}

#[test]
fn raster_buffers_convert_pixel_by_pixel() {
    let out = straight_bgra_pixels(&[64, 32, 16, 128, 1, 2, 3, 255, 7]);
    assert_eq!(out, vec![32, 64, 128, 128, 3, 2, 1, 255]);
    let page = RenderedPage::from_premultiplied(&[10, 20, 30, 255], 1, 1, 0, 3);
    assert_eq!(page.bgra, vec![30, 20, 10, 255]);
    assert_eq!((page.width, page.height, page.page, page.count), (1, 1, 0, 3));
    assert_eq!(page.bgra.len(), page.width as usize * page.height as usize * 4);
}

fn equation(latex: &str, display: bool, color: [u8; 3]) -> MathEquation {
    MathEquation { latex: latex.to_string(), display, font_size: "16".to_string(), color }
}

#[test]
fn equation_documents_have_one_page_per_equation() {
    let document = math_document(
        &[equation(r"\frac{1}{2}", false, [210, 100, 50]), equation("x", true, [0, 0, 255])],
        r"\usepackage{amsmath,amssymb}",
    );
    assert_eq!(
        document,
        "\\documentclass[border=2pt,multi=preview]{standalone}\n\\usepackage{xcolor}\n\\usepackage{amsmath,amssymb}\n\\begin{document}\n\
\\begin{preview}\\begingroup\n\\fontsize{16}{16}\\selectfont\n\\color[RGB]{210,100,50}\n$\\textstyle \\frac{1}{2}$\n\\endgroup\\end{preview}\n\
\\begin{preview}\\begingroup\n\\fontsize{16}{16}\\selectfont\n\\color[RGB]{0,0,255}\n$\\displaystyle x$\n\\endgroup\\end{preview}\n\
\\end{document}\n"
    );
    assert_eq!(
        math_document(&[], "p"),
        "\\documentclass[border=2pt,multi=preview]{standalone}\n\\usepackage{xcolor}\np\n\\begin{document}\n\\end{document}\n"
    );
}

#[test]
fn equation_sources_are_limited() {
    let preamble = "a".repeat(262144 - 4);
    assert!(sources_fit(&[equation("abcd", false, [0; 3])], &preamble));
    assert!(!sources_fit(&[equation("abcde", false, [0; 3])], &preamble));
    assert!(!sources_fit(&[], &"b".repeat(262145)));
    // bytes, not characters
    assert!(!sources_fit(&[equation("é", false, [0; 3])], &"a".repeat(262143)));
    assert_eq!(check_math_sources(&[], "", true), Err(RenderError::RenderingCancelled));
    assert_eq!(
        check_math_sources(&[equation("x", false, [0; 3])], &"a".repeat(262144), false),
        Err(RenderError::SourcesTooLarge)
    );
    assert_eq!(check_math_sources(&[equation("x", false, [0; 3])], "", false), Ok(()));
    assert_eq!(RenderError::SourcesTooLarge.message(), "Equations or preamble are too large");
}

#[test]
fn batches_need_one_page_per_equation() {
    assert_eq!(check_page_count(2, 2), Ok(()));
    assert_eq!(check_page_count(1, 2), Err(RenderError::PageCountMismatch));
    assert_eq!(
        RenderError::PageCountMismatch.message(),
        "Each equation must produce exactly one page"
    );
}

#[test]
fn failed_batches_retry_equations_separately() {
    assert_eq!(batch_failure(2, false), BatchFailure::RetryEach);
    assert_eq!(batch_failure(1, false), BatchFailure::ShareError);
    assert_eq!(batch_failure(5, true), BatchFailure::ShareError);
}

#[test]
fn compiler_input_follows_package_directory() {
    assert_eq!(compile_tex(false), Ok(CompileInput::DocumentFile));
    assert_eq!(compile_tex(true), Err(RenderError::CompilationCancelled));
    assert_eq!(compile_tex_in(false, Some(true)), Ok(CompileInput::StdinInPackageDirectory));
    assert_eq!(compile_tex_in(false, Some(false)), Err(RenderError::PackageDirectory));
    assert_eq!(compile_tex_in(true, Some(false)), Err(RenderError::CompilationCancelled));
    assert_eq!(compile_document_input(false), Ok(CompileInput::DocumentFile));
    assert_eq!(
        RenderError::PackageDirectory.message(),
        "latex.package_directory must be an existing absolute directory"
    );
    assert_eq!(RenderError::CompilationCancelled.message(), "Compilation cancelled");
}

#[test]
fn running_compilers_are_bounded() {
    assert_eq!(check_running_compiler(false, 180_000_000_000, Some(8 * 1024 * 1024)), Ok(()));
    assert_eq!(
        check_running_compiler(false, 180_000_000_001, None),
        Err(RenderError::CompilerStopped)
    );
    assert_eq!(check_running_compiler(true, 0, None), Err(RenderError::CompilerStopped));
    assert_eq!(
        check_running_compiler(false, 0, Some(8 * 1024 * 1024 + 1)),
        Err(RenderError::CompilerOutputTooLarge)
    );
    assert_eq!(check_running_compiler(false, 0, None), Ok(()));
    assert_eq!(
        RenderError::CompilerStopped.message(),
        "LaTeX compilation cancelled or exceeded three minutes"
    );
    assert_eq!(RenderError::CompilerOutputTooLarge.message(), "LaTeX compiler output exceeded 8 MB");
}

#[test]
fn failures_report_the_output_tail() {
    assert_eq!(log_tail_start(10), 0);
    assert_eq!(log_tail_start(8000), 0);
    assert_eq!(log_tail_start(9000), 1000);
    assert_eq!(
        RenderError::CompilationFailed("! Undefined control sequence.".to_string()).message(),
        "LaTeX compilation failed:\n! Undefined control sequence."
    );
}

#[test]
fn large_pdfs_are_refused() {
    assert_eq!(check_pdf_size(100 * 1024 * 1024), Ok(()));
    assert_eq!(check_pdf_size(100 * 1024 * 1024 + 1), Err(RenderError::PdfTooLarge));
    assert_eq!(RenderError::PdfTooLarge.message(), "PDF exceeds the 100 MB preview limit");
}

#[test]
fn requested_pages_are_clamped() {
    assert_eq!(page_index(99, 2), Ok(1));
    assert_eq!(page_index(0, 2), Ok(0));
    assert_eq!(page_index(0, 0), Err(RenderError::NoPages));
    assert_eq!(RenderError::NoPages.message(), "PDF contains no pages");
}

fn two_page_pdf() -> Vec<u8> {
    let objects = [
        "<< /Type /Catalog /Pages 2 0 R >>",
        "<< /Type /Pages /Kids [3 0 R 4 0 R] /Count 2 >>",
        "<< /Type /Page /Parent 2 0 R /MediaBox [0 0 100 100] >>",
        "<< /Type /Page /Parent 2 0 R /MediaBox [0 0 100 100] >>",
    ];
    let mut pdf = String::from("%PDF-1.4\n");
    let mut offsets = Vec::new();
    for (i, object) in objects.iter().enumerate() {
        offsets.push(pdf.len());
        pdf.push_str(&format!("{} 0 obj\n{}\nendobj\n", i + 1, object));
    }
    let xref = pdf.len();
    pdf.push_str(&format!("xref\n0 {}\n0000000000 65535 f \n", objects.len() + 1));
    for offset in offsets {
        pdf.push_str(&format!("{offset:010} 00000 n \n"));
    }
    pdf.push_str(&format!(
        "trailer\n<< /Size {} /Root 1 0 R >>\nstartxref\n{}\n%%EOF\n",
        objects.len() + 1,
        xref
    ));
    pdf.into_bytes()
}

#[test]
fn documents_are_read_and_paged() {
    let pdf = open_pdf(two_page_pdf()).ok().expect("a two-page document");
    assert_eq!(pdf.page_count(), 2);
    assert_eq!(select_page(&pdf, 99), Ok((1, 2)));
    assert_eq!(select_page(&pdf, 0), Ok((0, 2)));
    assert!(open_equation_pdf(two_page_pdf(), 2).is_ok());
    assert_eq!(
        open_equation_pdf(two_page_pdf(), 1).err(),
        Some(RenderError::PageCountMismatch)
    );
}

#[test]
fn unreadable_pdfs_are_reported() {
    match open_pdf(b"not a pdf".to_vec()) {
        Err(RenderError::UnreadablePdf(why)) => {
            assert!(!why.is_empty());
            assert!(RenderError::UnreadablePdf(why).message().starts_with("Could not read PDF: "));
        }
        _ => panic!("garbage must not read as a PDF"),
    }
    assert!(matches!(
        open_equation_pdf(Vec::new(), 0),
        Err(RenderError::UnreadablePdf(_))
    ));
}

#[test]
fn cancelled_renders_stop() {
    assert_eq!(check_not_cancelled(true), Err(RenderError::RenderingCancelled));
    assert_eq!(check_not_cancelled(false), Ok(()));
    assert_eq!(RenderError::RenderingCancelled.message(), "Rendering cancelled");
}

#[test]
fn only_existing_absolute_package_directories_are_used() {
    assert!(package_directory_usable(true, true));
    assert!(!package_directory_usable(false, true));
    assert!(!package_directory_usable(true, false));
    assert!(!package_directory_usable(false, false));
}
