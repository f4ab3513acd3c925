use zed_latex::math_preview::{MathCache, MathKey};
use zed_latex::preview::{is_tex_file_name, tab_title, PreviewState, RenderDone};

/// A pane whose document has been compiled, with its first rendering
/// (page 0 of `pages`) shown.
fn compiled_pane(pages: usize) -> PreviewState {
    let mut pane = PreviewState::new();
    assert!(pane.request_compile(false, false, false));
    assert_eq!(pane.compile_finished(None).render_page, Some(0));
    assert!(matches!(pane.render_finished(Ok((0, pages))), RenderDone::Shown));
    pane
}

#[test]
fn saving_during_compilation_compiles_again() {
    let mut pane = PreviewState::new();
    assert!(pane.request_compile(false, false, false));
    assert_eq!(pane.message(), "Compiling LaTeX…");
    assert!(!pane.request_compile(false, false, false));
    let done = pane.compile_finished(None);
    assert!(done.compile_again);
    assert_eq!(done.render_page, Some(0));
    assert!(!pane.compiling() && pane.has_pdf() && pane.rendering());
    assert_eq!(pane.message(), "");
}

#[test]
fn compilation_needs_a_local_trusted_saved_document() {
    let mut pane = PreviewState::new();
    assert!(!pane.request_compile(true, false, false));
    assert_eq!(pane.message(), "LaTeX compilation currently requires a local project.");
    assert!(!pane.request_compile(false, true, false));
    assert_eq!(pane.message(), "Trust this project before compiling LaTeX.");
    assert!(!pane.request_compile(false, false, true));
    assert_eq!(pane.message(), "Save the document to compile its preview.");
    assert!(!pane.compiling());
}

#[test]
fn failed_compilation_shows_its_error() {
    let mut pane = PreviewState::new();
    assert!(pane.request_compile(false, false, false));
    let done = pane.compile_finished(Some("LaTeX compilation failed:\n!".to_string()));
    assert_eq!(done.render_page, None);
    assert!(!done.compile_again);
    assert_eq!(pane.message(), "LaTeX compilation failed:\n!");
    assert_eq!(pane.request_render(), None);
}

#[test]
fn stale_renders_are_dropped() {
    let mut pane = compiled_pane(3);
    assert_eq!(pane.next(), Some(1));
    assert_eq!(pane.next(), None);
    assert_eq!(pane.page(), 2);
    match pane.render_finished(Ok((1, 3))) {
        RenderDone::Rerun(page) => assert_eq!(page, Some(2)),
        _ => panic!("a newer request must be rendered"),
    }
    assert!(matches!(pane.render_finished(Ok((2, 3))), RenderDone::Shown));
    assert_eq!((pane.page(), pane.page_count()), (2, 3));
    assert!(!pane.rendering());
    pane.request_render();
    assert!(matches!(pane.render_finished(Err("Page is too large".into())), RenderDone::Failed));
    assert_eq!(pane.message(), "Page is too large");
}

#[test]
fn page_buttons_stay_in_the_document() {
    let pane = PreviewState::new();
    assert_eq!(pane.page_label(), "0 / 0");
    assert!(pane.previous_disabled());
    assert!(pane.next_disabled());
    let mut pane = compiled_pane(2);
    assert_eq!(pane.page_label(), "1 / 2");
    assert_eq!(pane.next(), Some(1));
    pane.render_finished(Ok((1, 2)));
    assert!(pane.next_disabled());
    assert_eq!(pane.next(), Some(1));
    pane.render_finished(Ok((1, 2)));
    assert_eq!(pane.page_label(), "2 / 2");
    assert_eq!(pane.previous(), Some(0));
    pane.render_finished(Ok((0, 2)));
    assert_eq!(pane.previous(), Some(0));
    assert!(pane.previous_disabled());
}

#[test]
fn shorter_documents_move_the_page_into_range() {
    let mut pane = compiled_pane(5);
    for _ in 0..4 {
        pane.next();
        pane.render_finished(Ok((pane.page(), 5)));
    }
    assert_eq!(pane.page(), 4);
    pane.request_render();
    pane.render_finished(Ok((1, 2)));
    assert_eq!((pane.page(), pane.page_count()), (1, 2));
    assert!(pane.page() < pane.page_count());
}

#[test]
fn only_tex_files_are_previewed() {
    assert!(is_tex_file_name("document.tex"));
    assert!(is_tex_file_name("a..tex"));
    assert!(!is_tex_file_name(".tex"));
    assert!(!is_tex_file_name("document.md"));
    assert!(!is_tex_file_name("tex"));
    assert_eq!(tab_title("document.tex"), "document.tex — Preview");
}

fn key(latex: &str, display: bool) -> MathKey {
    MathKey {
        latex: latex.to_string(),
        display,
        font_size: 16.0f32.to_bits(),
        color: [1.0f32.to_bits(); 4],
        preamble: r"\usepackage{amsmath,amssymb}".to_string(),
        package_directory: None,
    }
}

#[test]
fn math_cache_keeps_used_equations() {
    let mut cache: MathCache<&str> = MathCache::new();
    assert_eq!(cache.insert(key("a", false), "image a"), 0);
    assert_eq!(cache.insert(key("b", true), "image b"), 1);
    assert_eq!(cache.insert(key("c", false), "image c"), 2);
    assert_eq!(cache.position(&key("b", true)), Some(1));
    assert_eq!(cache.position(&key("b", false)), None);
    let mut other_directory = key("a", false);
    other_directory.package_directory = Some(vec!["/".to_string(), "tex".to_string()]);
    assert_eq!(cache.position(&other_directory), None);
    let dropped = cache.retain_used(&[key("c", false), key("a", false)]);
    assert_eq!(dropped, vec!["image b"]);
    assert_eq!(cache.len(), 2);
    assert_eq!(cache.get(&key("a", false)), Some(&"image a"));
    assert_eq!(cache.get(&key("c", false)), Some(&"image c"));
    assert_eq!(cache.get(&key("b", true)), None);
    assert_eq!(cache.retain_used(&[]), vec!["image a", "image c"]);
    assert_eq!(cache.len(), 0);
}

#[test]
fn unchanged_equations_find_their_cached_result() {
    let mut cache: MathCache<u32> = MathCache::new();
    let mut with_directory = key("x", false);
    with_directory.package_directory = Some(vec!["/".to_string(), "tex".to_string()]);
    cache.insert(with_directory, 7);
    let mut same_directory = key("x", false);
    same_directory.package_directory = Some(vec!["/".to_string(), "tex".to_string()]);
    assert_eq!(cache.get(&same_directory), Some(&7));
    let mut recolored = key("x", false);
    recolored.package_directory = Some(vec!["/".to_string(), "tex".to_string()]);
    recolored.color[0] = 0.5f32.to_bits();
    assert_eq!(cache.get(&recolored), None);
}
