use vstd::prelude::*;

use crate::text::{chars_of, decimal, push_decimal, push_str};

verus! {

/// The decisions of the TeX document preview pane: when a compilation or a
/// page rendering starts, how requests that arrive while one runs are
/// coalesced, what the status message says, and how the page buttons move.
/// The pane itself (buffers, tasks, images, zoom) drives this state. The
/// page shown always lies within the document.
pub struct PreviewState {
    /// Zero-based index of the page shown or requested.
    page: usize,
    /// Number of pages of the last rendered document; 0 before any.
    page_count: usize,
    /// Whether a compiled document is available for rendering.
    has_pdf: bool,
    /// The status line; empty when there is nothing to report.
    message: String,
    /// A compilation is running.
    compiling: bool,
    /// A page rendering is running.
    rendering: bool,
    /// A rendering was requested while another one ran.
    render_again: bool,
    /// A compilation was requested while another one ran.
    compile_again: bool,
}

/// The spec view of the preview pane's decision state.
pub struct PreviewModel {
    pub page: nat,
    pub page_count: nat,
    pub has_pdf: bool,
    pub message: Seq<char>,
    pub compiling: bool,
    pub rendering: bool,
    pub render_again: bool,
    pub compile_again: bool,
}

impl View for PreviewState {
    type V = PreviewModel;

    closed spec fn view(&self) -> PreviewModel {
        PreviewModel {
            page: self.page as nat,
            page_count: self.page_count as nat,
            has_pdf: self.has_pdf,
            message: self.message@,
            compiling: self.compiling,
            rendering: self.rendering,
            render_again: self.render_again,
            compile_again: self.compile_again,
        }
    }
}

/// The page lies within the document: page 0 while there are no pages,
/// otherwise one of the document's pages.
pub open spec fn page_in_document(page: nat, count: nat) -> bool {
    &&& count == 0 ==> page == 0
    &&& count > 0 ==> page < count
}

pub open spec fn remote_message() -> Seq<char> {
    "LaTeX compilation currently requires a local project."@
}

pub open spec fn untrusted_message() -> Seq<char> {
    "Trust this project before compiling LaTeX."@
}

pub open spec fn unsaved_message() -> Seq<char> {
    "Save the document to compile its preview."@
}

pub open spec fn compiling_message() -> Seq<char> {
    "Compiling LaTeX…"@
}

/// The state after a compilation is requested, and whether one starts.
pub open spec fn after_compile_request(s: PreviewModel, remote: bool, restricted: bool, dirty: bool) -> (
    PreviewModel,
    bool,
) {
    if s.compiling {
        (PreviewModel { compile_again: true, ..s }, false)
    } else if remote {
        (PreviewModel { message: remote_message(), ..s }, false)
    } else if restricted {
        (PreviewModel { message: untrusted_message(), ..s }, false)
    } else if dirty {
        (PreviewModel { message: unsaved_message(), ..s }, false)
    } else {
        (PreviewModel { compiling: true, message: compiling_message(), ..s }, true)
    }
}

/// The state after a rendering is requested, and the page to render when
/// one starts.
pub open spec fn after_render_request(s: PreviewModel) -> (PreviewModel, Option<nat>) {
    if s.rendering {
        (PreviewModel { render_again: true, ..s }, None)
    } else if !s.has_pdf {
        (s, None)
    } else {
        (PreviewModel { rendering: true, ..s }, Some(s.page))
    }
}

/// What the pane does once a compilation has finished.
pub struct CompileDone {
    /// Start rendering this page of the new document.
    pub render_page: Option<usize>,
    /// A compilation was requested meanwhile: request one again.
    pub compile_again: bool,
}

/// The state after a compilation finishes (with an error message on
/// failure), and the rendering it starts.
pub open spec fn after_compile_done(s: PreviewModel, error: Option<Seq<char>>) -> (
    PreviewModel,
    Option<nat>,
) {
    let s1 = PreviewModel { compiling: false, ..s };
    match error {
        None => after_render_request(PreviewModel { has_pdf: true, message: Seq::empty(), ..s1 }),
        Some(e) => (PreviewModel { message: e, ..s1 }, None),
    }
}

/// What the pane does once a page rendering has finished.
pub enum RenderDone {
    /// A newer request arrived meanwhile: this result is stale and is
    /// dropped; render the given page instead (if a document is available).
    Rerun(Option<usize>),
    /// The rendered page is shown.
    Shown,
    /// Rendering failed; the message says why.
    Failed,
}

/// The state after a rendering finishes with the page and page count it
/// rendered, or with an error message.
pub open spec fn after_render_done(s: PreviewModel, result: Result<(nat, nat), Seq<char>>) -> (
    PreviewModel,
    Option<nat>,
) {
    let s1 = PreviewModel { rendering: false, ..s };
    if s.render_again {
        after_render_request(PreviewModel { render_again: false, ..s1 })
    } else {
        match result {
            Ok((page, count)) => (
                PreviewModel {
                    message: if s.compiling {
                        s.message
                    } else {
                        Seq::empty()
                    },
                    page: page,
                    page_count: count,
                    ..s1
                },
                None,
            ),
            Err(e) => (PreviewModel { message: e, ..s1 }, None),
        }
    }
}

/// The page the "Next" button moves to.
pub open spec fn next_page(page: nat, count: nat) -> nat {
    let last: nat = if count == 0 {
        0
    } else {
        (count - 1) as nat
    };
    if page + 1 < last {
        page + 1
    } else {
        last
    }
}

/// The page the "Previous" button moves to.
pub open spec fn previous_page(page: nat) -> nat {
    if page == 0 {
        0
    } else {
        (page - 1) as nat
    }
}

/// The page counter, "current / total", where current is 0 when there are
/// no pages.
pub open spec fn page_label_text(page: nat, count: nat) -> Seq<char> {
    let current: nat = if count == 0 {
        0
    } else {
        page + 1
    };
    decimal(current) + " / "@ + decimal(count)
}

/// At most one compilation runs: a request starts one only when none is
/// running, and a request that arrives during a compilation starts nothing
/// but is remembered, so that the compilation finishing asks for another.
pub proof fn lemma_compile_requests_coalesce(s: PreviewModel, remote: bool, restricted: bool, dirty: bool)
    ensures
        after_compile_request(s, remote, restricted, dirty).1 ==> !s.compiling
            && after_compile_request(s, remote, restricted, dirty).0.compiling,
        s.compiling ==> !after_compile_request(s, remote, restricted, dirty).1
            && after_compile_request(s, remote, restricted, dirty).0.compiling
            && after_compile_request(s, remote, restricted, dirty).0.compile_again,
{
}

/// At most one rendering runs, and a rendering requested while one runs is
/// not lost: the running one's result is dropped as stale and the page
/// current at that time is rendered instead.
pub proof fn lemma_render_requests_coalesce(s: PreviewModel, result: Result<(nat, nat), Seq<char>>)
    ensures
        after_render_request(s).1 is Some ==> !s.rendering && s.has_pdf
            && after_render_request(s).0.rendering,
        s.rendering ==> after_render_request(s).1 is None && after_render_request(s).0.render_again,
        s.render_again && s.has_pdf ==> ({
            let (t, r) = after_render_done(s, result);
            &&& r == Some(s.page)
            &&& t.rendering
            &&& !t.render_again
            &&& t.page == s.page
            &&& t.page_count == s.page_count
            &&& t.message == s.message
        }),
{
}

/// A successful compilation shows its document: the current page is rendered
/// right away unless a rendering is running, in which case it is rendered
/// once that one finishes.
pub proof fn lemma_compiled_document_is_rendered(s: PreviewModel)
    ensures
        ({
            let (t, r) = after_compile_done(s, None);
            &&& t.has_pdf
            &&& !t.compiling
            &&& (s.rendering ==> r is None && t.render_again)
            &&& (!s.rendering ==> r == Some(s.page) && t.rendering)
        }),
{
}

/// The page buttons stay within the document: "Next" never moves past the
/// last page and moves forward while there is a next page; "Previous" never
/// moves before the first page and moves back while there is one.
pub proof fn lemma_page_navigation_bounds(page: nat, count: nat)
    ensures
        count > 0 ==> next_page(page, count) < count,
        page + 1 < count ==> next_page(page, count) == page + 1,
        page > 0 ==> previous_page(page) == page - 1,
        previous_page(page) <= page,
{
}

/// The page shown stays within the document over every sequence of events:
/// each request, completion and page button keeps page 0 while there are no
/// pages and otherwise one of the document's pages, provided a finished
/// rendering reports one of its document's pages.
pub proof fn lemma_events_keep_page_in_document(
    s: PreviewModel,
    remote: bool,
    restricted: bool,
    dirty: bool,
    error: Option<Seq<char>>,
    result: Result<(nat, nat), Seq<char>>,
)
    requires
        page_in_document(s.page, s.page_count),
        result matches Ok((page, count)) ==> page < count,
    ensures
        ({
            let t = after_compile_request(s, remote, restricted, dirty).0;
            page_in_document(t.page, t.page_count)
        }),
        ({
            let t = after_render_request(s).0;
            page_in_document(t.page, t.page_count)
        }),
        ({
            let t = after_compile_done(s, error).0;
            page_in_document(t.page, t.page_count)
        }),
        ({
            let t = after_render_done(s, result).0;
            page_in_document(t.page, t.page_count)
        }),
        ({
            let t = after_render_request(
                PreviewModel { page: next_page(s.page, s.page_count), ..s },
            ).0;
            page_in_document(t.page, t.page_count)
        }),
        ({
            let t = after_render_request(PreviewModel { page: previous_page(s.page), ..s }).0;
            page_in_document(t.page, t.page_count)
        }),
{
}

/// A compilation starts exactly when none is running and the document is
/// local, trusted and saved, whatever else the pane holds (an earlier
/// document, the page, a rendering). When it starts, the pane is compiling
/// and says so. A request never moves the page, changes the document or
/// touches a rendering.
pub proof fn lemma_compile_request_starts_when_allowed(
    s: PreviewModel,
    remote: bool,
    restricted: bool,
    dirty: bool,
)
    ensures
        ({
            let (t, start) = after_compile_request(s, remote, restricted, dirty);
            &&& start == (!s.compiling && !remote && !restricted && !dirty)
            &&& start ==> t.compiling && t.message == compiling_message()
            &&& t.compiling == (s.compiling || start)
            &&& t.page == s.page
            &&& t.page_count == s.page_count
            &&& t.has_pdf == s.has_pdf
            &&& t.rendering == s.rendering
            &&& t.render_again == s.render_again
        }),
{
}

/// A rendering that finishes with no newer request pending shows what it
/// reports: on success the page and page count it rendered; on failure the
/// page and page count stay as they were and only the message changes, to
/// the error. Either way no rendering runs afterwards and the document
/// stays available.
pub proof fn lemma_render_result_decides_page(s: PreviewModel, result: Result<(nat, nat), Seq<char>>)
    requires
        !s.render_again,
    ensures
        ({
            let (t, again) = after_render_done(s, result);
            &&& again is None
            &&& !t.rendering
            &&& t.has_pdf == s.has_pdf
            &&& t.compiling == s.compiling
            &&& match result {
                Ok((page, count)) => t.page == page && t.page_count == count,
                Err(e) => t.page == s.page && t.page_count == s.page_count && t.message == e,
            }
        }),
{
}

/// A file name whose extension is `tex`: it ends in ".tex" after a
/// non-empty stem (".tex" alone is a hidden file without extension).
pub open spec fn has_tex_extension(name: Seq<char>) -> bool {
    &&& name.len() > 4
    &&& name.subrange(name.len() - 4, name.len() as int) == ".tex"@
}

/// Whether the preview command applies to a file with this name: only TeX
/// documents are previewed.
pub fn is_tex_file_name(name: &str) -> (r: bool)
    ensures
        r == has_tex_extension(name@),
{
    proof {
        reveal_strlit(".tex");
    }
    let cs = chars_of(name);
    let n = cs.len();
    if n <= 4 {
        return false;
    }
    let r = cs[n - 4] == '.' && cs[n - 3] == 't' && cs[n - 2] == 'e' && cs[n - 1] == 'x';
    proof {
        let tail = name@.subrange(n - 4, n as int);
        if r {
            assert(tail =~= ".tex"@);
        } else {
            assert(tail[0] != '.' || tail[1] != 't' || tail[2] != 'e' || tail[3] != 'x');
        }
    }
    r
}

/// The tab title of a preview: the document's file name and "— Preview".
pub fn tab_title(file_name: &str) -> (r: String)
    ensures
        r@ == file_name@ + " — Preview"@,
{
    let mut title = file_name.to_owned();
    push_str(&mut title, " — Preview");
    title
}

impl PreviewState {
    #[verifier::type_invariant]
    spec fn page_shown_in_document(self) -> bool {
        page_in_document(self.page as nat, self.page_count as nat)
    }

    /// Zero-based index of the page shown or requested; it lies within the
    /// document.
    pub fn page(&self) -> (p: usize)
        ensures
            p == self@.page,
            page_in_document(self@.page, self@.page_count),
    {
        proof {
            use_type_invariant(self);
        }
        self.page
    }

    /// Number of pages of the last rendered document; 0 before any.
    pub fn page_count(&self) -> (n: usize)
        ensures
            n == self@.page_count,
            page_in_document(self@.page, self@.page_count),
    {
        proof {
            use_type_invariant(self);
        }
        self.page_count
    }

    /// Whether a compiled document is available for rendering.
    pub fn has_pdf(&self) -> (r: bool)
        ensures
            r == self@.has_pdf,
    {
        self.has_pdf
    }

    /// The status line; empty when there is nothing to report.
    pub fn message(&self) -> (m: &String)
        ensures
            m@ == self@.message,
    {
        &self.message
    }

    /// Whether a compilation is running.
    pub fn compiling(&self) -> (r: bool)
        ensures
            r == self@.compiling,
    {
        self.compiling
    }

    /// Whether a page rendering is running.
    pub fn rendering(&self) -> (r: bool)
        ensures
            r == self@.rendering,
    {
        self.rendering
    }

    /// A pane that has not compiled anything yet.
    pub fn new() -> (s: PreviewState)
        ensures
            s@ == (PreviewModel {
                page: 0,
                page_count: 0,
                has_pdf: false,
                message: Seq::empty(),
                compiling: false,
                rendering: false,
                render_again: false,
                compile_again: false,
            }),
    {
        PreviewState {
            page: 0,
            page_count: 0,
            has_pdf: false,
            message: String::new(),
            compiling: false,
            rendering: false,
            render_again: false,
            compile_again: false,
        }
    }

    /// A compilation is requested (on opening, saving or "Rebuild"). Returns
    /// whether the pane starts compiling now. `remote`: the project is not
    /// local; `restricted`: it has untrusted worktrees; `dirty`: the buffer
    /// has unsaved changes.
    pub fn request_compile(&mut self, remote: bool, restricted: bool, dirty: bool) -> (start: bool)
        ensures
            (final(self)@, start) == after_compile_request(old(self)@, remote, restricted, dirty),
    {
        proof {
            use_type_invariant(&*self);
        }
        if self.compiling {
            self.compile_again = true;
            return false;
        }
        if remote {
            self.message = "LaTeX compilation currently requires a local project.".to_owned();
            false
        } else if restricted {
            self.message = "Trust this project before compiling LaTeX.".to_owned();
            false
        } else if dirty {
            self.message = "Save the document to compile its preview.".to_owned();
            false
        } else {
            self.compiling = true;
            self.message = "Compiling LaTeX…".to_owned();
            true
        }
    }

    /// A page rendering is requested. Returns the page to render when a
    /// rendering starts now.
    pub fn request_render(&mut self) -> (page: Option<usize>)
        ensures
            (final(self)@, match page {
                Some(p) => Some(p as nat),
                None => None,
            }) == after_render_request(old(self)@),
    {
        proof {
            use_type_invariant(&*self);
        }
        if self.rendering {
            self.render_again = true;
            return None;
        }
        if !self.has_pdf {
            return None;
        }
        self.rendering = true;
        Some(self.page)
    }

    /// A compilation finished; `error` holds its message when it failed.
    pub fn compile_finished(&mut self, error: Option<String>) -> (done: CompileDone)
        ensures
            (final(self)@, match done.render_page {
                Some(p) => Some(p as nat),
                None => None,
            }) == {
                let (s, r) = after_compile_done(
                    old(self)@,
                    match error {
                        Some(e) => Some(e@),
                        None => None,
                    },
                );
                (PreviewModel { compile_again: false, ..s }, r)
            },
            done.compile_again == old(self)@.compile_again,
    {
        proof {
            use_type_invariant(&*self);
        }
        self.compiling = false;
        let render_page = match error {
            None => {
                self.has_pdf = true;
                self.message = String::new();
                self.request_render()
            },
            Some(e) => {
                self.message = e;
                None
            },
        };
        let compile_again = self.compile_again;
        self.compile_again = false;
        CompileDone { render_page, compile_again }
    }

    /// A page rendering finished with the page index and page count it
    /// rendered, or with an error message.
    pub fn render_finished(&mut self, result: Result<(usize, usize), String>) -> (done: RenderDone)
        requires
            result matches Ok((page, count)) ==> page < count,
        ensures
            (final(self)@, match done {
                RenderDone::Rerun(Some(p)) => Some(p as nat),
                _ => None,
            }) == after_render_done(
                old(self)@,
                match result {
                    Ok((p, c)) => Ok((p as nat, c as nat)),
                    Err(e) => Err(e@),
                },
            ),
            old(self)@.render_again <==> done is Rerun,
            !old(self)@.render_again ==> (done is Shown <==> result is Ok),
    {
        proof {
            use_type_invariant(&*self);
        }
        self.rendering = false;
        if self.render_again {
            self.render_again = false;
            return RenderDone::Rerun(self.request_render());
        }
        match result {
            Ok((page, count)) => {
                if !self.compiling {
                    self.message = String::new();
                }
                self.page = 0;
                self.page_count = count;
                self.page = page;
                RenderDone::Shown
            },
            Err(e) => {
                self.message = e;
                RenderDone::Failed
            },
        }
    }

    /// The "Previous" button: moves back one page (not before the first)
    /// and requests a rendering.
    pub fn previous(&mut self) -> (page: Option<usize>)
        ensures
            (final(self)@, match page {
                Some(p) => Some(p as nat),
                None => None,
            }) == after_render_request(
                PreviewModel { page: previous_page(old(self)@.page), ..old(self)@ },
            ),
    {
        proof {
            use_type_invariant(&*self);
        }
        self.page = if self.page == 0 {
            0
        } else {
            self.page - 1
        };
        self.request_render()
    }

    /// The "Next" button: moves on one page (not past the last) and requests
    /// a rendering.
    pub fn next(&mut self) -> (page: Option<usize>)
        ensures
            (final(self)@, match page {
                Some(p) => Some(p as nat),
                None => None,
            }) == after_render_request(
                PreviewModel {
                    page: next_page(old(self)@.page, old(self)@.page_count),
                    ..old(self)@
                },
            ),
    {
        proof {
            use_type_invariant(&*self);
        }
        let last = if self.page_count == 0 {
            0
        } else {
            self.page_count - 1
        };
        self.page = if self.page < last {
            self.page + 1
        } else {
            last
        };
        self.request_render()
    }

    /// Whether the "Previous" button is disabled: on the first page.
    pub fn previous_disabled(&self) -> (r: bool)
        ensures
            r == (self@.page == 0),
    {
        self.page == 0
    }

    /// Whether the "Next" button is disabled: on or past the last page.
    pub fn next_disabled(&self) -> (r: bool)
        ensures
            r == (self@.page + 1 >= self@.page_count),
    {
        self.page_count == 0 || self.page >= self.page_count - 1
    }

    /// The page counter shown between the buttons.
    pub fn page_label(&self) -> (r: String)
        ensures
            r@ == page_label_text(self@.page, self@.page_count),
    {
        proof {
            use_type_invariant(self);
        }
        let mut label = String::new();
        if self.page_count == 0 {
            push_decimal(&mut label, 0);
        } else {
            push_decimal(&mut label, self.page + 1);
        }
        push_str(&mut label, " / ");
        push_decimal(&mut label, self.page_count);
        label
    }
}

} // verus!
