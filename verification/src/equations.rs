use vstd::prelude::*;

use crate::errors::RenderError;
use crate::text::{decimal, push_decimal, push_str};

verus! {

/// Most bytes of TeX source (preamble plus equations) compiled at once.
pub const MAX_SOURCE_BYTES: usize = 262144;

/// One equation of a Markdown or notebook preview.
#[derive(Clone)]
pub struct MathEquation {
    /// The TeX source between the math delimiters.
    pub latex: String,
    /// Display style (`$$...$$`) rather than inline (`$...$`).
    pub display: bool,
    /// The font size in points, as the decimal text written into the document.
    pub font_size: String,
    /// The text color as red, green and blue.
    pub color: [u8; 3],
}

pub open spec fn style_text(display: bool) -> Seq<char> {
    if display {
        "\\displaystyle "@
    } else {
        "\\textstyle "@
    }
}

/// The page of the standalone document that typesets one equation.
pub open spec fn equation_text(e: MathEquation) -> Seq<char> {
    "\\begin{preview}\\begingroup\n\\fontsize{"@ + e.font_size@ + "}{"@ + e.font_size@
        + "}\\selectfont\n\\color[RGB]{"@ + decimal(e.color[0] as nat) + ","@ + decimal(
        e.color[1] as nat,
    ) + ","@ + decimal(e.color[2] as nat) + "}\n$"@ + style_text(e.display) + e.latex@
        + "$\n\\endgroup\\end{preview}\n"@
}

pub open spec fn equations_text(es: Seq<MathEquation>) -> Seq<char>
    decreases es.len(),
{
    if es.len() == 0 {
        Seq::empty()
    } else {
        equations_text(es.subrange(0, es.len() - 1)) + equation_text(es[es.len() - 1])
    }
}

pub open spec fn document_head(preamble: Seq<char>) -> Seq<char> {
    "\\documentclass[border=2pt,multi=preview]{standalone}\n\\usepackage{xcolor}\n"@ + preamble
        + "\n\\begin{document}\n"@
}

/// The standalone TeX document with one page per equation, in order.
pub open spec fn math_document_text(es: Seq<MathEquation>, preamble: Seq<char>) -> Seq<char> {
    document_head(preamble) + equations_text(es) + "\\end{document}\n"@
}

fn equation_page(e: &MathEquation) -> (t: String)
    ensures
        t@ == equation_text(*e),
{
    let style = if e.display {
        "\\displaystyle "
    } else {
        "\\textstyle "
    };
    let mut t = "\\begin{preview}\\begingroup\n\\fontsize{".to_owned();
    push_str(&mut t, e.font_size.as_str());
    push_str(&mut t, "}{");
    push_str(&mut t, e.font_size.as_str());
    push_str(&mut t, "}\\selectfont\n\\color[RGB]{");
    push_decimal(&mut t, e.color[0] as usize);
    push_str(&mut t, ",");
    push_decimal(&mut t, e.color[1] as usize);
    push_str(&mut t, ",");
    push_decimal(&mut t, e.color[2] as usize);
    push_str(&mut t, "}\n$");
    push_str(&mut t, style);
    push_str(&mut t, e.latex.as_str());
    push_str(&mut t, "$\n\\endgroup\\end{preview}\n");
    t
}

fn push_equation(document: &mut String, e: &MathEquation)
    ensures
        final(document)@ == old(document)@ + equation_text(*e),
{
    let t = equation_page(e);
    push_str(document, t.as_str());
}

/// Writes the TeX document that typesets the equations on consecutive pages
/// of a standalone document, after the shared preamble.
pub fn math_document(equations: &[MathEquation], preamble: &str) -> (document: String)
    ensures
        document@ == math_document_text(equations@, preamble@),
{
    let mut document = "\\documentclass[border=2pt,multi=preview]{standalone}\n\\usepackage{xcolor}\n".to_owned();
    push_str(&mut document, preamble);
    push_str(&mut document, "\n\\begin{document}\n");
    let n = equations.len();
    let mut i: usize = 0;
    proof {
        assert(equations@.subrange(0, 0) =~= Seq::<MathEquation>::empty());
        assert(document@ =~= document_head(preamble@) + equations_text(equations@.subrange(0, 0)));
    }
    while i < n
        invariant
            n == equations@.len(),
            i <= n,
            document@ == document_head(preamble@) + equations_text(equations@.subrange(0, i as int)),
        decreases n - i,
    {
        push_equation(&mut document, &equations[i]);
        proof {
            let next = equations@.subrange(0, i + 1);
            assert(next.subrange(0, next.len() - 1) =~= equations@.subrange(0, i as int));
            assert(document@ =~= document_head(preamble@) + equations_text(next));
        }
        i += 1;
    }
    push_str(&mut document, "\\end{document}\n");
    proof {
        assert(equations@.subrange(0, n as int) =~= equations@);
    }
    document
}

/// Each equation's page sets that equation's font size: right after the
/// page opens, it holds `\fontsize{size}{size}` with the equation's own
/// font size text.
pub proof fn lemma_page_sets_font_size(e: MathEquation)
    ensures
        ({
            let opening = "\\begin{preview}\\begingroup\n"@;
            let command = "\\fontsize{"@ + e.font_size@ + "}{"@ + e.font_size@ + "}"@;
            equation_text(e).subrange(opening.len() as int, opening.len() + command.len() as int)
                == command
        }),
{
    reveal_strlit("\\begin{preview}\\begingroup\n\\fontsize{");
    reveal_strlit("\\begin{preview}\\begingroup\n");
    reveal_strlit("\\fontsize{");
    reveal_strlit("}{");
    reveal_strlit("}");
    reveal_strlit("}\\selectfont\n\\color[RGB]{");
    let opening = "\\begin{preview}\\begingroup\n"@;
    let command = "\\fontsize{"@ + e.font_size@ + "}{"@ + e.font_size@ + "}"@;
    let t = equation_text(e);
    assert forall|i: int| 0 <= i < command.len() implies t[opening.len() + i] == command[i] by {
    }
    assert(t.subrange(opening.len() as int, opening.len() + command.len() as int) =~= command);
}

/// Two equations that differ only in font size are typeset on different
/// pages.
pub proof fn lemma_font_size_changes_page(a: MathEquation, b: MathEquation)
    requires
        a.latex@ == b.latex@,
        a.display == b.display,
        a.color == b.color,
        a.font_size@ != b.font_size@,
    ensures
        equation_text(a) != equation_text(b),
{
    reveal_strlit("\\fontsize{");
    reveal_strlit("}{");
    reveal_strlit("}");
    lemma_page_sets_font_size(a);
    lemma_page_sets_font_size(b);
    if a.font_size@.len() == b.font_size@.len() && equation_text(a) == equation_text(b) {
        let opening = "\\begin{preview}\\begingroup\n"@;
        let ca = "\\fontsize{"@ + a.font_size@ + "}{"@ + a.font_size@ + "}"@;
        let cb = "\\fontsize{"@ + b.font_size@ + "}{"@ + b.font_size@ + "}"@;
        assert(ca == cb);
        assert(ca.subrange(10, 10 + a.font_size@.len() as int) =~= a.font_size@);
        assert(cb.subrange(10, 10 + b.font_size@.len() as int) =~= b.font_size@);
    }
}

proof fn lemma_equations_text_append(a: Seq<MathEquation>, b: Seq<MathEquation>)
    ensures
        equations_text(a + b) == equations_text(a) + equations_text(b),
    decreases b.len(),
{
    if b.len() == 0 {
        assert(a + b =~= a);
        assert(equations_text(a) + equations_text(b) =~= equations_text(a));
    } else {
        let c = a + b;
        let b0 = b.subrange(0, b.len() - 1);
        lemma_equations_text_append(a, b0);
        assert(c.subrange(0, c.len() - 1) =~= a + b0);
        assert(c[c.len() - 1] == b[b.len() - 1]);
        assert(equations_text(c) =~= equations_text(a) + equations_text(b));
    }
}

/// The document holds every equation's page, whole and in one piece.
pub proof fn lemma_document_holds_each_page(es: Seq<MathEquation>, preamble: Seq<char>, i: int)
    requires
        0 <= i < es.len(),
    ensures
        exists|o: int|
            #![trigger math_document_text(es, preamble).subrange(o, o + equation_text(es[i]).len() as int)]
            0 <= o && o + equation_text(es[i]).len() <= math_document_text(es, preamble).len()
                && math_document_text(es, preamble).subrange(o, o + equation_text(es[i]).len() as int)
                == equation_text(es[i]),
{
    let before = es.subrange(0, i);
    let one = seq![es[i]];
    let after = es.subrange(i + 1, es.len() as int);
    assert(es =~= before + one + after);
    lemma_equations_text_append(before + one, after);
    lemma_equations_text_append(before, one);
    assert(one.subrange(0, 0) =~= Seq::<MathEquation>::empty());
    assert(one[0] == es[i]);
    assert(equations_text(one.subrange(0, 0)) =~= Seq::<char>::empty());
    assert(equations_text(one) =~= equation_text(es[i]));
    let d = math_document_text(es, preamble);
    let o: int = (document_head(preamble).len() + equations_text(before).len()) as int;
    let page = equation_text(es[i]);
    assert(d =~= document_head(preamble) + equations_text(before) + page + equations_text(after)
        + "\\end{document}\n"@);
    assert(d.subrange(o, o + page.len() as int) =~= page);
}

/// The length that `str::len` reports: bytes of UTF-8.
pub open spec fn byte_len(s: Seq<char>) -> usize {
    vstd::utf8::encode_utf8(s).len() as usize
}

/// Bytes of UTF-8 that the equations' sources occupy together.
pub open spec fn latex_bytes(es: Seq<MathEquation>) -> int
    decreases es.len(),
{
    if es.len() == 0 {
        0
    } else {
        latex_bytes(es.subrange(0, es.len() - 1)) + byte_len(es[es.len() - 1].latex@)
    }
}

proof fn lemma_latex_bytes_grow(es: Seq<MathEquation>, i: int, j: int)
    requires
        0 <= i <= j <= es.len(),
    ensures
        latex_bytes(es.subrange(0, i)) <= latex_bytes(es.subrange(0, j)),
    decreases j - i,
{
    if i < j {
        let sj = es.subrange(0, j);
        assert(sj.subrange(0, sj.len() - 1) =~= es.subrange(0, j - 1));
        lemma_latex_bytes_grow(es, i, j - 1);
    }
}

/// Whether the preamble and the equations together stay within the size
/// that is compiled at once (counted in bytes of UTF-8).
pub fn sources_fit(equations: &[MathEquation], preamble: &str) -> (r: bool)
    ensures
        r == (byte_len(preamble@) + latex_bytes(equations@) <= MAX_SOURCE_BYTES),
{
    let mut total: usize = preamble.len();
    if total > MAX_SOURCE_BYTES {
        proof {
            lemma_latex_bytes_grow(equations@, 0, equations@.len() as int);
            assert(equations@.subrange(0, equations@.len() as int) =~= equations@);
        }
        return false;
    }
    let n = equations.len();
    let mut i: usize = 0;
    proof {
        assert(equations@.subrange(0, 0) =~= Seq::<MathEquation>::empty());
    }
    while i < n
        invariant
            n == equations@.len(),
            i <= n,
            total <= MAX_SOURCE_BYTES,
            total == byte_len(preamble@) + latex_bytes(
                equations@.subrange(0, i as int),
            ),
        decreases n - i,
    {
        let len = equations[i].latex.as_str().len();
        proof {
            let next = equations@.subrange(0, i + 1);
            assert(next.subrange(0, next.len() - 1) =~= equations@.subrange(0, i as int));
        }
        if len > MAX_SOURCE_BYTES - total {
            proof {
                lemma_latex_bytes_grow(equations@, i + 1, n as int);
                assert(equations@.subrange(0, n as int) =~= equations@);
            }
            return false;
        }
        total = total + len;
        i += 1;
    }
    proof {
        assert(equations@.subrange(0, n as int) =~= equations@);
    }
    true
}

/// Nothing more is compiled or rasterized once rendering is cancelled.
pub fn check_not_cancelled(cancelled: bool) -> (r: Result<(), RenderError>)
    ensures
        r == if cancelled {
            Err(RenderError::RenderingCancelled)
        } else {
            Ok::<(), RenderError>(())
        },
{
    if cancelled {
        Err(RenderError::RenderingCancelled)
    } else {
        Ok(())
    }
}

/// Checks the preamble and equations before a batch is compiled: nothing
/// starts once rendering is cancelled, nor beyond the source size limit.
pub fn check_math_sources(equations: &[MathEquation], preamble: &str, cancelled: bool) -> (r: Result<(), RenderError>)
    ensures
        cancelled ==> r == Err::<(), RenderError>(RenderError::RenderingCancelled),
        !cancelled ==> (r is Ok <==> byte_len(preamble@) + latex_bytes(equations@)
            <= MAX_SOURCE_BYTES),
        !cancelled && r is Err ==> r == Err::<(), RenderError>(RenderError::SourcesTooLarge),
{
    check_not_cancelled(cancelled)?;
    if !sources_fit(equations, preamble) {
        return Err(RenderError::SourcesTooLarge);
    }
    Ok(())
}

/// Checks that a compiled batch has one page per equation.
pub fn check_page_count(pages: usize, equations: usize) -> (r: Result<(), RenderError>)
    ensures
        pages == equations ==> r is Ok,
        pages != equations ==> r == Err::<(), RenderError>(RenderError::PageCountMismatch),
{
    if pages == equations {
        Ok(())
    } else {
        Err(RenderError::PageCountMismatch)
    }
}

/// What becomes of the equations of a batch whose compilation failed.
#[derive(Debug, Clone, Copy, PartialEq, Eq)]
pub enum BatchFailure {
    /// Every equation gets the batch's error.
    ShareError,
    /// Every equation is compiled again on its own, in order, so that one bad
    /// equation does not hide its neighbors.
    RetryEach,
}

/// Decides how a failed batch is answered: a single equation, or a cancelled
/// render, shares the error; otherwise each equation is retried alone.
pub fn batch_failure(equations: usize, cancelled: bool) -> (r: BatchFailure)
    ensures
        r == (if equations == 1 || cancelled {
            BatchFailure::ShareError
        } else {
            BatchFailure::RetryEach
        }),
{
    if equations == 1 || cancelled {
        BatchFailure::ShareError
    } else {
        BatchFailure::RetryEach
    }
}

} // verus!
