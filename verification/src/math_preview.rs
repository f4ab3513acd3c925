use vstd::prelude::*;

use crate::text::{push_str, same_text};

verus! {

/// The preamble used when the settings give none.
pub open spec fn default_preamble() -> Seq<char> {
    "\\usepackage{amsmath,amssymb}"@
}

/// The `latex` settings shared by Markdown and notebook equations.
pub struct LatexSettings {
    /// TeX placed before every equation's document body.
    pub preamble: String,
    /// A directory whose local `.sty` files the preamble may import.
    pub package_directory: Option<String>,
}

impl LatexSettings {
    /// The settings from the configured values, with the default preamble
    /// when none is configured.
    pub fn from_settings(preamble: Option<String>, package_directory: Option<String>) -> (s:
        LatexSettings)
        ensures
            s.preamble@ == match preamble {
                Some(p) => p@,
                None => default_preamble(),
            },
            s.package_directory == package_directory,
    {
        let preamble = match preamble {
            Some(p) => p,
            None => "\\usepackage{amsmath,amssymb}".to_owned(),
        };
        LatexSettings { preamble, package_directory }
    }
}

/// The text shown in place of an equation while it renders: its source
/// between its delimiters.
pub open spec fn pending_text(latex: Seq<char>, display: bool) -> Seq<char> {
    if display {
        "$$"@ + latex + "$$"@
    } else {
        "$"@ + latex + "$"@
    }
}

/// Keeps an equation's source visible while it renders.
pub fn pending_equation_text(latex: &str, display: bool) -> (r: String)
    ensures
        r@ == pending_text(latex@, display),
{
    let delimiter = if display {
        "$$"
    } else {
        "$"
    };
    let mut r = delimiter.to_owned();
    push_str(&mut r, latex);
    push_str(&mut r, delimiter);
    r
}

/// The hover text of an equation that failed to render.
pub fn error_tooltip(message: &str) -> (r: String)
    ensures
        r@ == "LaTeX: "@ + message@,
{
    let mut r = "LaTeX: ".to_owned();
    push_str(&mut r, message);
    r
}

/// What identifies a rendered equation: its source and appearance, and the
/// settings it was compiled with. Sizes and color components are the bit
/// patterns of their floating-point values; the package directory is given
/// by its path components, so that two spellings of one path (with a
/// trailing or doubled separator) are the same directory.
pub struct MathKey {
    pub latex: String,
    pub display: bool,
    pub font_size: u32,
    pub color: [u32; 4],
    pub preamble: String,
    pub package_directory: Option<Vec<String>>,
}

/// Two paths given by their components are the same path.
pub open spec fn same_components(a: Seq<String>, b: Seq<String>) -> bool {
    &&& a.len() == b.len()
    &&& forall|i: int| 0 <= i < a.len() ==> #[trigger] a[i]@ == b[i]@
}

fn components_equal(a: &Vec<String>, b: &Vec<String>) -> (r: bool)
    ensures
        r == same_components(a@, b@),
{
    if a.len() != b.len() {
        return false;
    }
    let n = a.len();
    let mut i: usize = 0;
    while i < n
        invariant
            n == a@.len(),
            n == b@.len(),
            i <= n,
            forall|j: int| 0 <= j < i ==> #[trigger] a@[j]@ == b@[j]@,
        decreases n - i,
    {
        if !same_text(a[i].as_str(), b[i].as_str()) {
            return false;
        }
        i += 1;
    }
    true
}

/// Two keys identify the same equation.
pub open spec fn same_key(a: MathKey, b: MathKey) -> bool {
    &&& a.latex@ == b.latex@
    &&& a.display == b.display
    &&& a.font_size == b.font_size
    &&& a.color@ == b.color@
    &&& a.preamble@ == b.preamble@
    &&& match (a.package_directory, b.package_directory) {
        (None, None) => true,
        (Some(x), Some(y)) => same_components(x@, y@),
        _ => false,
    }
}

/// Two keys identify the same equation exactly when every field agrees:
/// the same source, style, font size, all four color components, preamble
/// and package directory (both absent, or the same path components). So a
/// key that differs from every cached key in any field, its font size
/// among them, finds nothing cached.
pub proof fn lemma_same_key_iff_fields_agree(a: MathKey, b: MathKey)
    ensures
        same_key(a, b) <==> {
            &&& a.latex@ == b.latex@
            &&& a.display == b.display
            &&& a.font_size == b.font_size
            &&& a.color[0] == b.color[0]
            &&& a.color[1] == b.color[1]
            &&& a.color[2] == b.color[2]
            &&& a.color[3] == b.color[3]
            &&& a.preamble@ == b.preamble@
            &&& (a.package_directory is None <==> b.package_directory is None)
            &&& (a.package_directory matches Some(x) ==> b.package_directory matches Some(y)
                && x@.len() == y@.len()
                && forall|i: int| 0 <= i < x@.len() ==> #[trigger] x@[i]@ == y@[i]@)
        },
{
    if a.color[0] == b.color[0] && a.color[1] == b.color[1] && a.color[2] == b.color[2]
        && a.color[3] == b.color[3] {
        assert(a.color@ =~= b.color@);
    }
}

/// Identifying the same equation is an equivalence: every key identifies
/// itself, in either order, and through a third key.
pub proof fn lemma_same_key_is_equivalence(a: MathKey, b: MathKey, c: MathKey)
    ensures
        same_key(a, a),
        same_key(a, b) ==> same_key(b, a),
        same_key(a, b) && same_key(b, c) ==> same_key(a, c),
{
}

impl MathKey {
    /// Whether two keys identify the same equation.
    pub fn same_as(&self, other: &MathKey) -> (r: bool)
        ensures
            r == same_key(*self, *other),
    {
        let dirs = match (&self.package_directory, &other.package_directory) {
            (None, None) => true,
            (Some(x), Some(y)) => components_equal(x, y),
            _ => false,
        };
        let colors = self.color[0] == other.color[0] && self.color[1] == other.color[1]
            && self.color[2] == other.color[2] && self.color[3] == other.color[3];
        proof {
            if colors {
                assert(self.color@ =~= other.color@);
            }
        }
        dirs && colors && self.display == other.display && self.font_size == other.font_size
            && same_text(self.latex.as_str(), other.latex.as_str()) && same_text(
            self.preamble.as_str(),
            other.preamble.as_str(),
        )
    }
}

/// Some key among `used` identifies the same equation as `k`.
pub open spec fn is_used(k: MathKey, used: Seq<MathKey>) -> bool {
    exists|i: int| 0 <= i < used.len() && same_key(k, #[trigger] used[i])
}

/// The entries whose keys are used, in order.
pub open spec fn kept_entries<V>(es: Seq<(MathKey, V)>, used: Seq<MathKey>) -> Seq<(MathKey, V)>
    decreases es.len(),
{
    if es.len() == 0 {
        Seq::empty()
    } else {
        let rest = kept_entries(es.subrange(0, es.len() - 1), used);
        if is_used(es[es.len() - 1].0, used) {
            rest.push(es[es.len() - 1])
        } else {
            rest
        }
    }
}

/// The values of the entries whose keys are not used, in order.
pub open spec fn dropped_values<V>(es: Seq<(MathKey, V)>, used: Seq<MathKey>) -> Seq<V>
    decreases es.len(),
{
    if es.len() == 0 {
        Seq::empty()
    } else {
        let rest = dropped_values(es.subrange(0, es.len() - 1), used);
        if is_used(es[es.len() - 1].0, used) {
            rest
        } else {
            rest.push(es[es.len() - 1].1)
        }
    }
}

/// No two entries identify the same equation.
pub open spec fn unique_math_keys<V>(es: Seq<(MathKey, V)>) -> bool {
    forall|i: int, j: int| 0 <= i < j < es.len() ==> !same_key(es[i].0, es[j].0)
}

/// Rendered equations by key; each value is what the preview keeps for one
/// equation (its pending render and, once done, its image or error). An
/// equation is cached at most once, so an unchanged equation finds its
/// earlier result.
pub struct MathCache<V> {
    entries: Vec<(MathKey, V)>,
}

impl<V> View for MathCache<V> {
    type V = Seq<(MathKey, V)>;

    closed spec fn view(&self) -> Seq<(MathKey, V)> {
        self.entries@
    }
}

fn key_used(k: &MathKey, used: &[MathKey]) -> (r: bool)
    ensures
        r == is_used(*k, used@),
{
    let n = used.len();
    let mut i: usize = 0;
    while i < n
        invariant
            n == used@.len(),
            i <= n,
            forall|j: int| 0 <= j < i ==> !same_key(*k, #[trigger] used@[j]),
        decreases n - i,
    {
        if k.same_as(&used[i]) {
            return true;
        }
        i += 1;
    }
    false
}

impl<V> MathCache<V> {
    #[verifier::type_invariant]
    spec fn keys_unique(self) -> bool {
        unique_math_keys(self.entries@)
    }

    /// An empty cache.
    pub fn new() -> (c: MathCache<V>)
        ensures
            c@ == Seq::<(MathKey, V)>::empty(),
    {
        MathCache { entries: Vec::new() }
    }

    /// The number of cached equations; no two of them are the same.
    pub fn len(&self) -> (n: usize)
        ensures
            n == self@.len(),
            unique_math_keys(self@),
    {
        proof {
            use_type_invariant(self);
        }
        self.entries.len()
    }

    /// The position of the entry for `key`, if there is one.
    pub fn position(&self, key: &MathKey) -> (r: Option<usize>)
        ensures
            unique_math_keys(self@),
            match r {
                Some(i) => i < self@.len() && same_key(self@[i as int].0, *key),
                None => forall|j: int| 0 <= j < self@.len() ==> !same_key(self@[j].0, *key),
            },
    {
        proof {
            use_type_invariant(self);
        }
        let n = self.entries.len();
        let mut i: usize = 0;
        while i < n
            invariant
                n == self.entries@.len(),
                i <= n,
                unique_math_keys(self.entries@),
                forall|j: int| 0 <= j < i ==> !same_key(self.entries@[j].0, *key),
            decreases n - i,
        {
            if self.entries[i].0.same_as(key) {
                return Some(i);
            }
            i += 1;
        }
        None
    }

    /// What is cached for `key`: the value of the one entry whose key is the
    /// same, if there is one.
    pub fn get(&self, key: &MathKey) -> (r: Option<&V>)
        ensures
            match r {
                Some(v) => exists|i: int|
                    0 <= i < self@.len() && same_key(self@[i].0, *key) && *v == self@[i].1,
                None => forall|j: int| 0 <= j < self@.len() ==> !same_key(self@[j].0, *key),
            },
    {
        match self.position(key) {
            Some(i) => Some(&self.entries[i].1),
            None => None,
        }
    }

    /// Adds the entry for an equation that is not cached yet, and gives its
    /// position.
    pub fn insert(&mut self, key: MathKey, value: V) -> (i: usize)
        requires
            forall|j: int| 0 <= j < old(self)@.len() ==> !same_key(old(self)@[j].0, key),
        ensures
            final(self)@ == old(self)@.push((key, value)),
            i == old(self)@.len(),
    {
        proof {
            use_type_invariant(&*self);
        }
        let ghost start = self.entries@;
        assert(unique_math_keys(start));
        assert(start == old(self)@);
        let i = self.entries.len();
        let mut entries: Vec<(MathKey, V)> = Vec::new();
        std::mem::swap(&mut entries, &mut self.entries);
        let ghost before = entries@;
        assert(before == start);
        entries.push((key, value));
        proof {
            assert forall|a: int, b: int| 0 <= a < b < entries@.len() implies !same_key(
                entries@[a].0,
                entries@[b].0,
            ) by {
                assert(entries@[a] == before[a]);
                if b < before.len() {
                    assert(entries@[b] == before[b]);
                } else {
                    assert(entries@[b] == (key, value));
                    assert(!same_key(old(self)@[a].0, key));
                }
            }
        }
        self.entries = entries;
        i
    }

    /// Keeps only the equations whose keys are used and gives back the values
    /// of the others, so that their images can be released. Order is kept.
    pub fn retain_used(&mut self, used: &[MathKey]) -> (dropped: Vec<V>)
        ensures
            final(self)@ == kept_entries(old(self)@, used@),
            dropped@ == dropped_values(old(self)@, used@),
    {
        proof {
            use_type_invariant(&*self);
        }
        let mut rest: Vec<(MathKey, V)> = Vec::new();
        std::mem::swap(&mut rest, &mut self.entries);
        let ghost all = rest@;
        let n = rest.len();
        let mut kept: Vec<(MathKey, V)> = Vec::new();
        let mut dropped: Vec<V> = Vec::new();
        let mut i: usize = 0;
        proof {
            assert(all.subrange(0, 0) =~= Seq::<(MathKey, V)>::empty());
            assert(all.subrange(0, n as int) =~= all);
        }
        while i < n
            invariant
                n == all.len(),
                i <= n,
                unique_math_keys(all),
                rest@ == all.subrange(i as int, n as int),
                kept@ == kept_entries(all.subrange(0, i as int), used@),
                dropped@ == dropped_values(all.subrange(0, i as int), used@),
                unique_math_keys(kept@),
                forall|x: int|
                    0 <= x < kept@.len() ==> exists|j: int| 0 <= j < i && #[trigger] kept@[x] == all[j],
            decreases n - i,
        {
            let entry = rest.remove(0);
            proof {
                let next = all.subrange(0, i + 1);
                assert(next.subrange(0, next.len() - 1) =~= all.subrange(0, i as int));
                assert(entry == all[i as int]);
                assert(rest@ =~= all.subrange(i + 1, n as int));
            }
            if key_used(&entry.0, used) {
                let ghost before = kept@;
                kept.push(entry);
                proof {
                    assert forall|a: int, b: int| 0 <= a < b < kept@.len() implies !same_key(
                        kept@[a].0,
                        kept@[b].0,
                    ) by {
                        if b == before.len() {
                            assert(kept@[a] == before[a]);
                            let j = choose|j: int| 0 <= j < i && before[a] == all[j];
                            assert(!same_key(all[j].0, all[i as int].0));
                        } else {
                            assert(kept@[a] == before[a] && kept@[b] == before[b]);
                        }
                    }
                    assert forall|x: int| 0 <= x < kept@.len() implies exists|j: int|
                        0 <= j < i + 1 && #[trigger] kept@[x] == all[j] by {
                        if x == before.len() {
                            assert(kept@[x] == all[i as int]);
                        } else {
                            assert(kept@[x] == before[x]);
                        }
                    }
                }
            } else {
                dropped.push(entry.1);
            }
            i += 1;
        }
        self.entries = kept;
        dropped
    }
}

/// Clearing a document's equations releases exactly the cached equations it
/// no longer shows: an entry stays precisely when its key is still used,
/// and every entry either stays or is handed back.
pub proof fn lemma_retain_partitions<V>(es: Seq<(MathKey, V)>, used: Seq<MathKey>)
    ensures
        kept_entries(es, used).len() + dropped_values(es, used).len() == es.len(),
        forall|i: int|
            0 <= i < kept_entries(es, used).len() ==> is_used(
                #[trigger] kept_entries(es, used)[i].0,
                used,
            ),
    decreases es.len(),
{
    if es.len() > 0 {
        lemma_retain_partitions(es.subrange(0, es.len() - 1), used);
    }
}

} // verus!
