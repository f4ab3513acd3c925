use vstd::prelude::*;

verus! {

/// A JSON value as configuration files hold it. A number keeps the text that
/// the parser produced; an object keeps its entries in order.
pub enum JsonValue {
    Null,
    Bool(bool),
    Number(String),
    Str(String),
    Array(Vec<JsonValue>),
    Object(Vec<(String, JsonValue)>),
}

/// The mathematical model of a JSON value.
pub enum Json {
    Null,
    Bool(bool),
    Number(Seq<char>),
    Str(Seq<char>),
    Array(Seq<Json>),
    Object(Seq<(Seq<char>, Json)>),
}

pub open spec fn json_of(v: JsonValue) -> Json
    decreases v,
{
    match v {
        JsonValue::Null => Json::Null,
        JsonValue::Bool(b) => Json::Bool(b),
        JsonValue::Number(n) => Json::Number(n@),
        JsonValue::Str(s) => Json::Str(s@),
        JsonValue::Array(items) => {
            proof {
                vstd::std_specs::vec::axiom_vec_decreases_to_view(items);
            }
            Json::Array(jsons_of(items@))
        },
        JsonValue::Object(entries) => {
            proof {
                vstd::std_specs::vec::axiom_vec_decreases_to_view(entries);
            }
            Json::Object(entries_of(entries@))
        },
    }
}

pub open spec fn jsons_of(s: Seq<JsonValue>) -> Seq<Json>
    decreases s,
{
    if s.len() == 0 {
        Seq::empty()
    } else {
        proof {
            vstd::seq::axiom_seq_subrange_decreases(s, 0, s.len() - 1);
            vstd::seq::axiom_seq_index_decreases(s, s.len() - 1);
        }
        jsons_of(s.subrange(0, s.len() - 1)).push(json_of(s[s.len() - 1]))
    }
}

pub open spec fn entries_of(s: Seq<(String, JsonValue)>) -> Seq<(Seq<char>, Json)>
    decreases s,
{
    if s.len() == 0 {
        Seq::empty()
    } else {
        proof {
            vstd::seq::axiom_seq_subrange_decreases(s, 0, s.len() - 1);
            vstd::seq::axiom_seq_index_decreases(s, s.len() - 1);
        }
        entries_of(s.subrange(0, s.len() - 1)).push(
            (s[s.len() - 1].0@, json_of(s[s.len() - 1].1)),
        )
    }
}

impl View for JsonValue {
    type V = Json;

    open spec fn view(&self) -> Json {
        json_of(*self)
    }
}


/// Position of the first entry whose key is `k`, or -1 when there is none.
pub open spec fn key_index(es: Seq<(Seq<char>, Json)>, k: Seq<char>) -> int
    decreases es.len(),
{
    if es.len() == 0 {
        -1
    } else if es[0].0 == k {
        0
    } else {
        let r = key_index(es.subrange(1, es.len() as int), k);
        if r < 0 {
            -1
        } else {
            r + 1
        }
    }
}

/// Merging `source` into `target`: two objects merge key by key, the source
/// taking precedence; any other source value replaces the target.
pub open spec fn merge(source: Json, target: Json) -> Json
    decreases source, 1int,
{
    match source {
        Json::Object(se) => match target {
            Json::Object(te) => Json::Object(merge_entries(se, te)),
            _ => source,
        },
        _ => source,
    }
}

/// Merges the source entries, in order, into the target entries.
pub open spec fn merge_entries(se: Seq<(Seq<char>, Json)>, te: Seq<(Seq<char>, Json)>) -> Seq<
    (Seq<char>, Json),
>
    decreases se, 0int,
{
    if se.len() == 0 {
        te
    } else {
        proof {
            vstd::seq::axiom_seq_index_decreases(se, 0);
            vstd::seq::axiom_seq_subrange_decreases(se, 1, se.len() as int);
        }
        merge_entries(se.subrange(1, se.len() as int), merge_entry(te, se[0].0, se[0].1))
    }
}

/// Merges one source entry into the target entries: an existing key has its
/// value merged in place, a new key is appended.
pub open spec fn merge_entry(te: Seq<(Seq<char>, Json)>, k: Seq<char>, v: Json) -> Seq<
    (Seq<char>, Json),
>
    decreases v, 2int,
{
    let j = key_index(te, k);
    if 0 <= j < te.len() {
        te.update(j, (te[j].0, merge(v, te[j].1)))
    } else {
        te.push((k, v))
    }
}

pub proof fn lemma_entries_of_index(s: Seq<(String, JsonValue)>)
    ensures
        entries_of(s).len() == s.len(),
        forall|i: int|
            0 <= i < s.len() ==> #[trigger] entries_of(s)[i] == (s[i].0@, json_of(s[i].1)),
    decreases s.len(),
{
    if s.len() > 0 {
        lemma_entries_of_index(s.subrange(0, s.len() - 1));
    }
}

pub proof fn lemma_jsons_of_index(s: Seq<JsonValue>)
    ensures
        jsons_of(s).len() == s.len(),
        forall|i: int| 0 <= i < s.len() ==> #[trigger] jsons_of(s)[i] == json_of(s[i]),
    decreases s.len(),
{
    if s.len() > 0 {
        lemma_jsons_of_index(s.subrange(0, s.len() - 1));
    }
}

proof fn lemma_entries_of_update(s: Seq<(String, JsonValue)>, j: int, e: (String, JsonValue))
    requires
        0 <= j < s.len(),
    ensures
        entries_of(s.update(j, e)) == entries_of(s).update(j, (e.0@, json_of(e.1))),
{
    lemma_entries_of_index(s);
    lemma_entries_of_index(s.update(j, e));
    assert(entries_of(s.update(j, e)) =~= entries_of(s).update(j, (e.0@, json_of(e.1))));
}

proof fn lemma_entries_of_push(s: Seq<(String, JsonValue)>, e: (String, JsonValue))
    ensures
        entries_of(s.push(e)) == entries_of(s).push((e.0@, json_of(e.1))),
{
    assert(s.push(e).subrange(0, s.len() as int) =~= s);
}

proof fn lemma_key_index_found(es: Seq<(Seq<char>, Json)>, k: Seq<char>, i: int)
    requires
        0 <= i < es.len(),
        es[i].0 == k,
        forall|j: int| 0 <= j < i ==> es[j].0 != k,
    ensures
        key_index(es, k) == i,
    decreases i,
{
    if i > 0 {
        let rest = es.subrange(1, es.len() as int);
        assert forall|j: int| 0 <= j < i - 1 implies rest[j].0 != k by {
            assert(rest[j] == es[j + 1]);
        }
        lemma_key_index_found(rest, k, i - 1);
    }
}

proof fn lemma_key_index_absent(es: Seq<(Seq<char>, Json)>, k: Seq<char>)
    requires
        forall|j: int| 0 <= j < es.len() ==> es[j].0 != k,
    ensures
        key_index(es, k) == -1,
    decreases es.len(),
{
    if es.len() > 0 {
        let rest = es.subrange(1, es.len() as int);
        assert forall|j: int| 0 <= j < rest.len() implies rest[j].0 != k by {
            assert(rest[j] == es[j + 1]);
        }
        lemma_key_index_absent(rest, k);
    }
}

/// Finds the first entry with the given key.
fn find_key(entries: &Vec<(String, JsonValue)>, key: &String) -> (r: Option<usize>)
    ensures
        match r {
            Some(j) => j < entries.len() && key_index(entries_of(entries@), key@) == j,
            None => key_index(entries_of(entries@), key@) == -1,
        },
{
    proof {
        lemma_entries_of_index(entries@);
    }
    let ghost es = entries_of(entries@);
    let n = entries.len();
    let mut i: usize = 0;
    while i < n
        invariant
            n == entries.len(),
            i <= n,
            es == entries_of(entries@),
            es.len() == n,
            forall|j: int| 0 <= j < es.len() ==> #[trigger] es[j] == (entries@[j].0@, json_of(entries@[j].1)),
            forall|j: int| 0 <= j < i ==> es[j].0 != key@,
        decreases n - i,
    {
        if entries[i].0 == *key {
            proof {
                lemma_key_index_found(es, key@, i as int);
            }
            return Some(i);
        }
        i += 1;
    }
    proof {
        lemma_key_index_absent(es, key@);
    }
    None
}

/// The value stored under key `k`, found at its first occurrence.
pub open spec fn lookup(es: Seq<(Seq<char>, Json)>, k: Seq<char>) -> Option<Json> {
    let j = key_index(es, k);
    if 0 <= j < es.len() {
        Some(es[j].1)
    } else {
        None
    }
}

/// No key occurs twice among the entries.
pub open spec fn unique_keys(es: Seq<(Seq<char>, Json)>) -> bool {
    forall|i: int, j: int| 0 <= i < j < es.len() ==> es[i].0 != es[j].0
}

/// What a key holds after merging: the source value wins, merged into the
/// target value where both have the key.
pub open spec fn merged_lookup(s: Option<Json>, t: Option<Json>) -> Option<Json> {
    match s {
        Some(sv) => match t {
            Some(tv) => Some(merge(sv, tv)),
            None => Some(sv),
        },
        None => t,
    }
}

proof fn lemma_key_index_range(es: Seq<(Seq<char>, Json)>, k: Seq<char>)
    ensures
        -1 <= key_index(es, k) < es.len(),
        key_index(es, k) >= 0 ==> es[key_index(es, k)].0 == k,
        key_index(es, k) >= 0 ==> forall|j: int| 0 <= j < key_index(es, k) ==> es[j].0 != k,
        key_index(es, k) < 0 ==> forall|j: int| 0 <= j < es.len() ==> es[j].0 != k,
    decreases es.len(),
{
    if es.len() > 0 && es[0].0 != k {
        let rest = es.subrange(1, es.len() as int);
        lemma_key_index_range(rest, k);
        assert forall|j: int| 0 < j < es.len() implies es[j] == rest[j - 1] by {}
    }
}

/// Key positions depend only on the keys.
proof fn lemma_key_index_same_keys(a: Seq<(Seq<char>, Json)>, b: Seq<(Seq<char>, Json)>, k: Seq<char>)
    requires
        a.len() == b.len(),
        forall|i: int| 0 <= i < a.len() ==> a[i].0 == b[i].0,
    ensures
        key_index(a, k) == key_index(b, k),
{
    lemma_key_index_range(a, k);
    lemma_key_index_range(b, k);
    let ia = key_index(a, k);
    if ia >= 0 {
        lemma_key_index_found(b, k, ia);
    } else {
        lemma_key_index_absent(b, k);
    }
}

proof fn lemma_key_index_push(es: Seq<(Seq<char>, Json)>, e: (Seq<char>, Json), k: Seq<char>)
    ensures
        key_index(es.push(e), k) == if key_index(es, k) >= 0 {
            key_index(es, k)
        } else if e.0 == k {
            es.len() as int
        } else {
            -1
        },
{
    let p = es.push(e);
    lemma_key_index_range(es, k);
    let i = key_index(es, k);
    if i >= 0 {
        lemma_key_index_found(p, k, i);
    } else if e.0 == k {
        lemma_key_index_found(p, k, es.len() as int);
    } else {
        lemma_key_index_absent(p, k);
    }
}

proof fn lemma_lookup_merge_entry(te: Seq<(Seq<char>, Json)>, k0: Seq<char>, v0: Json, k: Seq<char>)
    ensures
        lookup(merge_entry(te, k0, v0), k) == if k == k0 {
            merged_lookup(Some(v0), lookup(te, k))
        } else {
            lookup(te, k)
        },
{
    lemma_key_index_range(te, k0);
    lemma_key_index_range(te, k);
    let j = key_index(te, k0);
    let r = merge_entry(te, k0, v0);
    if 0 <= j < te.len() {
        lemma_key_index_same_keys(r, te, k);
    } else {
        lemma_key_index_push(te, (k0, v0), k);
    }
}

proof fn lemma_lookup_merge_entries(se: Seq<(Seq<char>, Json)>, te: Seq<(Seq<char>, Json)>, k: Seq<char>)
    requires
        unique_keys(se),
    ensures
        lookup(merge_entries(se, te), k) == merged_lookup(lookup(se, k), lookup(te, k)),
    decreases se.len(),
{
    if se.len() > 0 {
        let rest = se.subrange(1, se.len() as int);
        let te1 = merge_entry(te, se[0].0, se[0].1);
        assert(unique_keys(rest)) by {
            assert forall|i: int, j: int| 0 <= i < j < rest.len() implies rest[i].0 != rest[j].0 by {
                assert(rest[i] == se[i + 1] && rest[j] == se[j + 1]);
            }
        }
        lemma_lookup_merge_entries(rest, te1, k);
        lemma_lookup_merge_entry(te, se[0].0, se[0].1, k);
        lemma_key_index_range(rest, k);
        lemma_key_index_range(se, k);
        if se[0].0 == k {
            assert forall|j: int| 0 <= j < rest.len() implies rest[j].0 != k by {
                assert(rest[j] == se[j + 1]);
            }
            lemma_key_index_absent(rest, k);
        } else {
            let r = key_index(rest, k);
            if r >= 0 {
                assert(rest[r] == se[r + 1]);
                assert forall|j: int| 0 <= j < r + 1 implies se[j].0 != k by {
                    if j > 0 {
                        assert(rest[j - 1] == se[j]);
                    }
                }
                lemma_key_index_found(se, k, r + 1);
            } else {
                assert forall|j: int| 0 <= j < se.len() implies se[j].0 != k by {
                    if j > 0 {
                        assert(rest[j - 1] == se[j]);
                    }
                }
                lemma_key_index_absent(se, k);
            }
        }
    }
}

/// Merging a custom object into a base object keeps every key of either
/// side: where the custom side has a key its value takes precedence (merged
/// into the base value, so nested objects merge too), and a key that only the
/// base has keeps the base value.
pub proof fn lemma_merge_objects_lookup(
    custom: Seq<(Seq<char>, Json)>,
    base: Seq<(Seq<char>, Json)>,
    k: Seq<char>,
)
    requires
        unique_keys(custom),
    ensures
        merge(Json::Object(custom), Json::Object(base)) == Json::Object(merge_entries(custom, base)),
        lookup(merge_entries(custom, base), k) == merged_lookup(lookup(custom, k), lookup(base, k)),
{
    lemma_lookup_merge_entries(custom, base, k);
}

/// A custom value that is not an object (a number, a string, an array...)
/// replaces the base value outright, and so does any custom value where the
/// base value is not an object.
pub proof fn lemma_merge_replaces(custom: Json, base: Json)
    requires
        !(custom is Object && base is Object),
    ensures
        merge(custom, base) == custom,
{
}

proof fn lemma_merge_entry_keeps_unique_keys(te: Seq<(Seq<char>, Json)>, k: Seq<char>, v: Json)
    requires
        unique_keys(te),
    ensures
        unique_keys(merge_entry(te, k, v)),
{
    lemma_key_index_range(te, k);
    let r = merge_entry(te, k, v);
    let j = key_index(te, k);
    if 0 <= j < te.len() {
        assert forall|a: int, b: int| 0 <= a < b < r.len() implies r[a].0 != r[b].0 by {
            assert(r[a].0 == te[a].0 && r[b].0 == te[b].0);
        }
    } else {
        assert forall|a: int, b: int| 0 <= a < b < r.len() implies r[a].0 != r[b].0 by {
            if b == te.len() {
                assert(r[a] == te[a]);
            } else {
                assert(r[a] == te[a] && r[b] == te[b]);
            }
        }
    }
}

/// Merging keeps objects well formed: when no key occurs twice among the
/// target's entries, none occurs twice in the result, whatever the source
/// holds.
pub proof fn lemma_merge_keeps_unique_keys(
    source: Seq<(Seq<char>, Json)>,
    target: Seq<(Seq<char>, Json)>,
)
    requires
        unique_keys(target),
    ensures
        unique_keys(merge_entries(source, target)),
    decreases source.len(),
{
    if source.len() > 0 {
        lemma_merge_entry_keeps_unique_keys(target, source[0].0, source[0].1);
        lemma_merge_keeps_unique_keys(
            source.subrange(1, source.len() as int),
            merge_entry(target, source[0].0, source[0].1),
        );
    }
}

/// Merges `source` into `target` and returns the result.
fn merge_values(source: JsonValue, target: JsonValue) -> (r: JsonValue)
    ensures
        r@ == merge(source@, target@),
    decreases source,
{
    let ghost src = source;
    match source {
        JsonValue::Object(mut se) => match target {
            JsonValue::Object(mut te) => {
                let ghost se0 = se;
                let ghost te0 = te;
                proof {
                    lemma_entries_of_index(se0@);
                }
                let n = se.len();
                let mut i: usize = 0;
                proof {
                    assert(entries_of(se0@).subrange(0, n as int) =~= entries_of(se0@));
                }
                while i < n
                    invariant
                        src == source,
                        src == JsonValue::Object(se0),
                        n == se0@.len(),
                        se@.len() == n,
                        i <= n,
                        forall|j: int| i <= j < n ==> se@[j] == se0@[j],
                        entries_of(se0@).len() == n,
                        forall|j: int|
                            0 <= j < n ==> #[trigger] entries_of(se0@)[j] == (
                                se0@[j].0@,
                                json_of(se0@[j].1),
                            ),
                        merge_entries(entries_of(se0@), entries_of(te0@)) == merge_entries(
                            entries_of(se0@).subrange(i as int, n as int),
                            entries_of(te@),
                        ),
                    decreases n - i,
                {
                    let mut slot = (String::new(), JsonValue::Null);
                    se.set_and_swap(i, &mut slot);
                    let (key, value) = slot;
                    let ghost rest = entries_of(se0@).subrange(i as int, n as int);
                    proof {
                        assert(rest[0] == (key@, json_of(value)));
                        assert(rest.subrange(1, rest.len() as int) =~= entries_of(se0@).subrange(
                            i + 1,
                            n as int,
                        ));
                    }
                    let ghost te_orig = te@;
                    proof {
                        lemma_entries_of_index(te_orig);
                    }
                    match find_key(&te, &key) {
                        Some(j) => {
                            let mut cur = (String::new(), JsonValue::Null);
                            te.set_and_swap(j, &mut cur);
                            let (tk, tv) = cur;
                            proof {
                                vstd::std_specs::vec::axiom_vec_decreases_to_view(se0);
                                vstd::seq::axiom_seq_index_decreases(se0@, i as int);
                                assert(src->Object_0 == se0);
                                assert(decreases_to!(src => src->Object_0));
                                assert(decreases_to!(se0@[i as int] => se0@[i as int].1));
                                assert(decreases_to!(src => value));
                            }
                            let merged = merge_values(value, tv);
                            te.set(j, (tk, merged));
                            proof {
                                assert(te@ =~= te_orig.update(j as int, (tk, merged)));
                                lemma_entries_of_update(te_orig, j as int, (tk, merged));
                                assert(entries_of(te_orig)[j as int] == (tk@, json_of(tv)));
                                assert(entries_of(te@) == merge_entry(entries_of(te_orig), key@, json_of(value)));
                            }
                        },
                        None => {
                            proof {
                                lemma_entries_of_push(te@, (key, value));
                            }
                            te.push((key, value));
                            proof {
                                assert(entries_of(te@) == merge_entry(entries_of(te_orig), key@, json_of(value)));
                            }
                        },
                    }
                    i += 1;
                }
                proof {
                    assert(entries_of(se0@).subrange(n as int, n as int) =~= Seq::<
                        (Seq<char>, Json),
                    >::empty());
                }
                JsonValue::Object(te)
            },
            _ => JsonValue::Object(se),
        },
        other => other,
    }
}

/// Merges `source` into `target`: objects merge key by key with the source
/// taking precedence, and any other source value replaces the target.
pub fn merge_json_value_into(source: JsonValue, target: &mut JsonValue)
    ensures
        final(target)@ == merge(source@, old(target)@),
{
    let mut t = JsonValue::Null;
    std::mem::swap(&mut t, target);
    *target = merge_values(source, t);
}

} // verus!
