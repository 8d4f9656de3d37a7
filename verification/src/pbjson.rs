//! The protobuf JSON mapping of the daemon's messages: which JSON keys name
//! which field of a message (its lowerCamelCase JSON name or its proto
//! name), which keys a message is written with, and the string names of
//! enumeration values. Reading and writing the values themselves is serde's.

use vstd::prelude::*;

verus! {

/// A field of a message: its JSON (lowerCamelCase) name and its proto
/// (snake_case) name, which may be equal; the slot it fills when read (its
/// own position, or one shared by the members of a `oneof`); and whether a
/// JSON `null` value leaves it unset (message-typed, `optional` and `oneof`
/// fields).
pub struct FieldName {
    pub json: String,
    pub proto: String,
    pub slot: usize,
    pub nullable: bool,
}

/// The names of the fields of a table, by their text.
pub open spec fn names_view(t: Seq<FieldName>) -> Seq<(Seq<char>, Seq<char>)> {
    t.map_values(|f: FieldName| (f.json@, f.proto@))
}

/// Whether `key` names the field `f`.
pub open spec fn names_field(f: (Seq<char>, Seq<char>), key: Seq<char>) -> bool {
    f.0 == key || f.1 == key
}

/// The first field of the table `t` that `key` names.
pub open spec fn field_index(t: Seq<(Seq<char>, Seq<char>)>, key: Seq<char>) -> Option<int>
    decreases t.len(),
{
    if t.len() == 0 {
        None
    } else {
        match field_index(t.drop_last(), key) {
            Some(i) => Some(i),
            None => if names_field(t.last(), key) {
                Some(t.len() - 1)
            } else {
                None
            },
        }
    }
}

/// The slot and nullability of the fields of a table.
pub open spec fn shape_view(t: Seq<FieldName>) -> Seq<(int, bool)> {
    t.map_values(|f: FieldName| (f.slot as int, f.nullable))
}

/// The keys of an object, each with whether its value is JSON `null`, by
/// their text.
pub open spec fn entries_view(e: Seq<(String, bool)>) -> Seq<(Seq<char>, bool)> {
    e.map_values(|x: (String, bool)| (x.0@, x.1))
}

/// What reading the keys of a JSON object gives: the fields they name, in
/// order, or the first key that names no field, or the JSON name of the first
/// field whose slot was already filled.
pub enum KeysOutcome {
    Fields(Seq<int>),
    Unknown(Seq<char>),
    Duplicate(Seq<char>),
}

/// Whether slot `slot` is filled once the first entries of `entries` have
/// been read as the fields `seen`: one of them is a field of that slot whose
/// value set it (anything but `null` for a nullable field).
pub open spec fn slot_filled(
    shape: Seq<(int, bool)>,
    seen: Seq<int>,
    entries: Seq<(Seq<char>, bool)>,
    slot: int,
) -> bool {
    exists|p: int|
        #![trigger shape[seen[p]]]
        0 <= p < seen.len() && shape[seen[p]].0 == slot && !(shape[seen[p]].1 && entries[p].1)
}

/// The outcome of reading the keys `entries` (each with whether its value is
/// `null`) of an object of a message with field names `t` and field shapes
/// `shape`. A key is refused as a duplicate when the slot of its field is
/// already filled; a `null` value of a nullable field fills nothing.
pub open spec fn keys_outcome(
    t: Seq<(Seq<char>, Seq<char>)>,
    shape: Seq<(int, bool)>,
    entries: Seq<(Seq<char>, bool)>,
) -> KeysOutcome
    decreases entries.len(),
{
    if entries.len() == 0 {
        KeysOutcome::Fields(Seq::empty())
    } else {
        let prev = entries.drop_last();
        let key = entries.last().0;
        match keys_outcome(t, shape, prev) {
            KeysOutcome::Fields(seen) => match field_index(t, key) {
                None => KeysOutcome::Unknown(key),
                Some(i) => if slot_filled(shape, seen, prev, shape[i].0) {
                    KeysOutcome::Duplicate(t[i].0)
                } else {
                    KeysOutcome::Fields(seen.push(i))
                },
            },
            other => other,
        }
    }
}

/// Why the keys of an object do not make a message.
#[derive(Debug)]
pub enum FieldError {
    /// The key names no field of the message.
    Unknown(String),
    /// The field with this JSON name is given twice.
    Duplicate(String),
}

proof fn lemma_field_index_bounds(t: Seq<(Seq<char>, Seq<char>)>, key: Seq<char>)
    ensures
        field_index(t, key) matches Some(i) ==> 0 <= i < t.len() && names_field(t[i], key),
    decreases t.len(),
{
    if t.len() > 0 {
        lemma_field_index_bounds(t.drop_last(), key);
    }
}

/// Once reading keys has failed, later keys do not change the outcome.
proof fn lemma_outcome_sticky(
    t: Seq<(Seq<char>, Seq<char>)>,
    shape: Seq<(int, bool)>,
    entries: Seq<(Seq<char>, bool)>,
    n: int,
)
    requires
        0 <= n <= entries.len(),
        !(keys_outcome(t, shape, entries.take(n)) is Fields),
    ensures
        keys_outcome(t, shape, entries) == keys_outcome(t, shape, entries.take(n)),
    decreases entries.len() - n,
{
    if n < entries.len() {
        assert(entries.take(n + 1).drop_last() =~= entries.take(n));
        lemma_outcome_sticky(t, shape, entries, n + 1);
    } else {
        assert(entries.take(n) =~= entries);
    }
}

/// The first field of `fields` that `key` names.
pub fn find_field(fields: &Vec<FieldName>, key: &str) -> (r: Option<usize>)
    ensures
        match field_index(names_view(fields@), key@) {
            Some(i) => r == Some(i as usize),
            None => r is None,
        },
{
    let ghost t = names_view(fields@);
    let k = String::from_str(key);
    let mut i: usize = 0;
    while i < fields.len()
        invariant
            i <= fields@.len(),
            t == names_view(fields@),
            k@ == key@,
            field_index(t.take(i as int), key@) is None,
        decreases fields@.len() - i,
    {
        proof {
            assert(t.take(i + 1).drop_last() =~= t.take(i as int));
        }
        if fields[i].json == k || fields[i].proto == k {
            proof {
                assert(t.take(i + 1).last() == t[i as int]);
                lemma_field_index_prefix(t, key@, i + 1);
            }
            return Some(i);
        }
        i = i + 1;
    }
    proof {
        assert(t.take(i as int) =~= t);
    }
    None
}

/// A first match within a prefix is the first match of the whole table.
proof fn lemma_field_index_prefix(t: Seq<(Seq<char>, Seq<char>)>, key: Seq<char>, n: int)
    requires
        0 <= n <= t.len(),
        field_index(t.take(n), key) is Some,
    ensures
        field_index(t, key) == field_index(t.take(n), key),
    decreases t.len() - n,
{
    if n < t.len() {
        assert(t.take(n + 1).drop_last() =~= t.take(n));
        lemma_field_index_prefix(t, key, n + 1);
    } else {
        assert(t.take(n) =~= t);
    }
}

/// Whether the slot `slot` is filled after the first `out.len()` entries of
/// `entries` were read as the fields `out`.
fn slot_taken(fields: &Vec<FieldName>, out: &Vec<usize>, entries: &Vec<(String, bool)>, slot: usize) -> (r: bool)
    requires
        out@.len() <= entries@.len(),
        forall|j: int| 0 <= j < out@.len() ==> out@[j] < fields@.len(),
    ensures
        r == slot_filled(
            shape_view(fields@),
            out@.map_values(|x: usize| x as int),
            entries_view(entries@),
            slot as int,
        ),
{
    let ghost sh = shape_view(fields@);
    let ghost seen = out@.map_values(|x: usize| x as int);
    let ghost kv = entries_view(entries@);
    let mut p: usize = 0;
    while p < out.len()
        invariant
            p <= out@.len(),
            out@.len() <= entries@.len(),
            forall|j: int| 0 <= j < out@.len() ==> out@[j] < fields@.len(),
            sh == shape_view(fields@),
            seen == out@.map_values(|x: usize| x as int),
            kv == entries_view(entries@),
            forall|q: int|
                #![trigger sh[seen[q]]]
                0 <= q < p ==> !(sh[seen[q]].0 == slot && !(sh[seen[q]].1 && kv[q].1)),
        decreases out@.len() - p,
    {
        let f = out[p];
        proof {
            assert(seen[p as int] == f as int);
            assert(sh[f as int] == (fields@[f as int].slot as int, fields@[f as int].nullable));
            assert(kv[p as int] == (entries@[p as int].0@, entries@[p as int].1));
        }
        if fields[f].slot == slot && !(fields[f].nullable && entries[p].1) {
            proof {
                assert(seen[p as int] == f as int);
                assert(sh[seen[p as int]].0 == slot && !(sh[seen[p as int]].1 && kv[p as int].1));
            }
            return true;
        }
        proof {
            assert(!(sh[seen[p as int]].0 == slot && !(sh[seen[p as int]].1 && kv[p as int].1)));
        }
        p = p + 1;
    }
    proof {
        if slot_filled(sh, seen, kv, slot as int) {
            let q = choose|q: int|
                #![trigger sh[seen[q]]]
                0 <= q < seen.len() && sh[seen[q]].0 == slot && !(sh[seen[q]].1 && kv[q].1);
            assert(!(sh[seen[q]].0 == slot && !(sh[seen[q]].1 && kv[q].1)));
        }
    }
    false
}

/// Reads the keys of an object of a message with fields `fields`, each key
/// given with whether its value is JSON `null`: the fields they name, in
/// order; or the first key that names no field; or the first key whose
/// field's slot is already filled, by that field's JSON name. A `null` value
/// of a message-typed, `optional` or `oneof` field leaves its slot unfilled,
/// so such a key may follow it again.
pub fn resolve_keys(fields: &Vec<FieldName>, entries: &Vec<(String, bool)>) -> (r: Result<Vec<usize>, FieldError>)
    ensures
        match keys_outcome(names_view(fields@), shape_view(fields@), entries_view(entries@)) {
            KeysOutcome::Fields(s) => r matches Ok(v) && v@.len() == s.len() && forall|j: int|
                0 <= j < s.len() ==> v@[j] as int == #[trigger] s[j],
            KeysOutcome::Unknown(k) => r matches Err(FieldError::Unknown(u)) && u@ == k,
            KeysOutcome::Duplicate(n) => r matches Err(FieldError::Duplicate(d)) && d@ == n,
        },
{
    let ghost t = names_view(fields@);
    let ghost sh = shape_view(fields@);
    let ghost kv = entries_view(entries@);
    let table_len: usize = fields.len();
    let mut out: Vec<usize> = Vec::new();
    let mut i: usize = 0;
    assert(kv.take(0) =~= Seq::<(Seq<char>, bool)>::empty());
    assert(out@.map_values(|x: usize| x as int) =~= Seq::<int>::empty());
    while i < entries.len()
        invariant
            i <= entries@.len(),
            t == names_view(fields@),
            sh == shape_view(fields@),
            kv == entries_view(entries@),
            out@.len() == i,
            table_len == fields@.len(),
            forall|j: int| 0 <= j < out@.len() ==> out@[j] < fields@.len(),
            keys_outcome(t, sh, kv.take(i as int)) == KeysOutcome::Fields(out@.map_values(|x: usize| x as int)),
        decreases entries@.len() - i,
    {
        let ghost prefix = kv.take(i as int);
        let ghost sn = out@.map_values(|x: usize| x as int);
        proof {
            assert(kv.take(i + 1).drop_last() =~= prefix);
            assert(kv.take(i + 1).last() == kv[i as int]);
            assert(kv[i as int] == (entries@[i as int].0@, entries@[i as int].1));
            lemma_field_index_bounds(t, kv[i as int].0);
        }
        let key: &str = entries[i].0.as_str();
        assert(key@ == kv[i as int].0);
        let found = find_field(fields, key);
        proof {
            lemma_field_index_bounds(t, key@);
            assert(found matches Some(g) ==> field_index(t, key@) == Some(g as int));
        }
        match found {
            None => {
                proof {
                    lemma_outcome_sticky(t, sh, kv, i + 1);
                }
                return Err(FieldError::Unknown(entries[i].0.clone()));
            },
            Some(f) => {
                let taken = slot_taken(fields, &out, entries, fields[f].slot);
                proof {
                    let s = sh[f as int].0;
                    assert(sh[f as int] == (fields@[f as int].slot as int, fields@[f as int].nullable));
                    assert(s == fields@[f as int].slot as int);
                    assert(slot_filled(sh, sn, prefix, s) == slot_filled(sh, sn, kv, s)) by {
                        if slot_filled(sh, sn, kv, s) {
                            let q = choose|q: int|
                                #![trigger sh[sn[q]]]
                                0 <= q < sn.len() && sh[sn[q]].0 == s && !(sh[sn[q]].1 && kv[q].1);
                            assert(prefix[q] == kv[q]);
                        }
                        if slot_filled(sh, sn, prefix, s) {
                            let q = choose|q: int|
                                #![trigger sh[sn[q]]]
                                0 <= q < sn.len() && sh[sn[q]].0 == s && !(sh[sn[q]].1 && prefix[q].1);
                            assert(prefix[q] == kv[q]);
                        }
                    }
                }
                if taken {
                    proof {
                        let nx = kv.take(i + 1);
                        assert(nx.drop_last() == prefix);
                        assert(keys_outcome(t, sh, prefix) == KeysOutcome::Fields(sn));
                        assert(field_index(t, nx.last().0) == Some(f as int));
                        assert(slot_filled(sh, sn, prefix, sh[f as int].0));
                        assert(keys_outcome(t, sh, nx) == KeysOutcome::Duplicate(t[f as int].0));
                        lemma_outcome_sticky(t, sh, kv, i + 1);
                    }
                    return Err(FieldError::Duplicate(fields[f].json.clone()));
                }
                out.push(f);
                proof {
                    assert(out@.map_values(|x: usize| x as int) =~= sn.push(f as int));
                }
            },
        }
        i = i + 1;
    }
    proof {
        assert(kv.take(i as int) =~= kv);
    }
    Ok(out)
}

/// The JSON names of the fields of `t` that are written, in table order: a
/// field is written when it does not hold its default value (`present`).
pub open spec fn written_keys(t: Seq<(Seq<char>, Seq<char>)>, present: Seq<bool>) -> Seq<Seq<char>>
    decreases present.len(),
{
    if present.len() == 0 || t.len() == 0 {
        Seq::empty()
    } else {
        let rest = written_keys(t.drop_last(), present.drop_last());
        if present.last() {
            rest.push(t.last().0)
        } else {
            rest
        }
    }
}

/// The JSON names of the fields a message is written with: those flagged
/// `present` (holding a value other than the default), in table order.
pub fn written_names(fields: &Vec<FieldName>, present: &Vec<bool>) -> (r: Vec<String>)
    requires
        present@.len() == fields@.len(),
    ensures
        r@.map_values(|s: String| s@) == written_keys(names_view(fields@), present@),
{
    let ghost t = names_view(fields@);
    let mut out: Vec<String> = Vec::new();
    let mut i: usize = 0;
    while i < fields.len()
        invariant
            i <= fields@.len(),
            present@.len() == fields@.len(),
            t == names_view(fields@),
            out@.map_values(|s: String| s@) == written_keys(t.take(i as int), present@.take(i as int)),
        decreases fields@.len() - i,
    {
        let ghost before = out@;
        proof {
            assert(t.take(i + 1).drop_last() =~= t.take(i as int));
            assert(present@.take(i + 1).drop_last() =~= present@.take(i as int));
        }
        if present[i] {
            out.push(fields[i].json.clone());
            proof {
                assert(out@.map_values(|s: String| s@) =~= before.map_values(|s: String| s@).push(
                    fields@[i as int].json@,
                ));
            }
        }
        i = i + 1;
    }
    proof {
        assert(t.take(i as int) =~= t);
        assert(present@.take(i as int) =~= present@);
    }
    out
}

/// No key names two fields of the table: all the names of distinct fields
/// differ, and a field's two names only name that field.
pub open spec fn names_distinct(t: Seq<(Seq<char>, Seq<char>)>) -> bool {
    forall|i: int, j: int|
        0 <= i < t.len() && 0 <= j < t.len() && i != j ==> !names_field(#[trigger] t[j], t[i].0) && !names_field(
            #[trigger] t[i],
            t[j].0,
        ) && !names_field(t[j], t[i].1) && !names_field(t[i], t[j].1)
}

/// The indices of the fields flagged `present`, in order.
pub open spec fn present_indices(present: Seq<bool>) -> Seq<int>
    decreases present.len(),
{
    if present.len() == 0 {
        Seq::empty()
    } else {
        let rest = present_indices(present.drop_last());
        if present.last() {
            rest.push(present.len() - 1)
        } else {
            rest
        }
    }
}

proof fn lemma_field_index_of_own_name(t: Seq<(Seq<char>, Seq<char>)>, i: int)
    requires
        names_distinct(t),
        0 <= i < t.len(),
    ensures
        field_index(t, t[i].0) == Some(i),
    decreases t.len(),
{
    if i < t.len() - 1 {
        let p = t.drop_last();
        assert forall|a: int, b: int| 0 <= a < p.len() && 0 <= b < p.len() && a != b implies !names_field(
            #[trigger] p[b],
            p[a].0,
        ) && !names_field(#[trigger] p[a], p[b].0) && !names_field(p[b], p[a].1) && !names_field(p[a], p[b].1) by {
            assert(p[a] == t[a] && p[b] == t[b]);
        }
        lemma_field_index_of_own_name(p, i);
    } else {
        lemma_field_index_none_before(t.drop_last(), t[i].0, t, i);
    }
}

proof fn lemma_field_index_none_before(p: Seq<(Seq<char>, Seq<char>)>, key: Seq<char>, t: Seq<(Seq<char>, Seq<char>)>, i: int)
    requires
        names_distinct(t),
        0 <= i < t.len(),
        key == t[i].0,
        p.len() <= i,
        p =~= t.take(p.len() as int),
    ensures
        field_index(p, key) is None,
    decreases p.len(),
{
    if p.len() > 0 {
        let q = p.drop_last();
        assert(q =~= t.take(q.len() as int));
        lemma_field_index_none_before(q, key, t, i);
        let j = p.len() - 1;
        assert(p.last() == t[j]);
        assert(!names_field(t[j], t[i].0));
    }
}

proof fn lemma_indices_below(present: Seq<bool>)
    ensures
        forall|j: int| 0 <= j < present_indices(present).len() ==> 0 <= #[trigger] present_indices(present)[j]
            < present.len() && present[present_indices(present)[j]],
    decreases present.len(),
{
    if present.len() > 0 {
        let pp = present.drop_last();
        lemma_indices_below(pp);
        let ix = present_indices(present);
        assert forall|j: int| 0 <= j < ix.len() implies 0 <= #[trigger] ix[j] < present.len() && present[ix[j]] by {
            if j < present_indices(pp).len() {
                assert(ix[j] == present_indices(pp)[j]);
                assert(present[ix[j]] == pp[ix[j]]);
            }
        }
    }
}

/// The keys a message is written with, each with a value that is not `null`.
pub open spec fn written_entries(t: Seq<(Seq<char>, Seq<char>)>, present: Seq<bool>) -> Seq<(Seq<char>, bool)> {
    written_keys(t, present).map_values(|k: Seq<char>| (k, false))
}

/// The fields flagged `present` fill distinct slots (at most one member of a
/// `oneof` is set).
pub open spec fn present_slots_distinct(shape: Seq<(int, bool)>, present: Seq<bool>) -> bool {
    forall|i: int, j: int|
        0 <= i < j < present.len() && present[i] && present[j] ==> #[trigger] shape[i].0 != #[trigger] shape[j].0
}

/// Reading back the keys a message is written with: when no key names two
/// fields and the fields written fill distinct slots, the written keys (whose
/// values are never `null`) name exactly the fields flagged `present`, in
/// order, with no unknown or repeated key.
pub proof fn lemma_written_keys_read_back(t: Seq<(Seq<char>, Seq<char>)>, shape: Seq<(int, bool)>, present: Seq<bool>)
    requires
        names_distinct(t),
        present.len() == t.len(),
        shape.len() == t.len(),
        present_slots_distinct(shape, present),
    ensures
        keys_outcome(t, shape, written_entries(t, present)) == KeysOutcome::Fields(present_indices(present)),
{
    lemma_read_back_within(t, shape, present);
}

proof fn lemma_read_back_within(t: Seq<(Seq<char>, Seq<char>)>, shape: Seq<(int, bool)>, present: Seq<bool>)
    requires
        names_distinct(t),
        present.len() == t.len(),
        shape.len() >= t.len(),
        present_slots_distinct(shape, present),
    ensures
        keys_outcome(t, shape, written_entries(t, present)) == KeysOutcome::Fields(present_indices(present)),
    decreases present.len(),
{
    if present.len() > 0 {
        let tp = t.drop_last();
        let pp = present.drop_last();
        assert(names_distinct(tp)) by {
            assert forall|a: int, b: int| 0 <= a < tp.len() && 0 <= b < tp.len() && a != b implies !names_field(
                #[trigger] tp[b],
                tp[a].0,
            ) && !names_field(#[trigger] tp[a], tp[b].0) && !names_field(tp[b], tp[a].1) && !names_field(
                tp[a],
                tp[b].1,
            ) by {
                assert(tp[a] == t[a] && tp[b] == t[b]);
            }
        }
        assert(present_slots_distinct(shape, pp)) by {
            assert forall|i: int, j: int|
                0 <= i < j < pp.len() && pp[i] && pp[j] implies #[trigger] shape[i].0 != #[trigger] shape[j].0 by {
                assert(pp[i] == present[i] && pp[j] == present[j]);
            }
        }
        lemma_read_back_within(tp, shape, pp);
        let ep = written_entries(tp, pp);
        lemma_keys_prefix_table(tp, t, shape, ep);
        if present.last() {
            let es = written_entries(t, present);
            let last = t.len() - 1;
            assert(written_keys(t, present) == written_keys(tp, pp).push(t.last().0));
            assert(es.drop_last() =~= ep);
            assert(es.last() == (t[last].0, false));
            lemma_field_index_of_own_name(t, last);
            lemma_indices_below(pp);
            let ix = present_indices(pp);
            assert(!slot_filled(shape, ix, ep, shape[last].0)) by {
                if slot_filled(shape, ix, ep, shape[last].0) {
                    let q = choose|q: int|
                        #![trigger shape[ix[q]]]
                        0 <= q < ix.len() && shape[ix[q]].0 == shape[last].0 && !(shape[ix[q]].1 && ep[q].1);
                    assert(0 <= ix[q] < pp.len() && pp[ix[q]]);
                    assert(present[ix[q]]);
                    assert(shape[ix[q]].0 != shape[last].0);
                }
            }
        } else {
            assert(written_entries(t, present) =~= ep);
        }
    }
}

/// Keys that all name fields of a prefix of a table read the same against
/// the whole table, when no key names two fields.
proof fn lemma_keys_prefix_table(
    p: Seq<(Seq<char>, Seq<char>)>,
    t: Seq<(Seq<char>, Seq<char>)>,
    shape: Seq<(int, bool)>,
    entries: Seq<(Seq<char>, bool)>,
)
    requires
        names_distinct(t),
        p =~= t.drop_last(),
        t.len() > 0,
        keys_outcome(p, shape, entries) is Fields,
    ensures
        keys_outcome(t, shape, entries) == keys_outcome(p, shape, entries),
    decreases entries.len(),
{
    if entries.len() > 0 {
        lemma_keys_prefix_table(p, t, shape, entries.drop_last());
        let k = entries.last().0;
        assert(field_index(t, k) == field_index(p, k)) by {
            assert(t.drop_last() =~= p);
            lemma_field_index_bounds(p, k);
        }
        assert(keys_outcome(p, shape, entries.drop_last()) is Fields);
        lemma_field_index_bounds(p, k);
        if let Some(i) = field_index(p, k) {
            assert(t[i] == p[i]);
        }
    }
}

/// A value of an enumeration: its string name and its number.
pub struct EnumValue {
    pub name: String,
    pub value: i32,
}

/// The values of an enumeration table, by name text and number.
pub open spec fn enum_view(t: Seq<EnumValue>) -> Seq<(Seq<char>, i32)> {
    t.map_values(|e: EnumValue| (e.name@, e.value))
}

/// The position of the first value of `t` named `s`.
pub open spec fn index_named(t: Seq<(Seq<char>, i32)>, s: Seq<char>) -> Option<int>
    decreases t.len(),
{
    if t.len() == 0 {
        None
    } else {
        match index_named(t.drop_last(), s) {
            Some(i) => Some(i),
            None => if t.last().0 == s {
                Some(t.len() - 1)
            } else {
                None
            },
        }
    }
}

/// The position of the first value of `t` numbered `v`.
pub open spec fn index_numbered(t: Seq<(Seq<char>, i32)>, v: i32) -> Option<int>
    decreases t.len(),
{
    if t.len() == 0 {
        None
    } else {
        match index_numbered(t.drop_last(), v) {
            Some(i) => Some(i),
            None => if t.last().1 == v {
                Some(t.len() - 1)
            } else {
                None
            },
        }
    }
}

proof fn lemma_index_named_prefix(t: Seq<(Seq<char>, i32)>, s: Seq<char>, n: int)
    requires
        0 <= n <= t.len(),
        index_named(t.take(n), s) is Some,
    ensures
        index_named(t, s) == index_named(t.take(n), s),
    decreases t.len() - n,
{
    if n < t.len() {
        assert(t.take(n + 1).drop_last() =~= t.take(n));
        lemma_index_named_prefix(t, s, n + 1);
    } else {
        assert(t.take(n) =~= t);
    }
}

proof fn lemma_index_numbered_prefix(t: Seq<(Seq<char>, i32)>, v: i32, n: int)
    requires
        0 <= n <= t.len(),
        index_numbered(t.take(n), v) is Some,
    ensures
        index_numbered(t, v) == index_numbered(t.take(n), v),
    decreases t.len() - n,
{
    if n < t.len() {
        assert(t.take(n + 1).drop_last() =~= t.take(n));
        lemma_index_numbered_prefix(t, v, n + 1);
    } else {
        assert(t.take(n) =~= t);
    }
}

/// The string name of the enumeration value numbered `v`, when `v` is a known value.
pub fn enum_name(values: &Vec<EnumValue>, v: i32) -> (r: Option<String>)
    ensures
        match index_numbered(enum_view(values@), v) {
            Some(i) => r matches Some(n) && n@ == enum_view(values@)[i].0,
            None => r is None,
        },
{
    let ghost t = enum_view(values@);
    let mut i: usize = 0;
    while i < values.len()
        invariant
            i <= values@.len(),
            t == enum_view(values@),
            index_numbered(t.take(i as int), v) is None,
        decreases values@.len() - i,
    {
        proof {
            assert(t.take(i + 1).drop_last() =~= t.take(i as int));
        }
        if values[i].value == v {
            proof {
                lemma_index_numbered_prefix(t, v, i + 1);
            }
            return Some(values[i].name.clone());
        }
        i = i + 1;
    }
    proof {
        assert(t.take(i as int) =~= t);
    }
    None
}

/// The number of the enumeration value named `s`, when `s` names one.
pub fn enum_value_of_str(values: &Vec<EnumValue>, s: &str) -> (r: Option<i32>)
    ensures
        match index_named(enum_view(values@), s@) {
            Some(i) => r == Some(enum_view(values@)[i].1),
            None => r is None,
        },
{
    let ghost t = enum_view(values@);
    let k = String::from_str(s);
    let mut i: usize = 0;
    while i < values.len()
        invariant
            i <= values@.len(),
            t == enum_view(values@),
            k@ == s@,
            index_named(t.take(i as int), s@) is None,
        decreases values@.len() - i,
    {
        proof {
            assert(t.take(i + 1).drop_last() =~= t.take(i as int));
        }
        if values[i].name == k {
            proof {
                lemma_index_named_prefix(t, s@, i + 1);
            }
            return Some(values[i].value);
        }
        i = i + 1;
    }
    proof {
        assert(t.take(i as int) =~= t);
    }
    None
}

/// The enumeration value a JSON number stands for: the number, when it fits
/// an `i32` and is a known value.
pub fn enum_value_of_int(values: &Vec<EnumValue>, v: i64) -> (r: Option<i32>)
    ensures
        (i32::MIN <= v <= i32::MAX && index_numbered(enum_view(values@), v as i32) is Some) ==> r == Some(v as i32),
        !(i32::MIN <= v <= i32::MAX && index_numbered(enum_view(values@), v as i32) is Some) ==> r is None,
{
    if v < i32::MIN as i64 || v > i32::MAX as i64 {
        return None;
    }
    let n = v as i32;
    match enum_name(values, n) {
        Some(_) => Some(n),
        None => None,
    }
}

/// Names and numbers read back: when no two values share a name or a number,
/// the name of a value names it, and the value a name names has that name.
pub proof fn lemma_enum_read_back(t: Seq<(Seq<char>, i32)>, i: int)
    requires
        0 <= i < t.len(),
        forall|a: int, b: int| 0 <= a < b < t.len() ==> t[a].0 != t[b].0 && t[a].1 != t[b].1,
    ensures
        index_named(t, t[i].0) == Some(i),
        index_numbered(t, t[i].1) == Some(i),
    decreases t.len(),
{
    let p = t.drop_last();
    if i < t.len() - 1 {
        lemma_enum_read_back(p, i);
    } else {
        lemma_index_absent(p, t);
    }
}

proof fn lemma_index_absent(p: Seq<(Seq<char>, i32)>, t: Seq<(Seq<char>, i32)>)
    requires
        p =~= t.take(p.len() as int),
        p.len() < t.len(),
        forall|a: int, b: int| 0 <= a < b < t.len() ==> t[a].0 != t[b].0 && t[a].1 != t[b].1,
    ensures
        index_named(p, t[t.len() - 1].0) is None,
        index_numbered(p, t[t.len() - 1].1) is None,
    decreases p.len(),
{
    if p.len() > 0 {
        let q = p.drop_last();
        assert(q =~= t.take(q.len() as int));
        lemma_index_absent(q, t);
        assert(p.last() == t[p.len() - 1]);
    }
}

} // verus!
