use vstd::prelude::*;

use crate::strings::str_eq;

verus! {

/// The four field names that Rust cannot use as identifiers as they stand in
/// JSON, and the spelling that a Rust field takes for each.
pub open spec fn spec_fix_type(name: Seq<char>) -> Seq<char> {
    if name == "type_"@ {
        "type"@
    } else if name == "type"@ {
        "type_"@
    } else if name == "mod_"@ {
        "mod"@
    } else if name == "mod"@ {
        "mod_"@
    } else {
        name
    }
}

/// Translates between a Rust field name and its JSON key: `type_` and `type`
/// trade places, as do `mod_` and `mod`; every other name stays as it is.
pub fn fix_type<'a>(val: &'a str) -> (r: &'a str)
    ensures
        r@ == spec_fix_type(val@),
        val@ == "type_"@ ==> r@ == "type"@,
        val@ == "type"@ ==> r@ == "type_"@,
        val@ == "mod_"@ ==> r@ == "mod"@,
        val@ == "mod"@ ==> r@ == "mod_"@,
        val@ != "type_"@ && val@ != "type"@ && val@ != "mod_"@ && val@ != "mod"@ ==> r@ == val@,
{
    proof {
        lemma_reserved_names_distinct();
    }
    if str_eq(val, "type_") {
        "type"
    } else if str_eq(val, "type") {
        "type_"
    } else if str_eq(val, "mod_") {
        "mod"
    } else if str_eq(val, "mod") {
        "mod_"
    } else {
        val
    }
}


/// The JSON keys of a struct's fields, in order.
pub open spec fn spec_field_keys(fields: Seq<Seq<char>>) -> Seq<Seq<char>> {
    fields.map_values(|f: Seq<char>| spec_fix_type(f))
}

/// The position of the last key in `keys` that equals `key`.
pub open spec fn last_index_of(keys: Seq<Seq<char>>, key: Seq<char>) -> Option<int>
    decreases keys.len(),
{
    if keys.len() == 0 {
        None
    } else if keys.last() == key {
        Some(keys.len() - 1)
    } else {
        last_index_of(keys.drop_last(), key)
    }
}

/// For each field, the entry of a JSON object (given by its keys, in the
/// order they were read) whose value the field takes: the last one whose key
/// is the field's JSON key. `None` means the field keeps its default value.
pub open spec fn spec_field_sources(fields: Seq<Seq<char>>, keys: Seq<Seq<char>>) -> Seq<Option<int>> {
    Seq::new(fields.len(), |i: int| last_index_of(keys, spec_fix_type(fields[i])))
}

/// The character sequences that a vector of string slices holds.
pub open spec fn strs_view(v: Seq<&str>) -> Seq<Seq<char>> {
    v.map_values(|s: &str| s@)
}

pub open spec fn opt_int(o: Option<usize>) -> Option<int> {
    match o {
        Some(k) => Some(k as int),
        None => None,
    }
}

pub open spec fn sources_view(v: Seq<Option<usize>>) -> Seq<Option<int>> {
    v.map_values(|o: Option<usize>| opt_int(o))
}

/// The keys under which a struct's fields are written, in field order.
pub fn field_keys<'a>(fields: &Vec<&'a str>) -> (r: Vec<&'a str>)
    ensures
        strs_view(r@) == spec_field_keys(strs_view(fields@)),
{
    let mut r: Vec<&'a str> = Vec::new();
    let mut i: usize = 0;
    while i < fields.len()
        invariant
            i <= fields.len(),
            r@.len() == i,
            forall|j: int| 0 <= j < i ==> #[trigger] r@[j]@ == spec_fix_type(fields@[j]@),
        decreases fields.len() - i,
    {
        r.push(fix_type(fields[i]));
        i = i + 1;
    }
    assert(strs_view(r@) =~= spec_field_keys(strs_view(fields@)));
    r
}

/// Reads the keys of a JSON object in order and decides, for each field of a
/// struct, which entry its value comes from. A key that names a field sets
/// it, a later one overriding an earlier one; a key that names no field is
/// skipped; a field that no key names keeps its default (`None`).
pub fn field_sources(fields: &Vec<&str>, keys: &Vec<&str>) -> (r: Vec<Option<usize>>)
    ensures
        sources_view(r@) == spec_field_sources(strs_view(fields@), strs_view(keys@)),
        r@.len() == fields@.len(),
        forall|i: int|
            0 <= i < r@.len() ==> match #[trigger] r@[i] {
                Some(k) => {
                    &&& k < keys@.len()
                    &&& keys@[k as int]@ == spec_fix_type(fields@[i]@)
                    &&& forall|j: int| k < j < keys@.len() ==> keys@[j]@ != spec_fix_type(fields@[i]@)
                },
                None => forall|j: int| 0 <= j < keys@.len() ==> keys@[j]@ != spec_fix_type(fields@[i]@),
            },
{
    let ghost fv = strs_view(fields@);
    let ghost kv = strs_view(keys@);
    let mut r: Vec<Option<usize>> = Vec::new();
    let mut i: usize = 0;
    while i < fields.len()
        invariant
            i <= fields.len(),
            r@.len() == i,
            forall|j: int| 0 <= j < i ==> #[trigger] r@[j] == None::<usize>,
        decreases fields.len() - i,
    {
        r.push(None);
        i = i + 1;
    }
    let mut k: usize = 0;
    while k < keys.len()
        invariant
            k <= keys.len(),
            r@.len() == fields@.len(),
            fv == strs_view(fields@),
            kv == strs_view(keys@),
            forall|j: int| 0 <= j < r@.len() ==> #[trigger] opt_int(r@[j]) == last_index_of(
                kv.take(k as int),
                spec_fix_type(fv[j]),
            ),
        decreases keys.len() - k,
    {
        let mut j: usize = 0;
        while j < fields.len()
            invariant
                k < keys.len(),
                j <= fields.len(),
                r@.len() == fields@.len(),
                fv == strs_view(fields@),
                kv == strs_view(keys@),
                forall|m: int| 0 <= m < j ==> #[trigger] opt_int(r@[m]) == last_index_of(
                    kv.take(k + 1),
                    spec_fix_type(fv[m]),
                ),
                forall|m: int| j <= m < r@.len() ==> #[trigger] opt_int(r@[m]) == last_index_of(
                    kv.take(k as int),
                    spec_fix_type(fv[m]),
                ),
            decreases fields.len() - j,
        {
            assert(kv.take(k + 1).drop_last() =~= kv.take(k as int));
            assert(kv.take(k + 1).last() == keys@[k as int]@);
            let ghost key = spec_fix_type(fv[j as int]);
            assert(fields@[j as int]@ == fv[j as int]);
            if str_eq(keys[k], fix_type(fields[j])) {
                r.set(j, Some(k));
                assert(last_index_of(kv.take(k + 1), key) == Some(k as int));
            } else {
                assert(last_index_of(kv.take(k + 1), key) == last_index_of(kv.take(k as int), key));
            }
            j = j + 1;
        }
        k = k + 1;
    }
    assert(kv.take(keys@.len() as int) =~= kv);
    assert forall|j: int| 0 <= j < r@.len() implies sources_view(r@)[j] == spec_field_sources(fv, kv)[j] by {
        assert(opt_int(r@[j]) == last_index_of(kv.take(k as int), spec_fix_type(fv[j])));
    }
    assert(sources_view(r@) =~= spec_field_sources(fv, kv));
    assert forall|i: int| 0 <= i < r@.len() implies match #[trigger] r@[i] {
        Some(k) => {
            &&& k < keys@.len()
            &&& keys@[k as int]@ == spec_fix_type(fields@[i]@)
            &&& forall|j: int| k < j < keys@.len() ==> keys@[j]@ != spec_fix_type(fields@[i]@)
        },
        None => forall|j: int| 0 <= j < keys@.len() ==> keys@[j]@ != spec_fix_type(fields@[i]@),
    } by {
        lemma_field_source_is_last_match(fv, kv, i);
        assert(sources_view(r@)[i] == opt_int(r@[i]));
        assert(fv[i] == fields@[i]@);
        assert(kv.len() == keys@.len());
        assert forall|j: int| 0 <= j < keys@.len() implies kv[j] == keys@[j]@ by {}
        match r@[i] {
            Some(k) => {
                assert(spec_field_sources(fv, kv)[i] == Some(k as int));
                assert(kv[k as int] == keys@[k as int]@);
                assert forall|j: int| k < j < keys@.len() implies keys@[j]@ != spec_fix_type(fields@[i]@) by {
                    assert(kv[j] == keys@[j]@);
                }
            },
            None => {
                assert(spec_field_sources(fv, kv)[i] == None::<int>);
                assert forall|j: int| 0 <= j < keys@.len() implies keys@[j]@ != spec_fix_type(fields@[i]@) by {
                    assert(kv[j] == keys@[j]@);
                }
            },
        }
    }
    r
}

/// `fix_type` leaves every name but `type`, `type_`, `mod` and `mod_` as it
/// is, and swaps those two pairs.
pub proof fn lemma_fix_type_changes_only_reserved(name: Seq<char>)
    ensures
        name != "type_"@ && name != "type"@ && name != "mod_"@ && name != "mod"@ ==> spec_fix_type(name) == name,
        spec_fix_type("type_"@) == "type"@,
        spec_fix_type("type"@) == "type_"@,
        spec_fix_type("mod_"@) == "mod"@,
        spec_fix_type("mod"@) == "mod_"@,
{
    lemma_reserved_names_distinct();
}

proof fn lemma_reserved_names_distinct()
    ensures
        "type"@ != "type_"@,
        "mod"@ != "mod_"@,
        "type"@ != "mod"@,
        "type"@ != "mod_"@,
        "type_"@ != "mod"@,
        "type_"@ != "mod_"@,
{
    reveal_strlit("type_");
    reveal_strlit("type");
    reveal_strlit("mod_");
    reveal_strlit("mod");
    assert("type"@.len() != "type_"@.len());
    assert("mod"@.len() != "mod_"@.len());
    assert("type"@[0] != "mod_"@[0]);
    assert("type"@[0] != "mod"@[0]);
    assert("type_"@[0] != "mod"@[0]);
    assert("type_"@[0] != "mod_"@[0]);
}

/// `last_index_of` gives the position of the last key equal to `key`, and
/// `None` exactly when no key equals it.
pub proof fn lemma_last_index_of(keys: Seq<Seq<char>>, key: Seq<char>)
    ensures
        last_index_of(keys, key) matches Some(k) ==> {
            &&& 0 <= k < keys.len()
            &&& keys[k] == key
            &&& forall|j: int| k < j < keys.len() ==> keys[j] != key
        },
        last_index_of(keys, key) is None ==> forall|j: int| 0 <= j < keys.len() ==> keys[j] != key,
    decreases keys.len(),
{
    if keys.len() > 0 && keys.last() != key {
        let d = keys.drop_last();
        lemma_last_index_of(d, key);
        assert forall|j: int| 0 <= j < d.len() implies d[j] == keys[j] by {}
    }
}

/// Deserializing reads each field from the last entry, among all the keys
/// of the object, whose key is the field's JSON key; a field whose JSON key
/// no entry has keeps its default.
pub proof fn lemma_field_source_is_last_match(fields: Seq<Seq<char>>, keys: Seq<Seq<char>>, i: int)
    requires
        0 <= i < fields.len(),
    ensures
        spec_field_sources(fields, keys).len() == fields.len(),
        spec_field_sources(fields, keys)[i] matches Some(k) ==> {
            &&& 0 <= k < keys.len()
            &&& keys[k] == spec_fix_type(fields[i])
            &&& forall|j: int| k < j < keys.len() ==> keys[j] != spec_fix_type(fields[i])
        },
        spec_field_sources(fields, keys)[i] is None ==> forall|j: int|
            0 <= j < keys.len() ==> keys[j] != spec_fix_type(fields[i]),
{
    lemma_last_index_of(keys, spec_fix_type(fields[i]));
}

/// One more entry read: a field whose JSON key it has now takes its value
/// from that entry, and every other field keeps the source it had.
pub proof fn lemma_field_sources_one_more_key(fields: Seq<Seq<char>>, keys: Seq<Seq<char>>, key: Seq<char>, i: int)
    requires
        0 <= i < fields.len(),
    ensures
        spec_field_sources(fields, keys.push(key))[i] == if key == spec_fix_type(fields[i]) {
            Some(keys.len() as int)
        } else {
            spec_field_sources(fields, keys)[i]
        },
{
    assert(keys.push(key).drop_last() =~= keys);
}

/// `fix_type` undoes itself: a field name turned into its JSON key and back
/// is the name it was.
pub proof fn lemma_fix_type_involution(name: Seq<char>)
    ensures
        spec_fix_type(spec_fix_type(name)) == name,
{
    lemma_reserved_names_distinct();
}

/// Two field names with the same JSON key are the same name.
pub proof fn lemma_fix_type_injective(a: Seq<char>, b: Seq<char>)
    ensures
        spec_fix_type(a) == spec_fix_type(b) ==> a == b,
{
    lemma_fix_type_involution(a);
    lemma_fix_type_involution(b);
}

proof fn lemma_last_index_of_unique(keys: Seq<Seq<char>>, key: Seq<char>, i: int)
    requires
        0 <= i < keys.len(),
        forall|j: int| 0 <= j < keys.len() ==> (keys[j] == key <==> j == i),
    ensures
        last_index_of(keys, key) == Some(i),
    decreases keys.len(),
{
    if i < keys.len() - 1 {
        let d = keys.drop_last();
        assert forall|j: int| 0 <= j < d.len() implies (d[j] == key <==> j == i) by {
            assert(d[j] == keys[j]);
        }
        lemma_last_index_of_unique(d, key, i);
    }
}

/// Reading back what was written: when a struct's field names are distinct,
/// the keys that serializing it writes lead each field, on deserializing, to
/// exactly the entry that was written for it.
pub proof fn lemma_keys_round_trip(fields: Seq<Seq<char>>)
    requires
        forall|i: int, j: int| 0 <= i < fields.len() && 0 <= j < fields.len() && i != j ==> fields[i] != fields[j],
    ensures
        spec_field_sources(fields, spec_field_keys(fields)) == Seq::new(fields.len(), |i: int| Some(i)),
{
    let keys = spec_field_keys(fields);
    assert forall|i: int| 0 <= i < fields.len() implies last_index_of(keys, spec_fix_type(fields[i])) == Some(i) by {
        assert forall|j: int| 0 <= j < keys.len() implies (keys[j] == spec_fix_type(fields[i]) <==> j == i) by {
            lemma_fix_type_injective(fields[j], fields[i]);
        }
        lemma_last_index_of_unique(keys, spec_fix_type(fields[i]), i);
    }
    assert(spec_field_sources(fields, keys) =~= Seq::new(fields.len(), |i: int| Some(i)));
}

} // verus!
