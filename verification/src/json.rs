use vstd::prelude::*;
use crate::text::str_eq_str;

verus! {

/// A JSON-like document value owned by this library.
///
/// HTTP response bodies and cache files are turned into this type at the
/// crate boundary; all field extraction in this crate is verified against
/// it. Numbers are kept as signed 64-bit integers: every identifier and
/// count this crate reads fits there, and anything else is treated as
/// absent, matching the lenient per-field defaulting policy.
#[derive(Debug, PartialEq)]
#[verifier::ext_equal]
pub enum Json {
    Null,
    Bool(bool),
    Int(i64),
    Str(String),
    Arr(Vec<Json>),
    Obj(Vec<JsonEntry>),
}

/// One named member of a JSON object.
#[derive(Debug, PartialEq)]
#[verifier::ext_equal]
pub struct JsonEntry {
    pub key: String,
    pub value: Json,
}

/// First entry of `entries` whose key reads as `key`.
pub open spec fn obj_lookup(entries: Seq<JsonEntry>, key: Seq<char>) -> Option<Json>
    decreases entries.len(),
{
    if entries.len() == 0 {
        None
    } else if entries[0].key@ == key {
        Some(entries[0].value)
    } else {
        obj_lookup(entries.drop_first(), key)
    }
}

/// The member of object `j` named `key`, if `j` is an object that has one.
pub open spec fn spec_get(j: Json, key: Seq<char>) -> Option<Json> {
    match j {
        Json::Obj(entries) => obj_lookup(entries@, key),
        _ => None,
    }
}

/// String member of `j` named `key`, defaulting to the empty string.
pub open spec fn str_field(j: Json, key: Seq<char>) -> Seq<char> {
    match spec_get(j, key) {
        Some(Json::Str(s)) => s@,
        _ => Seq::empty(),
    }
}

/// String member of `j` named `key`, if present with a string value.
pub open spec fn opt_str_field(j: Json, key: Seq<char>) -> Option<Seq<char>> {
    match spec_get(j, key) {
        Some(Json::Str(s)) => Some(s@),
        _ => None,
    }
}

/// Non-negative integer member of `j` named `key`, defaulting to zero.
pub open spec fn u64_field(j: Json, key: Seq<char>) -> u64 {
    match spec_get(j, key) {
        Some(Json::Int(i)) => if i >= 0 {
            i as u64
        } else {
            0
        },
        _ => 0,
    }
}

/// Non-negative integer member of `j` named `key`, if present.
pub open spec fn opt_u64_field(j: Json, key: Seq<char>) -> Option<u64> {
    match spec_get(j, key) {
        Some(Json::Int(i)) => if i >= 0 {
            Some(i as u64)
        } else {
            None
        },
        _ => None,
    }
}

/// Signed integer member of `j` named `key`, defaulting to zero.
pub open spec fn i64_field(j: Json, key: Seq<char>) -> i64 {
    match spec_get(j, key) {
        Some(Json::Int(i)) => i,
        _ => 0,
    }
}

/// Boolean member of `j` named `key`, defaulting to false.
pub open spec fn bool_field(j: Json, key: Seq<char>) -> bool {
    match spec_get(j, key) {
        Some(Json::Bool(b)) => b,
        _ => false,
    }
}

/// Array member of `j` named `key`, defaulting to the empty sequence.
pub open spec fn arr_field(j: Json, key: Seq<char>) -> Seq<Json> {
    match spec_get(j, key) {
        Some(Json::Arr(items)) => items@,
        _ => Seq::empty(),
    }
}

/// What one array item contributes to `str_items`.
pub open spec fn str_item_part(x: Json) -> Seq<Seq<char>> {
    match x {
        Json::Str(s) => seq![s@],
        _ => Seq::empty(),
    }
}

/// The string items of `items`, non-strings skipped.
pub open spec fn str_items(items: Seq<Json>) -> Seq<Seq<char>>
    decreases items.len(),
{
    if items.len() == 0 {
        Seq::empty()
    } else {
        str_item_part(items[0]) + str_items(items.drop_first())
    }
}

impl Json {
    /// Looks a key up in an object, one step of the per-field JSON
    /// navigation; `None` on non-objects.
    pub fn get<'a>(&'a self, key: &str) -> (r: Option<&'a Json>)
        ensures
            match r {
                Some(v) => spec_get(*self, key@) == Some(*v),
                None => spec_get(*self, key@) is None,
            },
    {
        match self {
            Json::Obj(entries) => {
                let ghost all = entries@;
                let mut i: usize = 0;
                proof {
                    assert(all.skip(0) =~= all);
                    assert(*self is Obj && (*self)->Obj_0@ == all);
                }
                while i < entries.len()
                    invariant
                        i <= all.len(),
                        all == entries@,
                        spec_get(*self, key@) == obj_lookup(all, key@),
                        obj_lookup(all, key@) == obj_lookup(all.skip(i as int), key@),
                    decreases all.len() - i,
                {
                    let pair = &entries[i];
                    if str_eq_str(pair.key.as_str(), key) {
                        proof {
                            assert(all.skip(i as int)[0] == all[i as int]);
                            assert(obj_lookup(all.skip(i as int), key@) == Some(
                                all[i as int].value,
                            ));
                            assert(spec_get(*self, key@) == obj_lookup(all, key@));
                        }
                        return Some(&pair.value);
                    }
                    proof {
                        assert(all.skip(i as int)[0] == all[i as int]);
                        assert(all.skip(i as int).drop_first() =~= all.skip(i + 1));
                    }
                    i += 1;
                }
                proof {
                    assert(all.skip(i as int).len() == 0);
                }
                None
            },
            _ => None,
        }
    }

    /// String field with the empty-string default.
    pub fn str_or_empty(&self, key: &str) -> (r: String)
        ensures
            r@ == str_field(*self, key@),
    {
        match self.get(key) {
            Some(Json::Str(s)) => s.clone(),
            _ => {
                let r = String::new();
                proof {
                    assert(r@ =~= str_field(*self, key@));
                }
                r
            },
        }
    }

    /// String field kept optional.
    pub fn opt_str(&self, key: &str) -> (r: Option<String>)
        ensures
            match r {
                Some(s) => opt_str_field(*self, key@) == Some(s@),
                None => opt_str_field(*self, key@) is None,
            },
    {
        match self.get(key) {
            Some(Json::Str(s)) => Some(s.clone()),
            _ => None,
        }
    }

    /// Non-negative integer field with the zero default.
    pub fn u64_or_zero(&self, key: &str) -> (r: u64)
        ensures
            r == u64_field(*self, key@),
    {
        match self.get(key) {
            Some(Json::Int(i)) => if *i >= 0 {
                *i as u64
            } else {
                0
            },
            _ => 0,
        }
    }

    /// Non-negative integer field kept optional.
    pub fn opt_u64(&self, key: &str) -> (r: Option<u64>)
        ensures
            r == opt_u64_field(*self, key@),
    {
        match self.get(key) {
            Some(Json::Int(i)) => if *i >= 0 {
                Some(*i as u64)
            } else {
                None
            },
            _ => None,
        }
    }

    /// Signed integer field with the zero default.
    pub fn i64_or_zero(&self, key: &str) -> (r: i64)
        ensures
            r == i64_field(*self, key@),
    {
        match self.get(key) {
            Some(Json::Int(i)) => *i,
            _ => 0,
        }
    }

    /// Boolean field with the false default.
    pub fn bool_or_false(&self, key: &str) -> (r: bool)
        ensures
            r == bool_field(*self, key@),
    {
        match self.get(key) {
            Some(Json::Bool(b)) => *b,
            _ => false,
        }
    }

    /// Array field, empty when absent or not an array.
    pub fn arr_or_empty<'a>(&'a self, key: &str) -> (r: Option<&'a Vec<Json>>)
        ensures
            match r {
                Some(items) => arr_field(*self, key@) == items@,
                None => arr_field(*self, key@) == Seq::<Json>::empty(),
            },
    {
        match self.get(key) {
            Some(Json::Arr(items)) => Some(items),
            _ => None,
        }
    }

    /// Whether this value is an object, as the assignee presence test
    /// observes.
    pub fn is_object(&self) -> (r: bool)
        ensures
            r == (self is Obj),
    {
        match self {
            Json::Obj(_) => true,
            _ => false,
        }
    }
}

/// Removes the first entry named `key` from `entries` and hands its value
/// out, leaving every other key's lookup unchanged. Extraction by move, so
/// that what the caller stores is the very value the object held.
pub fn take_entry(entries: &mut Vec<JsonEntry>, key: &str) -> (r: Option<Json>)
    ensures
        r == obj_lookup(old(entries)@, key@),
        forall|k: Seq<char>|
            k != key@ ==> obj_lookup(final(entries)@, k) == obj_lookup(old(entries)@, k),
{
    let ghost all = entries@;
    let mut i: usize = 0;
    proof {
        assert(all.skip(0) =~= all);
    }
    while i < entries.len()
        invariant
            i <= all.len(),
            all == entries@,
            all == old(entries)@,
            obj_lookup(all, key@) == obj_lookup(all.skip(i as int), key@),
            forall|j: int| 0 <= j < i ==> all[j].key@ != key@,
        decreases all.len() - i,
    {
        let found = str_eq_str(entries[i].key.as_str(), key);
        if found {
            proof {
                assert(all.skip(i as int)[0] == all[i as int]);
                assert(obj_lookup(all.skip(i as int), key@) == Some(all[i as int].value));
            }
            let entry = entries.remove(i);
            proof {
                assert(entries@ =~= all.remove(i as int));
                assert forall|k: Seq<char>| k != key@ implies obj_lookup(entries@, k)
                    == obj_lookup(all, k) by {
                    lemma_obj_lookup_remove(all, i as int, k);
                }
            }
            return Some(entry.value);
        }
        proof {
            assert(all.skip(i as int)[0] == all[i as int]);
            assert(all.skip(i as int).drop_first() =~= all.skip(i + 1));
        }
        i += 1;
    }
    proof {
        assert(all.skip(i as int).len() == 0);
    }
    None
}

/// The lookup of `k` lands on entry `i` when `i` is the first entry
/// keyed `k`.
pub proof fn lemma_lookup_at(entries: Seq<JsonEntry>, i: int, k: Seq<char>)
    requires
        0 <= i < entries.len(),
        entries[i].key@ == k,
        forall|j: int| 0 <= j < i ==> entries[j].key@ != k,
    ensures
        obj_lookup(entries, k) == Some(entries[i].value),
    decreases i,
{
    if i > 0 {
        lemma_lookup_at(entries.drop_first(), i - 1, k);
    }
}

/// A lookup misses when no entry is keyed `k`.
pub proof fn lemma_lookup_none(entries: Seq<JsonEntry>, k: Seq<char>)
    requires
        forall|j: int| 0 <= j < entries.len() ==> entries[j].key@ != k,
    ensures
        obj_lookup(entries, k) is None,
    decreases entries.len(),
{
    if entries.len() > 0 {
        lemma_lookup_none(entries.drop_first(), k);
    }
}

/// Removing an entry that is not the first match for `k` leaves the
/// lookup of `k` unchanged.
proof fn lemma_obj_lookup_remove(entries: Seq<JsonEntry>, idx: int, k: Seq<char>)
    requires
        0 <= idx < entries.len(),
        forall|j: int| 0 <= j < idx ==> entries[j].key@ != entries[idx].key@,
        k != entries[idx].key@,
    ensures
        obj_lookup(entries.remove(idx), k) == obj_lookup(entries, k),
    decreases idx,
{
    if idx == 0 {
        assert(entries.remove(0) =~= entries.drop_first());
    } else {
        assert(entries.remove(idx)[0] == entries[0]);
        if entries[0].key@ == k {
        } else {
            lemma_obj_lookup_remove(entries.drop_first(), idx - 1, k);
            assert(entries.remove(idx).drop_first() =~= entries.drop_first().remove(idx - 1));
        }
    }
}

/// The string items of `items` as owned strings, non-strings skipped.
pub fn string_items(items: &Vec<Json>) -> (r: Vec<String>)
    ensures
        r.deep_view() == str_items(items@),
{
    let mut out: Vec<String> = Vec::new();
    let mut i: usize = 0;
    proof {
        assert(out.deep_view() =~= str_items(items@.take(0)));
    }
    while i < items.len()
        invariant
            i <= items@.len(),
            out.deep_view() == str_items(items@.take(i as int)),
        decreases items@.len() - i,
    {
        let ghost prev = out.deep_view();
        match &items[i] {
            Json::Str(s) => {
                out.push(s.clone());
                proof {
                    assert(out.deep_view() =~= prev + seq![items@[i as int]->Str_0@]);
                }
            },
            _ => {},
        }
        proof {
            lemma_str_items_push(items@.take(i as int), items@[i as int]);
            assert(items@.take(i + 1) =~= items@.take(i as int).push(items@[i as int]));
            assert(out.deep_view() =~= str_items(items@.take(i + 1)));
        }
        i += 1;
    }
    proof {
        assert(items@.take(items@.len() as int) =~= items@);
    }
    out
}

pub proof fn lemma_str_items_push(a: Seq<Json>, x: Json)
    ensures
        str_items(a.push(x)) == str_items(a) + str_item_part(x),
    decreases a.len(),
{
    if a.len() == 0 {
        assert(a =~= Seq::<Json>::empty());
        assert(a.push(x)[0] == x);
        assert(a.push(x).drop_first() =~= Seq::<Json>::empty());
        assert(str_items(Seq::<Json>::empty()) == Seq::<Seq<char>>::empty());
        assert(str_items(a.push(x)) =~= str_items(a) + str_item_part(x));
    } else {
        lemma_str_items_push(a.drop_first(), x);
        assert(a.push(x).drop_first() =~= a.drop_first().push(x));
        assert(a.push(x)[0] == a[0]);
        assert(str_items(a.push(x)) =~= str_items(a) + str_item_part(x));
    }
}

} // verus!
