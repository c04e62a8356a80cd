//! A JSON document as a tree of plain values, with its mathematical view.
use vstd::prelude::*;
use vstd::string::*;

verus! {

/// A JSON number: a non-negative integer, a negative integer, or any other
/// number held as its decimal text.
#[derive(Debug)]
pub enum JsonNumber {
    PosInt(u64),
    NegInt(i64),
    /// A number as the text that `serde_json` displays for it. A number that
    /// was read from a document has such a text. Nothing checks a text that is
    /// put here by hand: one that `serde_json` does not read as a number is
    /// written as `null`.
    Float(String),
}

/// A JSON value. The fields of an object are held in a list; where a key occurs
/// twice the later entry is the one that counts.
#[derive(Debug)]
pub enum JsonValue {
    Null,
    Bool(bool),
    Number(JsonNumber),
    Str(String),
    Array(Vec<JsonValue>),
    Object(Vec<(String, JsonValue)>),
}

/// What a `JsonNumber` stands for.
pub enum Num {
    PosInt(u64),
    NegInt(i64),
    Float(Seq<char>),
}

/// What a `JsonValue` stands for. An object keeps its entries in order; `fields`
/// gives the map from keys to values that the entries stand for.
pub enum Json {
    Null,
    Bool(bool),
    Number(Num),
    Str(Seq<char>),
    Array(Seq<Json>),
    Object(Seq<(Seq<char>, Json)>),
}

impl View for JsonNumber {
    type V = Num;

    open spec fn view(&self) -> Num {
        match self {
            JsonNumber::PosInt(u) => Num::PosInt(*u),
            JsonNumber::NegInt(i) => Num::NegInt(*i),
            JsonNumber::Float(t) => Num::Float(t@),
        }
    }
}

/// The entries that a list of object entries stands for, in order.
pub open spec fn entries_view(entries: Seq<(String, JsonValue)>) -> Seq<(Seq<char>, Json)>
    decreases entries, 0nat,
{
    Seq::new(
        entries.len(),
        |i: int|
            if 0 <= i < entries.len() {
                (entries[i].0@, value_view(entries[i].1))
            } else {
                (Seq::empty(), Json::Null)
            },
    )
}

/// The sequence that a list of array items stands for.
pub open spec fn items_view(items: Seq<JsonValue>) -> Seq<Json>
    decreases items, 0nat,
{
    Seq::new(
        items.len(),
        |i: int|
            if 0 <= i < items.len() {
                value_view(items[i])
            } else {
                Json::Null
            },
    )
}

/// The value that a `JsonValue` stands for.
pub open spec fn value_view(value: JsonValue) -> Json
    decreases value, 1nat,
{
    match value {
        JsonValue::Null => Json::Null,
        JsonValue::Bool(b) => Json::Bool(b),
        JsonValue::Number(n) => Json::Number(n@),
        JsonValue::Str(s) => Json::Str(s@),
        JsonValue::Array(items) => Json::Array(items_view(items@)),
        JsonValue::Object(entries) => Json::Object(entries_view(entries@)),
    }
}

impl View for JsonValue {
    type V = Json;

    open spec fn view(&self) -> Json {
        value_view(*self)
    }
}

/// The views of the items of a list, in order.
pub open spec fn seq_view<T: View>(items: Seq<T>) -> Seq<T::V> {
    Seq::new(items.len(), |i: int| items[i]@)
}

/// The map from keys to values that a sequence of entries stands for: where a
/// key occurs twice, the later entry counts.
pub open spec fn fields_of(entries: Seq<(Seq<char>, Json)>) -> Map<Seq<char>, Json>
    decreases entries.len(),
{
    if entries.len() == 0 {
        Map::empty()
    } else {
        fields_of(entries.drop_last()).insert(entries.last().0, entries.last().1)
    }
}

impl Json {
    /// The fields of an object; no field for any other value.
    pub open spec fn fields(self) -> Map<Seq<char>, Json> {
        match self {
            Json::Object(entries) => fields_of(entries),
            _ => Map::empty(),
        }
    }

    /// Whether an object has a field `key`.
    pub open spec fn has(self, key: Seq<char>) -> bool {
        self.fields().contains_key(key)
    }

    /// The value of the field `key` of an object.
    pub open spec fn at(self, key: Seq<char>) -> Json
        recommends
            self.has(key),
    {
        self.fields()[key]
    }
}

/// Entries of which none has the key `key` stand for a map without `key`.
pub proof fn lemma_fields_absent(entries: Seq<(Seq<char>, Json)>, key: Seq<char>)
    requires
        forall|j: int| 0 <= j < entries.len() ==> (#[trigger] entries[j]).0 != key,
    ensures
        !fields_of(entries).contains_key(key),
    decreases entries.len(),
{
    if entries.len() > 0 {
        let front = entries.drop_last();
        assert forall|j: int| 0 <= j < front.len() implies (#[trigger] front[j]).0 != key by {
            assert(front[j] == entries[j]);
        }
        lemma_fields_absent(front, key);
        assert(entries[entries.len() - 1].0 != key);
    }
}

/// The last entry with a given key is the one that the map holds under it.
pub proof fn lemma_fields_last(entries: Seq<(Seq<char>, Json)>, key: Seq<char>, i: int)
    requires
        0 <= i < entries.len(),
        entries[i].0 == key,
        forall|j: int| i < j < entries.len() ==> (#[trigger] entries[j]).0 != key,
    ensures
        fields_of(entries).contains_key(key),
        fields_of(entries)[key] == entries[i].1,
    decreases entries.len(),
{
    if i < entries.len() - 1 {
        let front = entries.drop_last();
        assert(front[i] == entries[i]);
        assert forall|j: int| i < j < front.len() implies (#[trigger] front[j]).0 != key by {
            assert(front[j] == entries[j]);
        }
        lemma_fields_last(front, key, i);
        assert(entries[entries.len() - 1].0 != key);
    }
}

/// The fields of two sequences of entries, one written after the other, are
/// those of the first overlaid with those of the second.
pub proof fn lemma_fields_concat(a: Seq<(Seq<char>, Json)>, b: Seq<(Seq<char>, Json)>)
    ensures
        fields_of(a + b) == fields_of(a).union_prefer_right(fields_of(b)),
    decreases b.len(),
{
    if b.len() == 0 {
        assert(a + b == a);
        assert(fields_of(a + b) =~= fields_of(a).union_prefer_right(fields_of(b)));
    } else {
        assert((a + b).drop_last() == a + b.drop_last());
        assert((a + b).last() == b.last());
        lemma_fields_concat(a, b.drop_last());
        assert(fields_of(a + b) =~= fields_of(a).union_prefer_right(fields_of(b)));
    }
}

/// What two sequences of entries, one written after the other, hold under a
/// key: what the second holds, else what the first holds.
pub proof fn lemma_fields_concat_at(
    a: Seq<(Seq<char>, Json)>,
    b: Seq<(Seq<char>, Json)>,
    key: Seq<char>,
)
    ensures
        fields_of(a + b).contains_key(key) <==> (fields_of(a).contains_key(key) || fields_of(
            b,
        ).contains_key(key)),
        fields_of(b).contains_key(key) ==> fields_of(a + b)[key] == fields_of(b)[key],
        !fields_of(b).contains_key(key) && fields_of(a).contains_key(key) ==> fields_of(a + b)[key]
            == fields_of(a)[key],
{
    lemma_fields_concat(a, b);
}

/// The fields of one entry, or of none.
pub proof fn lemma_fields_opt_entry(key: Seq<char>, value: Option<Json>)
    ensures
        fields_of(opt_entry(key, value)) == match value {
            Some(v) => Map::<Seq<char>, Json>::empty().insert(key, v),
            None => Map::<Seq<char>, Json>::empty(),
        },
{
    match value {
        Some(v) => {
            let entries = opt_entry(key, value);
            assert(entries.drop_last() == Seq::<(Seq<char>, Json)>::empty());
            assert(fields_of(entries.drop_last()) == Map::<Seq<char>, Json>::empty());
        },
        None => {},
    }
}

/// Whether no entry after the one at `i` has its name.
pub open spec fn is_last_of_name(entries: Seq<(Seq<char>, Json)>, i: int) -> bool {
    forall|j: int| i < j < entries.len() ==> (#[trigger] entries[j]).0 != entries[i].0
}

/// Whether no two entries have the same name.
pub open spec fn distinct_names(entries: Seq<(Seq<char>, Json)>) -> bool {
    forall|i: int, j: int|
        0 <= i < j < entries.len() ==> (#[trigger] entries[i]).0 != (#[trigger] entries[j]).0
}

/// Whether the entry at `i` is an extra one: `defined` does not hold of its
/// name, and it is the last entry of that name.
pub open spec fn is_extra(
    entries: Seq<(Seq<char>, Json)>,
    defined: spec_fn(Seq<char>) -> bool,
    i: int,
) -> bool {
    !defined(entries[i].0) && is_last_of_name(entries, i)
}

/// The extra entries among the first `n` entries, in order.
pub open spec fn extras_upto(
    entries: Seq<(Seq<char>, Json)>,
    defined: spec_fn(Seq<char>) -> bool,
    n: nat,
) -> Seq<(Seq<char>, Json)>
    decreases n,
{
    if n == 0 {
        Seq::empty()
    } else {
        let front = extras_upto(entries, defined, (n - 1) as nat);
        if is_extra(entries, defined, n - 1) {
            front.push(entries[n - 1])
        } else {
            front
        }
    }
}

/// The extra entries of an object, in order: those of whose names `defined`
/// does not hold, and of each such name the last entry only. They stand for
/// the fields of the object under those names, each name once.
pub open spec fn extras_of(
    entries: Seq<(Seq<char>, Json)>,
    defined: spec_fn(Seq<char>) -> bool,
) -> Seq<(Seq<char>, Json)> {
    extras_upto(entries, defined, entries.len())
}

/// The places of the extra entries among the first `n` entries, in order.
spec fn extra_places(
    entries: Seq<(Seq<char>, Json)>,
    defined: spec_fn(Seq<char>) -> bool,
    n: nat,
) -> Seq<int>
    decreases n,
{
    if n == 0 {
        Seq::empty()
    } else {
        let front = extra_places(entries, defined, (n - 1) as nat);
        if is_extra(entries, defined, n - 1) {
            front.push(n - 1)
        } else {
            front
        }
    }
}

/// The extra entries are the entries at the places of the extra entries; the
/// places rise, and no place of an extra entry is left out.
proof fn lemma_extra_places(
    entries: Seq<(Seq<char>, Json)>,
    defined: spec_fn(Seq<char>) -> bool,
    n: nat,
)
    requires
        n <= entries.len(),
    ensures
        extras_upto(entries, defined, n).len() == extra_places(entries, defined, n).len(),
        forall|p: int|
            0 <= p < extra_places(entries, defined, n).len() ==> {
                let i = #[trigger] extra_places(entries, defined, n)[p];
                0 <= i < n && is_extra(entries, defined, i) && extras_upto(entries, defined, n)[p]
                    == entries[i]
            },
        forall|p: int, q: int|
            0 <= p < q < extra_places(entries, defined, n).len() ==> (#[trigger] extra_places(
                entries,
                defined,
                n,
            )[p]) < (#[trigger] extra_places(entries, defined, n)[q]),
        forall|i: int|
            0 <= i < n && #[trigger] is_extra(entries, defined, i) ==> extra_places(
                entries,
                defined,
                n,
            ).contains(i),
    decreases n,
{
    if n > 0 {
        let before = extra_places(entries, defined, (n - 1) as nat);
        let places = extra_places(entries, defined, n);
        lemma_extra_places(entries, defined, (n - 1) as nat);
        assert forall|i: int| 0 <= i < n && #[trigger] is_extra(entries, defined, i) implies places.contains(
            i,
        ) by {
            if i < n - 1 {
                let p = choose|p: int| 0 <= p < before.len() && before[p] == i;
                assert(places[p] == i);
            } else {
                assert(places[places.len() - 1] == i);
            }
        }
    }
}

/// The extra entries of an object have names of which `defined` does not hold,
/// and no two of them have the same name.
pub proof fn lemma_extras_well_formed(
    entries: Seq<(Seq<char>, Json)>,
    defined: spec_fn(Seq<char>) -> bool,
)
    ensures
        distinct_names(extras_of(entries, defined)),
        forall|p: int|
            0 <= p < extras_of(entries, defined).len() ==> !defined(
                (#[trigger] extras_of(entries, defined)[p]).0,
            ),
{
    let extras = extras_of(entries, defined);
    let places = extra_places(entries, defined, entries.len());
    lemma_extra_places(entries, defined, entries.len());
    assert forall|p: int, q: int| 0 <= p < q < extras.len() implies (#[trigger] extras[p]).0 != (
    #[trigger] extras[q]).0 by {
        assert(places[p] < places[q]);
        assert(is_extra(entries, defined, places[p]));
        assert(entries[places[q]].0 != entries[places[p]].0);
    }
    assert forall|p: int| 0 <= p < extras.len() implies !defined((#[trigger] extras[p]).0) by {
        assert(is_extra(entries, defined, places[p]));
    }
}

/// Entries of which one has the name `key` have a field `key`.
pub proof fn lemma_fields_present(entries: Seq<(Seq<char>, Json)>, key: Seq<char>, i: int)
    requires
        0 <= i < entries.len(),
        entries[i].0 == key,
    ensures
        fields_of(entries).contains_key(key),
    decreases entries.len(),
{
    if i < entries.len() - 1 {
        let front = entries.drop_last();
        assert(front[i] == entries[i]);
        lemma_fields_present(front, key, i);
    }
}

/// The place of the last entry of the name `key`, in entries that have the
/// field: what the entry holds is the field.
pub proof fn lemma_fields_last_place(entries: Seq<(Seq<char>, Json)>, key: Seq<char>) -> (i: int)
    requires
        fields_of(entries).contains_key(key),
    ensures
        0 <= i < entries.len(),
        entries[i].0 == key,
        is_last_of_name(entries, i),
        fields_of(entries)[key] == entries[i].1,
    decreases entries.len(),
{
    if entries.last().0 == key {
        entries.len() - 1
    } else {
        let front = entries.drop_last();
        let i = lemma_fields_last_place(front, key);
        assert(front[i] == entries[i]);
        assert forall|j: int| i < j < entries.len() implies (#[trigger] entries[j]).0
            != entries[i].0 by {
            if j < front.len() {
                assert(front[j] == entries[j]);
            }
        }
        i
    }
}

/// What the extra entries of an object hold under a name of which `defined`
/// does not hold is what the object holds under it.
pub proof fn lemma_extras_fields(
    entries: Seq<(Seq<char>, Json)>,
    defined: spec_fn(Seq<char>) -> bool,
    key: Seq<char>,
)
    requires
        !defined(key),
    ensures
        fields_of(extras_of(entries, defined)).contains_key(key) <==> fields_of(
            entries,
        ).contains_key(key),
        fields_of(entries).contains_key(key) ==> fields_of(extras_of(entries, defined))[key]
            == fields_of(entries)[key],
{
    let extras = extras_of(entries, defined);
    let places = extra_places(entries, defined, entries.len());
    lemma_extra_places(entries, defined, entries.len());
    lemma_extras_well_formed(entries, defined);
    if fields_of(entries).contains_key(key) {
        let i = lemma_fields_last_place(entries, key);
        assert(is_extra(entries, defined, i));
        let p = choose|p: int| 0 <= p < places.len() && places[p] == i;
        assert(extras[p] == entries[i]);
        assert forall|q: int| p < q < extras.len() implies (#[trigger] extras[q]).0 != key by {
            assert(extras[p].0 != extras[q].0);
        }
        lemma_fields_last(extras, key, p);
    } else {
        assert forall|p: int| 0 <= p < extras.len() implies (#[trigger] extras[p]).0 != key by {
            if extras[p].0 == key {
                lemma_fields_present(entries, key, places[p]);
            }
        }
        lemma_fields_absent(extras, key);
    }
}

/// The extra entries among the first `n` of two sequences of entries, one
/// written after the other, where `defined` holds of the names of the first
/// and of none of the second, and no two of the second share a name: none
/// among those of the first, and then those of the second.
proof fn lemma_extras_upto_concat(
    a: Seq<(Seq<char>, Json)>,
    b: Seq<(Seq<char>, Json)>,
    defined: spec_fn(Seq<char>) -> bool,
    n: nat,
)
    requires
        forall|i: int| 0 <= i < a.len() ==> defined((#[trigger] a[i]).0),
        forall|i: int| 0 <= i < b.len() ==> !defined((#[trigger] b[i]).0),
        distinct_names(b),
        n <= a.len() + b.len(),
    ensures
        n <= a.len() ==> extras_upto(a + b, defined, n) == Seq::<(Seq<char>, Json)>::empty(),
        n >= a.len() ==> extras_upto(a + b, defined, n) == b.take(n - a.len()),
    decreases n,
{
    let all = a + b;
    if n > 0 {
        lemma_extras_upto_concat(a, b, defined, (n - 1) as nat);
        if n <= a.len() {
            assert(all[n - 1] == a[n - 1]);
        } else {
            let m = n - 1 - a.len();
            assert(all[n - 1] == b[m]);
            assert forall|j: int| n - 1 < j < all.len() implies (#[trigger] all[j]).0 != all[n
                - 1].0 by {
                assert(all[j] == b[j - a.len()]);
                assert(b[m].0 != b[j - a.len()].0);
            }
            assert(is_extra(all, defined, n - 1));
            assert(b.take(m).push(b[m]) == b.take(m + 1));
        }
    } else {
        assert(b.take(0) == Seq::<(Seq<char>, Json)>::empty());
    }
    if n == a.len() {
        assert(b.take(0) == Seq::<(Seq<char>, Json)>::empty());
    }
}

/// The extra entries of two sequences of entries, one written after the other,
/// where `defined` holds of the names of the first and of none of the second,
/// and no two of the second share a name: those of the second.
pub proof fn lemma_extras_concat(
    a: Seq<(Seq<char>, Json)>,
    b: Seq<(Seq<char>, Json)>,
    defined: spec_fn(Seq<char>) -> bool,
)
    requires
        forall|i: int| 0 <= i < a.len() ==> defined((#[trigger] a[i]).0),
        forall|i: int| 0 <= i < b.len() ==> !defined((#[trigger] b[i]).0),
        distinct_names(b),
    ensures
        extras_of(a + b, defined) == b,
{
    lemma_extras_upto_concat(a, b, defined, (a + b).len());
    assert(b.take(b.len() as int) == b);
}

/// The index of the last entry of `entries` whose key is `key`, if any has it.
pub fn find_field(entries: &Vec<(String, JsonValue)>, key: &str) -> (r: Option<usize>)
    ensures
        r is Some <==> fields_of(entries_view(entries@)).contains_key(key@),
        r matches Some(i) ==> i < entries.len() && entries[i as int].0@ == key@ && entries[i as int].1@
            == fields_of(entries_view(entries@))[key@],
{
    let mut i: usize = entries.len();
    while i > 0
        invariant
            i <= entries.len(),
            forall|j: int| i <= j < entries.len() ==> (#[trigger] entries_view(entries@)[j]).0 != key@,
        decreases i,
    {
        i = i - 1;
        if crate::text::text_eq(entries[i].0.as_str(), key) {
            proof {
                lemma_fields_last(entries_view(entries@), key@, i as int);
            }
            return Some(i);
        }
    }
    proof {
        lemma_fields_absent(entries_view(entries@), key@);
    }
    None
}

/// Whether no entry after the one at `i` has its name.
pub fn is_last_of_name_at(entries: &Vec<(String, JsonValue)>, i: usize) -> (r: bool)
    requires
        i < entries.len(),
    ensures
        r == is_last_of_name(entries_view(entries@), i as int),
{
    let mut j: usize = i + 1;
    while j < entries.len()
        invariant
            i < j <= entries.len(),
            forall|k: int|
                i < k < j ==> (#[trigger] entries_view(entries@)[k]).0 != entries_view(
                    entries@,
                )[i as int].0,
        decreases entries.len() - j,
    {
        if crate::text::text_eq(entries[j].0.as_str(), entries[i].0.as_str()) {
            assert(entries_view(entries@)[j as int].0 == entries_view(entries@)[i as int].0);
            return false;
        }
        j = j + 1;
    }
    true
}

impl JsonValue {
    /// The value under `key`, where `self` is an object that has the key.
    pub fn get(&self, key: &str) -> (r: Option<&JsonValue>)
        ensures
            r is Some <==> self@.has(key@),
            r matches Some(v) ==> v@ == self@.at(key@),
    {
        match self {
            JsonValue::Object(entries) => {
                match find_field(entries, key) {
                    Some(i) => Some(&entries[i].1),
                    None => None,
                }
            },
            _ => None,
        }
    }
}

impl Json {
    /// The text of a JSON string.
    pub open spec fn as_text(self) -> Option<Seq<char>> {
        match self {
            Json::Str(text) => Some(text),
            _ => None,
        }
    }

    /// The value of a JSON boolean.
    pub open spec fn as_bool(self) -> Option<bool> {
        match self {
            Json::Bool(b) => Some(b),
            _ => None,
        }
    }

    /// The number of a JSON number.
    pub open spec fn as_number(self) -> Option<Num> {
        match self {
            Json::Number(n) => Some(n),
            _ => None,
        }
    }

    /// The integer that a JSON number holds, where it holds one.
    pub open spec fn as_int(self) -> Option<int> {
        match self {
            Json::Number(Num::PosInt(u)) => Some(u as int),
            Json::Number(Num::NegInt(i)) => Some(i as int),
            _ => None,
        }
    }

    /// The value of a JSON integer that fits `u32`.
    pub open spec fn as_u32(self) -> Option<u32> {
        match self.as_int() {
            Some(i) => if 0 <= i <= u32::MAX {
                Some(i as u32)
            } else {
                None
            },
            None => None,
        }
    }

    /// The value of a JSON integer that fits `i32`.
    pub open spec fn as_i32(self) -> Option<i32> {
        match self.as_int() {
            Some(i) => if i32::MIN <= i <= i32::MAX {
                Some(i as i32)
            } else {
                None
            },
            None => None,
        }
    }

    /// The value of a JSON integer that fits `i64`.
    pub open spec fn as_i64(self) -> Option<i64> {
        match self.as_int() {
            Some(i) => if i64::MIN <= i <= i64::MAX {
                Some(i as i64)
            } else {
                None
            },
            None => None,
        }
    }

    /// The texts of a JSON array that holds strings only.
    pub open spec fn as_texts(self) -> Option<Seq<Seq<char>>> {
        match self {
            Json::Array(items) => if forall|i: int|
                0 <= i < items.len() ==> (#[trigger] items[i]).as_text() is Some {
                Some(Seq::new(items.len(), |i: int| items[i].as_text()->0))
            } else {
                None
            },
            _ => None,
        }
    }

    /// The items of a JSON array, each read by `decode`, where it reads them all.
    pub open spec fn as_list<T>(self, decode: spec_fn(Json) -> Option<T>) -> Option<Seq<T>> {
        match self {
            Json::Array(items) => if forall|i: int|
                0 <= i < items.len() ==> (#[trigger] decode(items[i])) is Some {
                Some(Seq::new(items.len(), |i: int| decode(items[i])->0))
            } else {
                None
            },
            _ => None,
        }
    }

    /// The JSON array of `items`, each written by `encode`.
    pub open spec fn list<T>(items: Seq<T>, encode: spec_fn(T) -> Json) -> Json {
        Json::Array(Seq::new(items.len(), |i: int| encode(items[i])))
    }

    /// A JSON string.
    pub open spec fn text(text: Seq<char>) -> Json {
        Json::Str(text)
    }

    /// A JSON array of strings.
    pub open spec fn texts(texts: Seq<Seq<char>>) -> Json {
        Json::Array(Seq::new(texts.len(), |i: int| Json::Str(texts[i])))
    }

    /// The JSON number of an integer of `i64`.
    pub open spec fn integer(i: i64) -> Json {
        if i >= 0 {
            Json::Number(Num::PosInt(i as u64))
        } else {
            Json::Number(Num::NegInt(i))
        }
    }

    /// Whether an object lacks the field `key` or holds `null` under it.
    pub open spec fn lacks(self, key: Seq<char>) -> bool {
        !self.has(key) || self.at(key) is Null
    }

    /// The text of the field `key`, where the object has it and it is a string.
    pub open spec fn text_at(self, key: Seq<char>) -> Option<Seq<char>> {
        if self.has(key) {
            self.at(key).as_text()
        } else {
            None
        }
    }

    /// A field that may be absent or `null`, read by `decode`: `Some(None)`
    /// where it is absent or `null`, `Some(Some(..))` where `decode` reads it,
    /// `None` where `decode` refuses it.
    pub open spec fn optional<T>(self, key: Seq<char>, decode: spec_fn(Json) -> Option<T>) -> Option<
        Option<T>,
    > {
        if self.lacks(key) {
            Some(None)
        } else {
            match decode(self.at(key)) {
                Some(v) => Some(Some(v)),
                None => None,
            }
        }
    }

    /// The field `key` as an optional string.
    pub open spec fn optional_text(self, key: Seq<char>) -> Option<Option<Seq<char>>> {
        self.optional(key, |j: Json| j.as_text())
    }

    /// The field `key` as an optional boolean.
    pub open spec fn optional_bool(self, key: Seq<char>) -> Option<Option<bool>> {
        self.optional(key, |j: Json| j.as_bool())
    }

    /// The field `key` as an optional number.
    pub open spec fn optional_number(self, key: Seq<char>) -> Option<Option<Num>> {
        self.optional(key, |j: Json| j.as_number())
    }

    /// The field `key` as an optional integer of `u32`.
    pub open spec fn optional_u32(self, key: Seq<char>) -> Option<Option<u32>> {
        self.optional(key, |j: Json| j.as_u32())
    }

    /// The field `key` as an optional integer of `i32`.
    pub open spec fn optional_i32(self, key: Seq<char>) -> Option<Option<i32>> {
        self.optional(key, |j: Json| j.as_i32())
    }

    /// The field `key` as an optional integer of `i64`.
    pub open spec fn optional_i64(self, key: Seq<char>) -> Option<Option<i64>> {
        self.optional(key, |j: Json| j.as_i64())
    }

    /// The field `key` as an optional array of strings.
    pub open spec fn optional_texts(self, key: Seq<char>) -> Option<Option<Seq<Seq<char>>>> {
        self.optional(key, |j: Json| j.as_texts())
    }
}

/// No entry, or the one entry of `key` with `value`.
pub open spec fn opt_entry(key: Seq<char>, value: Option<Json>) -> Seq<(Seq<char>, Json)> {
    match value {
        Some(value) => seq![(key, value)],
        None => Seq::empty(),
    }
}

/// The view of a number that may be absent.
pub open spec fn opt_number_view(number: Option<JsonNumber>) -> Option<Num> {
    match number {
        Some(number) => Some(number@),
        None => None,
    }
}

/// The view of a list of strings that may be absent.
pub open spec fn opt_texts_view(texts: Option<Vec<String>>) -> Option<Seq<Seq<char>>> {
    match texts {
        Some(texts) => Some(crate::text::views_of(texts@)),
        None => None,
    }
}

/// The view of a JSON value that may be absent.
pub open spec fn opt_json_view(value: Option<JsonValue>) -> Option<Json> {
    match value {
        Some(value) => Some(value@),
        None => None,
    }
}

/// Adds the entry of `key` with `value` at the end of `entries`, where there is
/// a value.
pub fn push_entry(entries: &mut Vec<(String, JsonValue)>, key: &str, value: Option<JsonValue>)
    ensures
        entries_view(final(entries)@) == entries_view(old(entries)@) + opt_entry(
            key@,
            opt_json_view(value),
        ),
{
    match value {
        Some(value) => {
            entries.push((String::from_str(key), value));
        },
        None => {},
    }
}

impl JsonValue {
    /// The value under `key`, unless the object lacks the key or holds `null`
    /// under it.
    pub fn get_present(&self, key: &str) -> (r: Option<&JsonValue>)
        ensures
            r is Some <==> !self@.lacks(key@),
            r matches Some(v) ==> v@ == self@.at(key@),
    {
        match self.get(key) {
            Some(JsonValue::Null) => None,
            Some(value) => Some(value),
            None => None,
        }
    }

    /// The field `key` as an optional string; `None` where it is something else.
    pub fn optional_text(&self, key: &str) -> (r: Option<Option<String>>)
        ensures
            match r {
                Some(text) => self@.optional_text(key@) == Some(crate::text::opt_view(text)),
                None => self@.optional_text(key@) is None,
            },
    {
        match self.get_present(key) {
            None => Some(None),
            Some(value) => match value.as_text() {
                Some(text) => Some(Some(text)),
                None => None,
            },
        }
    }

    /// The field `key` as an optional boolean; `None` where it is something
    /// else.
    pub fn optional_bool(&self, key: &str) -> (r: Option<Option<bool>>)
        ensures
            r == self@.optional_bool(key@),
    {
        match self.get_present(key) {
            None => Some(None),
            Some(value) => match value.as_bool() {
                Some(b) => Some(Some(b)),
                None => None,
            },
        }
    }

    /// The field `key` as an optional number; `None` where it is something else.
    pub fn optional_number(&self, key: &str) -> (r: Option<Option<JsonNumber>>)
        ensures
            match r {
                Some(number) => self@.optional_number(key@) == Some(opt_number_view(number)),
                None => self@.optional_number(key@) is None,
            },
    {
        match self.get_present(key) {
            None => Some(None),
            Some(value) => match value.as_number() {
                Some(number) => Some(Some(number)),
                None => None,
            },
        }
    }

    /// The field `key` as an optional integer of `u32`; `None` where it is
    /// something else.
    pub fn optional_u32(&self, key: &str) -> (r: Option<Option<u32>>)
        ensures
            r == self@.optional_u32(key@),
    {
        match self.get_present(key) {
            None => Some(None),
            Some(value) => match value.as_u32() {
                Some(i) => Some(Some(i)),
                None => None,
            },
        }
    }

    /// The field `key` as an optional integer of `i32`; `None` where it is
    /// something else.
    pub fn optional_i32(&self, key: &str) -> (r: Option<Option<i32>>)
        ensures
            r == self@.optional_i32(key@),
    {
        match self.get_present(key) {
            None => Some(None),
            Some(value) => match value.as_i32() {
                Some(i) => Some(Some(i)),
                None => None,
            },
        }
    }

    /// The field `key` as an optional integer of `i64`; `None` where it is
    /// something else.
    pub fn optional_i64(&self, key: &str) -> (r: Option<Option<i64>>)
        ensures
            r == self@.optional_i64(key@),
    {
        match self.get_present(key) {
            None => Some(None),
            Some(value) => match value.as_i64() {
                Some(i) => Some(Some(i)),
                None => None,
            },
        }
    }

    /// The field `key` as an optional array of strings; `None` where it is
    /// something else.
    pub fn optional_texts(&self, key: &str) -> (r: Option<Option<Vec<String>>>)
        ensures
            match r {
                Some(texts) => self@.optional_texts(key@) == Some(opt_texts_view(texts)),
                None => self@.optional_texts(key@) is None,
            },
    {
        match self.get_present(key) {
            None => Some(None),
            Some(value) => match value.as_texts() {
                Some(texts) => Some(Some(texts)),
                None => None,
            },
        }
    }

    /// The text of the field `key`, where the object has it and it is a string.
    pub fn text_at(&self, key: &str) -> (r: Option<String>)
        ensures
            crate::text::opt_view(r) == self@.text_at(key@),
    {
        match self.get(key) {
            Some(value) => value.as_text(),
            None => None,
        }
    }

    /// The text of a JSON string.
    pub fn as_text(&self) -> (r: Option<String>)
        ensures
            crate::text::opt_view(r) == self@.as_text(),
    {
        match self {
            JsonValue::Str(text) => Some(text.clone()),
            _ => None,
        }
    }

    /// The value of a JSON boolean.
    pub fn as_bool(&self) -> (r: Option<bool>)
        ensures
            r == self@.as_bool(),
    {
        match self {
            JsonValue::Bool(b) => Some(*b),
            _ => None,
        }
    }

    /// The number of a JSON number.
    pub fn as_number(&self) -> (r: Option<JsonNumber>)
        ensures
            match r {
                Some(n) => self@.as_number() == Some(n@),
                None => self@.as_number() is None,
            },
    {
        match self {
            JsonValue::Number(n) => Some(n.clone()),
            _ => None,
        }
    }

    /// The value of a JSON integer that fits `u32`.
    pub fn as_u32(&self) -> (r: Option<u32>)
        ensures
            r == self@.as_u32(),
    {
        match self {
            JsonValue::Number(JsonNumber::PosInt(u)) => {
                if *u <= 0xffff_ffff {
                    Some(*u as u32)
                } else {
                    None
                }
            },
            JsonValue::Number(JsonNumber::NegInt(i)) => {
                if 0 <= *i && *i <= 0xffff_ffff {
                    Some(*i as u32)
                } else {
                    None
                }
            },
            _ => None,
        }
    }

    /// The value of a JSON integer that fits `i32`.
    pub fn as_i32(&self) -> (r: Option<i32>)
        ensures
            r == self@.as_i32(),
    {
        match self {
            JsonValue::Number(JsonNumber::PosInt(u)) => {
                if *u <= 0x7fff_ffff {
                    Some(*u as i32)
                } else {
                    None
                }
            },
            JsonValue::Number(JsonNumber::NegInt(i)) => {
                if -0x8000_0000 <= *i && *i <= 0x7fff_ffff {
                    Some(*i as i32)
                } else {
                    None
                }
            },
            _ => None,
        }
    }

    /// The value of a JSON integer that fits `i64`.
    pub fn as_i64(&self) -> (r: Option<i64>)
        ensures
            r == self@.as_i64(),
    {
        match self {
            JsonValue::Number(JsonNumber::PosInt(u)) => {
                if *u <= 0x7fff_ffff_ffff_ffff {
                    Some(*u as i64)
                } else {
                    None
                }
            },
            JsonValue::Number(JsonNumber::NegInt(i)) => Some(*i),
            _ => None,
        }
    }

    /// The texts of a JSON array that holds strings only.
    pub fn as_texts(&self) -> (r: Option<Vec<String>>)
        ensures
            match r {
                Some(texts) => self@.as_texts() == Some(crate::text::views_of(texts@)),
                None => self@.as_texts() is None,
            },
    {
        match self {
            JsonValue::Array(items) => {
                let mut out: Vec<String> = Vec::new();
                let mut i: usize = 0;
                while i < items.len()
                    invariant
                        self@ == Json::Array(items_view(items@)),
                        i <= items.len(),
                        out.len() == i,
                        forall|j: int|
                            0 <= j < i ==> (#[trigger] items_view(items@)[j]).as_text() == Some(
                                out[j]@,
                            ),
                    decreases items.len() - i,
                {
                    match &items[i] {
                        JsonValue::Str(text) => {
                            out.push(text.clone());
                        },
                        _ => {
                            assert(items_view(items@)[i as int].as_text() is None);
                            return None;
                        },
                    }
                    i = i + 1;
                }
                assert(self@.as_texts()->0 == crate::text::views_of(out@));
                Some(out)
            },
            _ => None,
        }
    }

    /// A JSON string.
    pub fn text(text: &str) -> (r: JsonValue)
        ensures
            r@ == Json::text(text@),
    {
        JsonValue::Str(String::from_str(text))
    }

    /// A JSON array of strings.
    pub fn texts(texts: &Vec<String>) -> (r: JsonValue)
        ensures
            r@ == Json::texts(crate::text::views_of(texts@)),
    {
        let mut out: Vec<JsonValue> = Vec::new();
        let mut i: usize = 0;
        while i < texts.len()
            invariant
                i <= texts.len(),
                out.len() == i,
                forall|j: int| 0 <= j < i ==> (#[trigger] out[j])@ == Json::Str(texts[j]@),
            decreases texts.len() - i,
        {
            out.push(JsonValue::Str(texts[i].clone()));
            i = i + 1;
        }
        assert(items_view(out@) == Seq::new(
            crate::text::views_of(texts@).len(),
            |i: int| Json::Str(crate::text::views_of(texts@)[i]),
        ));
        JsonValue::Array(out)
    }

    /// The JSON number of an integer of `i64`.
    pub fn integer(i: i64) -> (r: JsonValue)
        ensures
            r@ == Json::integer(i),
    {
        if i >= 0 {
            JsonValue::Number(JsonNumber::PosInt(i as u64))
        } else {
            JsonValue::Number(JsonNumber::NegInt(i))
        }
    }
}

impl Clone for JsonNumber {
    fn clone(&self) -> (r: JsonNumber)
        ensures
            r@ == self@,
    {
        match self {
            JsonNumber::PosInt(u) => JsonNumber::PosInt(*u),
            JsonNumber::NegInt(i) => JsonNumber::NegInt(*i),
            JsonNumber::Float(t) => JsonNumber::Float(t.clone()),
        }
    }
}

impl Clone for JsonValue {
    #[verifier::loop_isolation(false)]
    fn clone(&self) -> (r: JsonValue)
        ensures
            r@ == self@,
        decreases self,
    {
        match self {
            JsonValue::Null => JsonValue::Null,
            JsonValue::Bool(b) => JsonValue::Bool(*b),
            JsonValue::Number(n) => JsonValue::Number(n.clone()),
            JsonValue::Str(s) => JsonValue::Str(s.clone()),
            JsonValue::Array(items) => {
                let mut out: Vec<JsonValue> = Vec::new();
                let mut i: usize = 0;
                while i < items.len()
                    invariant
                        i <= items.len(),
                        out.len() == i,
                        forall|j: int| 0 <= j < i ==> (#[trigger] out[j])@ == items[j]@,
                    decreases items.len() - i,
                {
                    out.push(items[i].clone());
                    i = i + 1;
                }
                assert(items_view(out@) == items_view(items@));
                JsonValue::Array(out)
            },
            JsonValue::Object(entries) => {
                let mut out: Vec<(String, JsonValue)> = Vec::new();
                let mut i: usize = 0;
                while i < entries.len()
                    invariant
                        i <= entries.len(),
                        out.len() == i,
                        forall|j: int|
                            0 <= j < i ==> (#[trigger] out[j]).0@ == entries[j].0@ && out[j].1@
                                == entries[j].1@,
                    decreases entries.len() - i,
                {
                    out.push((entries[i].0.clone(), entries[i].1.clone()));
                    i = i + 1;
                }
                assert(entries_view(out@) == entries_view(entries@));
                JsonValue::Object(out)
            },
        }
    }
}

/// `serde_json`'s tree of a JSON document, carried between the parser and the
/// library's own tree.
#[verifier::external_type_specification]
#[verifier::external_body]
pub struct ExSerdeValue(serde_json::Value);

/// What `serde_json` reads from a text: the document's tree, or the message of
/// the error with which it refuses the text.
pub uninterp spec fn parsed_json(text: Seq<u8>) -> Result<Json, Seq<char>>;

/// The text that `serde_json` writes for a tree, in its compact form.
pub uninterp spec fn printed_json(value: Json) -> Seq<u8>;

/// `serde_json`'s number, carried between the parser and the library's own.
#[verifier::external_type_specification]
#[verifier::external_body]
pub struct ExSerdeNumber(serde_json::Number);

/// Turns `serde_json`'s number into the library's: the integer that `as_u64` or
/// `as_i64` gives, else the text that `serde_json` displays for the number.
///
/// Trusted: only moves what `serde_json::Number` holds.
#[verifier::external_body]
fn number_from_serde(number: &serde_json::Number) -> JsonNumber {
    match (number.as_u64(), number.as_i64()) {
        (Some(u), _) => JsonNumber::PosInt(u),
        (None, Some(i)) => JsonNumber::NegInt(i),
        (None, None) => JsonNumber::Float(number.to_string()),
    }
}

/// Turns `serde_json`'s tree into the library's, variant by variant.
///
/// Trusted: only moves what `serde_json::Value` holds.
#[verifier::external_body]
fn json_from_serde(value: serde_json::Value) -> JsonValue {
    match value {
        serde_json::Value::Null => JsonValue::Null,
        serde_json::Value::Bool(b) => JsonValue::Bool(b),
        serde_json::Value::Number(n) => JsonValue::Number(number_from_serde(&n)),
        serde_json::Value::String(s) => JsonValue::Str(s),
        serde_json::Value::Array(a) => JsonValue::Array(a.into_iter().map(json_from_serde).collect()),
        serde_json::Value::Object(m) => JsonValue::Object(
            m.into_iter().map(|(k, v)| (k, json_from_serde(v))).collect(),
        ),
    }
}

/// Turns the library's number into `serde_json`'s value of it. The text of a
/// `Float` is read back by `serde_json` as a number; a text that it refuses
/// becomes `null`.
///
/// Trusted: calls `serde_json::Value::from` on the integers and
/// `serde_json::from_str` for a `serde_json::Number` on the text.
#[verifier::external_body]
fn number_into_serde(number: &JsonNumber) -> serde_json::Value {
    match number {
        JsonNumber::PosInt(u) => serde_json::Value::from(*u),
        JsonNumber::NegInt(i) => serde_json::Value::from(*i),
        JsonNumber::Float(t) => serde_json::from_str::<serde_json::Number>(t)
            .map_or(serde_json::Value::Null, serde_json::Value::Number),
    }
}

/// Turns the library's tree into `serde_json`'s, variant by variant.
///
/// Trusted: only moves values into `serde_json::Value`.
#[verifier::external_body]
fn json_into_serde(value: &JsonValue) -> serde_json::Value {
    match value {
        JsonValue::Null => serde_json::Value::Null,
        JsonValue::Bool(b) => serde_json::Value::Bool(*b),
        JsonValue::Number(n) => number_into_serde(n),
        JsonValue::Str(s) => serde_json::Value::String(s.clone()),
        JsonValue::Array(a) => serde_json::Value::Array(a.iter().map(json_into_serde).collect()),
        JsonValue::Object(m) => serde_json::Value::Object(
            m.iter().map(|(k, v)| (k.clone(), json_into_serde(v))).collect(),
        ),
    }
}

/// Reads a JSON document.
///
/// Trusted: calls `serde_json::from_slice` for a `serde_json::Value`. The
/// contract names what it returns and claims nothing else of it.
#[verifier::external_body]
pub(crate) fn json_from_slice(text: &[u8]) -> (r: Result<JsonValue, String>)
    ensures
        match r {
            Ok(value) => parsed_json(text@) == Ok::<Json, Seq<char>>(value@),
            Err(message) => parsed_json(text@) == Err::<Json, Seq<char>>(message@),
        },
{
    match serde_json::from_slice::<serde_json::Value>(text) {
        Ok(value) => Ok(json_from_serde(value)),
        Err(error) => Err(error.to_string()),
    }
}

/// Writes a JSON document in compact form.
///
/// Trusted: calls `serde_json::to_vec` on the tree as a `serde_json::Value`,
/// whose objects are written with their keys in order and once each. For a
/// `serde_json::Value` the call has no way to fail; were it to fail, the
/// result would be empty. The contract names what it returns and claims
/// nothing else of it.
#[verifier::external_body]
pub(crate) fn json_to_vec(value: &JsonValue) -> (r: Vec<u8>)
    ensures
        r@ == printed_json(value@),
{
    serde_json::to_vec(&json_into_serde(value)).unwrap_or_default()
}

impl JsonValue {
    /// Reads a JSON document from its text.
    pub fn from_slice(text: &[u8]) -> (r: Result<JsonValue, String>)
        ensures
            match r {
                Ok(value) => parsed_json(text@) == Ok::<Json, Seq<char>>(value@),
                Err(message) => parsed_json(text@) == Err::<Json, Seq<char>>(message@),
            },
    {
        json_from_slice(text)
    }

    /// Writes the document in compact form. A `JsonNumber::Float` whose text is
    /// not one that `serde_json` reads as a number is written as `null`.
    pub fn to_vec(&self) -> (r: Vec<u8>)
        ensures
            r@ == printed_json(self@),
    {
        json_to_vec(self)
    }
}

} // verus!
