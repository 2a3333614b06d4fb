//! Variant values of the message bus and the dictionaries that hold them.
use vstd::prelude::*;
use zbus::zvariant::OwnedValue;

verus! {

/// An owned variant value of the bus, as the bus library keeps it.
#[verifier::external_type_specification]
#[verifier::external_body]
pub struct ExOwnedValue(zbus::zvariant::OwnedValue);

/// The unsigned 32-bit integer that a variant holds; `None` if it holds anything else.
pub uninterp spec fn held_u32(value: OwnedValue) -> Option<u32>;

/// The fields of the structure that a variant holds, in order, each as the signed 32-bit
/// integer that it is or else `None`; `None` for the whole if the variant holds no
/// structure.
pub uninterp spec fn held_fields(value: OwnedValue) -> Option<Seq<Option<i32>>>;

/// Calls `u32::try_from(&OwnedValue)` of zvariant. It succeeds on a variant that holds a
/// `u32` and gives that number; on every other variant it is an error. It never converts
/// from another integer type.
#[verifier::external_body]
fn u32_of(value: &OwnedValue) -> (res: Option<u32>)
    ensures
        res == held_u32(*value),
{
    u32::try_from(value).ok()
}

/// Calls `<&Structure>::try_from(&OwnedValue)` of zvariant, then `Structure::fields`, and
/// `i32::try_from(&Value)` on each field. The first is an error unless the variant holds a
/// structure, the last unless the field holds an `i32`.
#[verifier::external_body]
fn fields_of(value: &OwnedValue) -> (res: Option<Vec<Option<i32>>>)
    ensures
        match res {
            Some(fields) => held_fields(*value) == Some(fields@),
            None => held_fields(*value) is None,
        },
{
    let fields = <&zbus::zvariant::Structure<'_>>::try_from(value).ok()?.fields();
    Some(fields.iter().map(|field| i32::try_from(field).ok()).collect())
}

/// Calls `Value::from(u32)` of zvariant and `Value::try_to_owned` on the result, which
/// cannot fail on an integer. What comes out holds the number and no structure.
#[verifier::external_body]
pub(crate) fn value_of_u32(number: u32) -> (res: OwnedValue)
    ensures
        held_u32(res) == Some(number),
        held_fields(res) is None,
{
    zbus::zvariant::Value::from(number).try_to_owned().unwrap()
}

/// Four integers read off the fields of a structure: the first four fields, if all of them
/// are integers. Further fields do not matter.
pub open spec fn leading_four(fields: Seq<Option<i32>>) -> Option<(i32, i32, i32, i32)> {
    if fields.len() >= 4 && fields[0] is Some && fields[1] is Some && fields[2] is Some
        && fields[3] is Some {
        Some((fields[0]->0, fields[1]->0, fields[2]->0, fields[3]->0))
    } else {
        None
    }
}

/// A structure that ends before a fourth field although nothing but integers came: taking
/// four integers off it runs past its end.
pub open spec fn runs_out(fields: Seq<Option<i32>>) -> bool {
    fields.len() < 4 && forall|i: int| 0 <= i < fields.len() ==> (#[trigger] fields[i]) is Some
}

/// Reads the first four fields as integers, as the conversion of a structure to a tuple of
/// four integers does.
pub fn take_four(fields: &Vec<Option<i32>>) -> (res: Option<(i32, i32, i32, i32)>)
    requires
        !runs_out(fields@),
    ensures
        res == leading_four(fields@),
{
    if fields.len() < 4 {
        return None;
    }
    match (fields[0], fields[1], fields[2], fields[3]) {
        (Some(a), Some(b), Some(c), Some(d)) => Some((a, b, c, d)),
        _ => None,
    }
}

/// Tests for a structure that ends before four integers were taken off it.
pub fn check_runs_out(fields: &Vec<Option<i32>>) -> (res: bool)
    ensures
        res == runs_out(fields@),
{
    if fields.len() >= 4 {
        return false;
    }
    for i in 0..fields.len()
        invariant
            fields@.len() < 4,
            forall|j: int| 0 <= j < i ==> (#[trigger] fields@[j]) is Some,
    {
        if fields[i].is_none() {
            assert(fields@[i as int] is None);
            return false;
        }
    }
    true
}

/// Whether the entry at index `i` has the key `key`.
pub open spec fn keyed_at(entries: Seq<(String, OwnedValue)>, key: Seq<char>, i: int) -> bool {
    0 <= i < entries.len() && entries[i].0@ == key
}

/// The dictionary that a list of entries stands for.
pub open spec fn entries_map(entries: Seq<(String, OwnedValue)>) -> Map<Seq<char>, OwnedValue> {
    Map::new(
        |key: Seq<char>| exists|i: int| keyed_at(entries, key, i),
        |key: Seq<char>| entries[choose|i: int| keyed_at(entries, key, i)].1,
    )
}

/// No key occurs twice.
pub open spec fn distinct_keys(entries: Seq<(String, OwnedValue)>) -> bool {
    forall|i: int, j: int|
        0 <= i < j < entries.len() ==> (#[trigger] entries[i]).0@ != (#[trigger] entries[j]).0@
}

/// A dictionary from names to variants, as options travel over the bus.
pub struct OptionDict {
    entries: Vec<(String, OwnedValue)>,
}

impl View for OptionDict {
    type V = Map<Seq<char>, OwnedValue>;

    closed spec fn view(&self) -> Map<Seq<char>, OwnedValue> {
        entries_map(self.entries@)
    }
}

/// The unsigned integer under `key`, if there is one.
pub open spec fn dict_u32(dict: Map<Seq<char>, OwnedValue>, key: Seq<char>) -> Option<u32> {
    if dict.contains_key(key) {
        held_u32(dict[key])
    } else {
        None
    }
}

/// The four leading integers of the structure under `key`, if there is one with such.
pub open spec fn dict_four(dict: Map<Seq<char>, OwnedValue>, key: Seq<char>) -> Option<
    (i32, i32, i32, i32),
> {
    if dict.contains_key(key) {
        match held_fields(dict[key]) {
            Some(fields) => leading_four(fields),
            None => None,
        }
    } else {
        None
    }
}

/// The structure under `key` runs out before four integers were taken off it.
pub open spec fn dict_runs_out(dict: Map<Seq<char>, OwnedValue>, key: Seq<char>) -> bool {
    dict.contains_key(key) && (held_fields(dict[key]) matches Some(fields) && runs_out(fields))
}

impl OptionDict {
    #[verifier::type_invariant]
    spec fn keys_are_distinct(self) -> bool {
        distinct_keys(self.entries@)
    }

    /// The empty dictionary.
    pub fn new() -> (res: OptionDict)
        ensures
            res@ == Map::<Seq<char>, OwnedValue>::empty(),
    {
        let res = OptionDict { entries: Vec::new() };
        assert(res@ =~= Map::<Seq<char>, OwnedValue>::empty());
        res
    }

    /// The index of the entry with the key `key`.
    fn find(entries: &Vec<(String, OwnedValue)>, key: &str) -> (res: Option<usize>)
        ensures
            match res {
                Some(i) => keyed_at(entries@, key@, i as int),
                None => forall|i: int| !keyed_at(entries@, key@, i),
            },
    {
        let name = key.to_string();
        for i in 0..entries.len()
            invariant
                name@ == key@,
                forall|j: int| 0 <= j < i ==> !keyed_at(entries@, key@, j),
        {
            if entries[i].0 == name {
                return Some(i);
            }
        }
        None
    }

    /// Puts `value` under `key`, in place of what was there.
    pub fn insert(&mut self, key: String, value: OwnedValue)
        ensures
            final(self)@ == old(self)@.insert(key@, value),
    {
        proof {
            use_type_invariant(&*self);
        }
        let ghost before = self.entries@;
        let mut entries: Vec<(String, OwnedValue)> = Vec::new();
        std::mem::swap(&mut entries, &mut self.entries);
        match OptionDict::find(&entries, key.as_str()) {
            Some(i) => {
                entries.set(i, (key, value));
                proof {
                    lemma_replace(before, i as int, key, value);
                }
            },
            None => {
                entries.push((key, value));
                proof {
                    lemma_append(before, key, value);
                }
            },
        }
        self.entries = entries;
    }

    /// The value under `key`.
    pub fn get(&self, key: &str) -> (res: Option<&OwnedValue>)
        ensures
            match res {
                Some(value) => self@.contains_key(key@) && *value == self@[key@],
                None => !self@.contains_key(key@),
            },
    {
        proof {
            use_type_invariant(self);
        }
        match OptionDict::find(&self.entries, key) {
            Some(i) => {
                proof {
                    lemma_entry(self.entries@, i as int);
                }
                Some(&self.entries[i].1)
            },
            None => None,
        }
    }

    /// The entries, each key once.
    pub fn into_entries(self) -> (res: Vec<(String, OwnedValue)>)
        ensures
            distinct_keys(res@),
            entries_map(res@) == self@,
    {
        proof {
            use_type_invariant(&self);
        }
        self.entries
    }

    /// Reads the unsigned integer under `key`.
    pub fn u32_at(&self, key: &str) -> (res: Option<u32>)
        ensures
            res == dict_u32(self@, key@),
    {
        match self.get(key) {
            Some(value) => u32_of(value),
            None => None,
        }
    }

    /// Reads four integers off the structure under `key`.
    pub fn four_at(&self, key: &str) -> (res: Option<(i32, i32, i32, i32)>)
        requires
            !dict_runs_out(self@, key@),
        ensures
            res == dict_four(self@, key@),
    {
        match self.get(key) {
            Some(value) => match fields_of(value) {
                Some(fields) => take_four(&fields),
                None => None,
            },
            None => None,
        }
    }

    /// Tests whether the structure under `key` runs out before four integers were taken
    /// off it.
    pub fn runs_out_at(&self, key: &str) -> (res: bool)
        ensures
            res == dict_runs_out(self@, key@),
    {
        match self.get(key) {
            Some(value) => match fields_of(value) {
                Some(fields) => check_runs_out(&fields),
                None => false,
            },
            None => false,
        }
    }
}

/// Four integers are taken off a structure exactly if they are its first four fields, in this
/// order.
pub proof fn leading_fields_are_taken(
    fields: Seq<Option<i32>>,
    a: i32,
    b: i32,
    c: i32,
    d: i32,
)
    ensures
        leading_four(fields) == Some((a, b, c, d)) <==> fields.len() >= 4 && fields.take(4) == seq![
            Some(a),
            Some(b),
            Some(c),
            Some(d),
        ],
{
    if fields.len() >= 4 {
        let four = fields.take(4);
        assert(four[0] == fields[0] && four[1] == fields[1] && four[2] == fields[2] && four[3]
            == fields[3]);
        if leading_four(fields) == Some((a, b, c, d)) {
            assert(four =~= seq![Some(a), Some(b), Some(c), Some(d)]);
        }
    }
}

/// A structure runs out exactly if it has fewer than four fields and none that is not an
/// integer.
pub proof fn short_structures_run_out(fields: Seq<Option<i32>>)
    ensures
        runs_out(fields) <==> fields.len() < 4 && !fields.contains(None),
{
    if fields.len() < 4 && !fields.contains(None) {
        assert forall|i: int| 0 <= i < fields.len() implies (#[trigger] fields[i]) is Some by {
            assert(fields[i] != None::<i32>);
        }
    }
}

/// What is put under a key is read back from there, and what stands under another key is
/// not touched: an integer is read exactly where the entry holds one, and four integers
/// exactly where the entry holds a structure that begins with them.
pub proof fn entries_are_read_under_their_key(
    dict: Map<Seq<char>, OwnedValue>,
    key: Seq<char>,
    value: OwnedValue,
    other: Seq<char>,
)
    ensures
        dict_u32(dict.insert(key, value), key) == held_u32(value),
        dict_u32(dict.remove(key), key) is None,
        dict_four(dict.remove(key), key) is None,
        held_fields(value) is None ==> dict_four(dict.insert(key, value), key) is None,
        held_fields(value) matches Some(fields) ==> dict_four(dict.insert(key, value), key)
            == leading_four(fields),
        other != key ==> dict_u32(dict.insert(key, value), other) == dict_u32(dict, other),
        other != key ==> dict_four(dict.insert(key, value), other) == dict_four(dict, other),
{
}

/// A list of entries with distinct keys stands for the dictionary that holds under the key of
/// each entry its value, and holds no other key.
pub proof fn a_dictionary_is_its_entries(entries: Seq<(String, OwnedValue)>)
    requires
        distinct_keys(entries),
    ensures
        forall|i: int|
            0 <= i < entries.len() ==> entries_map(entries).contains_key(
                (#[trigger] entries[i]).0@,
            ) && entries_map(entries)[entries[i].0@] == entries[i].1,
        forall|key: Seq<char>| #[trigger]
            entries_map(entries).contains_key(key) ==> exists|i: int|
                0 <= i < entries.len() && (#[trigger] entries[i]).0@ == key,
        forall|i: int, j: int|
            0 <= i < entries.len() && 0 <= j < entries.len() && (#[trigger] entries[i]).0@ == (
            #[trigger] entries[j]).0@ ==> i == j,
{
    assert forall|i: int| 0 <= i < entries.len() implies entries_map(entries).contains_key(
        (#[trigger] entries[i]).0@,
    ) && entries_map(entries)[entries[i].0@] == entries[i].1 by {
        lemma_entry(entries, i);
    }
    assert forall|key: Seq<char>| #[trigger]
        entries_map(entries).contains_key(key) implies exists|i: int|
        0 <= i < entries.len() && (#[trigger] entries[i]).0@ == key by {
        let i = choose|i: int| keyed_at(entries, key, i);
        assert(entries[i].0@ == key);
    }
}

/// An entry of a list with distinct keys is what the dictionary holds under its key.
proof fn lemma_entry(entries: Seq<(String, OwnedValue)>, i: int)
    requires
        distinct_keys(entries),
        0 <= i < entries.len(),
    ensures
        entries_map(entries).contains_key(entries[i].0@),
        entries_map(entries)[entries[i].0@] == entries[i].1,
{
    let key = entries[i].0@;
    assert(keyed_at(entries, key, i));
    let j = choose|j: int| keyed_at(entries, key, j);
    assert(keyed_at(entries, key, j));
    assert(i == j);
}

/// A new key at the end of the list.
proof fn lemma_append(entries: Seq<(String, OwnedValue)>, key: String, value: OwnedValue)
    requires
        distinct_keys(entries),
        forall|i: int| !keyed_at(entries, key@, i),
    ensures
        distinct_keys(entries.push((key, value))),
        entries_map(entries.push((key, value))) == entries_map(entries).insert(key@, value),
{
    let longer = entries.push((key, value));
    assert forall|i: int, j: int| 0 <= i < j < longer.len() implies (#[trigger] longer[i]).0@ != (
    #[trigger] longer[j]).0@ by {
        assert(!keyed_at(entries, key@, i));
    }
    assert forall|i: int| 0 <= i < entries.len() implies #[trigger] longer[i] == entries[i]
        && entries[i].0@ != key@ by {
        assert(!keyed_at(entries, key@, i));
    }
    lemma_same_dictionary(longer, entries, key@, value, entries.len() as int);
}

/// A known key whose value is replaced.
proof fn lemma_replace(
    entries: Seq<(String, OwnedValue)>,
    i: int,
    key: String,
    value: OwnedValue,
)
    requires
        distinct_keys(entries),
        keyed_at(entries, key@, i),
    ensures
        distinct_keys(entries.update(i, (key, value))),
        entries_map(entries.update(i, (key, value))) == entries_map(entries).insert(key@, value),
{
    let changed = entries.update(i, (key, value));
    assert forall|a: int, b: int| 0 <= a < b < changed.len() implies (#[trigger] changed[a]).0@ != (
    #[trigger] changed[b]).0@ by {
        assert(changed[a].0@ == entries[a].0@);
        assert(changed[b].0@ == entries[b].0@);
    }
    assert forall|j: int| 0 <= j < entries.len() && j != i implies #[trigger] changed[j]
        == entries[j] && entries[j].0@ != key@ by {
        assert(entries[i].0@ == key@);
    }
    lemma_same_dictionary(changed, entries, key@, value, i);
}

/// A list that agrees with `entries` but for `value` under `key`, at index `at`.
proof fn lemma_same_dictionary(
    changed: Seq<(String, OwnedValue)>,
    entries: Seq<(String, OwnedValue)>,
    key: Seq<char>,
    value: OwnedValue,
    at: int,
)
    requires
        distinct_keys(changed),
        distinct_keys(entries),
        0 <= at < changed.len(),
        changed[at].0@ == key,
        changed[at].1 == value,
        entries.len() <= changed.len() <= entries.len() + 1,
        changed.len() > entries.len() ==> at == entries.len(),
        forall|i: int|
            0 <= i < entries.len() && i != at ==> #[trigger] changed[i] == entries[i]
                && entries[i].0@ != key,
        at < entries.len() ==> entries[at].0@ == key,
    ensures
        entries_map(changed) == entries_map(entries).insert(key, value),
{
    let left = entries_map(changed);
    let right = entries_map(entries).insert(key, value);
    lemma_entry(changed, at);
    assert forall|k: Seq<char>| left.contains_key(k) <==> right.contains_key(k) by {
        if left.contains_key(k) && k != key {
            let i = choose|i: int| keyed_at(changed, k, i);
            assert(keyed_at(entries, k, i));
        }
        if right.contains_key(k) && k != key {
            let i = choose|i: int| keyed_at(entries, k, i);
            assert(keyed_at(changed, k, i));
        }
    }
    assert forall|k: Seq<char>| left.contains_key(k) implies #[trigger] left[k] == right[k] by {
        if k != key {
            let i = choose|i: int| keyed_at(changed, k, i);
            lemma_entry(changed, i);
            lemma_entry(entries, i);
        }
    }
    assert(left =~= right);
}

} // verus!
