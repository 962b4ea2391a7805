use vstd::prelude::*;

verus! {

/// A JSON value. Numbers keep their decimal text, as JSON writes them.
#[derive(Debug, PartialEq)]
pub enum JsonValue {
    Null,
    Bool(bool),
    Number(String),
    Str(String),
    Array(Vec<JsonValue>),
    Object(Vec<(String, JsonValue)>),
}

/// The members of an object given as a list of fields, read in order: a
/// later field with the same key replaces an earlier one, as when each field
/// is assigned in turn.
pub open spec fn fields_map(fields: Seq<(String, JsonValue)>) -> Map<Seq<char>, JsonValue>
    decreases fields.len(),
{
    if fields.len() == 0 {
        Map::empty()
    } else {
        fields_map(fields.drop_last()).insert(fields.last().0@, fields.last().1)
    }
}

/// No key occurs twice among the fields.
pub open spec fn keys_unique(fields: Seq<(String, JsonValue)>) -> bool {
    forall|i: int, j: int|
        0 <= i < fields.len() && 0 <= j < fields.len() && i != j ==> #[trigger] fields[i].0@
            != #[trigger] fields[j].0@
}

/// Some field has the key `key`.
pub open spec fn has_key(fields: Seq<(String, JsonValue)>, key: Seq<char>) -> bool {
    exists|i: int| 0 <= i < fields.len() && fields[i].0@ == key
}

/// The fields of `value` when it is an object; none otherwise.
pub open spec fn object_fields(value: JsonValue) -> Seq<(String, JsonValue)> {
    match value {
        JsonValue::Object(fields) => fields@,
        _ => Seq::empty(),
    }
}

/// Reading fields in order, every key that occurs is a member, bound to the
/// value of its last occurrence, and nothing else is a member.
pub proof fn lemma_fields_map_last_wins(fields: Seq<(String, JsonValue)>)
    ensures
        forall|i: int| 0 <= i < fields.len() ==> #[trigger] fields_map(fields).contains_key(fields[i].0@),
        forall|i: int|
            0 <= i < fields.len() && (forall|j: int| i < j < fields.len() ==> fields[j].0@ != fields[i].0@)
                ==> #[trigger] fields_map(fields)[fields[i].0@] == fields[i].1,
        forall|k: Seq<char>|
            #[trigger] fields_map(fields).contains_key(k) ==> exists|i: int|
                0 <= i < fields.len() && fields[i].0@ == k,
    decreases fields.len(),
{
    if fields.len() > 0 {
        let init = fields.drop_last();
        let last = fields.len() - 1;
        lemma_fields_map_last_wins(init);
        assert(fields_map(fields) == fields_map(init).insert(fields[last].0@, fields[last].1));
        assert forall|i: int| 0 <= i < fields.len() implies #[trigger] fields_map(fields).contains_key(
            fields[i].0@,
        ) by {
            if i < last {
                assert(init[i] == fields[i]);
                assert(fields_map(init).contains_key(init[i].0@));
            }
        }
        assert forall|i: int|
            0 <= i < fields.len() && (forall|j: int| i < j < fields.len() ==> fields[j].0@ != fields[i].0@)
            implies #[trigger] fields_map(fields)[fields[i].0@] == fields[i].1 by {
            if i < last {
                assert(init[i] == fields[i]);
                assert(fields[last].0@ != fields[i].0@);
                assert forall|j: int| i < j < init.len() implies init[j].0@ != init[i].0@ by {
                    assert(init[j] == fields[j]);
                }
                assert(fields_map(init)[init[i].0@] == init[i].1);
            }
        }
        assert forall|k: Seq<char>| #[trigger] fields_map(fields).contains_key(k) implies exists|i: int|
            0 <= i < fields.len() && fields[i].0@ == k by {
            if k != fields[last].0@ {
                assert(fields_map(init).contains_key(k));
                let i = choose|i: int| 0 <= i < init.len() && init[i].0@ == k;
                assert(fields[i] == init[i]);
            } else {
                assert(fields[last].0@ == k);
            }
        }
    }
}

/// The fields of an object value are its members, in order; any other
/// value has none.
pub proof fn lemma_object_fields_are_members(value: JsonValue)
    ensures
        value matches JsonValue::Object(fs) ==> object_fields(value) == fs@,
        !(value is Object) ==> object_fields(value).len() == 0,
{
}

/// With unique keys, the map of the fields holds exactly their keys, each
/// bound to its own value.
proof fn lemma_fields_map_unique(fields: Seq<(String, JsonValue)>)
    requires
        keys_unique(fields),
    ensures
        forall|k: Seq<char>|
            #[trigger] fields_map(fields).contains_key(k) <==> exists|i: int|
                0 <= i < fields.len() && fields[i].0@ == k,
        forall|i: int|
            0 <= i < fields.len() ==> #[trigger] fields_map(fields)[fields[i].0@] == fields[i].1,
    decreases fields.len(),
{
    if fields.len() > 0 {
        let init = fields.drop_last();
        assert(keys_unique(init)) by {
            assert forall|i: int, j: int|
                0 <= i < init.len() && 0 <= j < init.len() && i != j implies #[trigger] init[i].0@
                != #[trigger] init[j].0@ by {
                assert(init[i] == fields[i] && init[j] == fields[j]);
            }
        }
        lemma_fields_map_unique(init);
        let last = fields.len() - 1;
        assert forall|k: Seq<char>|
            #[trigger] fields_map(fields).contains_key(k) <==> exists|i: int|
                0 <= i < fields.len() && fields[i].0@ == k by {
            if fields_map(fields).contains_key(k) {
                if k == fields[last].0@ {
                    assert(fields[last].0@ == k);
                } else {
                    assert(fields_map(init).contains_key(k));
                    let i = choose|i: int| 0 <= i < init.len() && init[i].0@ == k;
                    assert(fields[i] == init[i]);
                }
            }
            if exists|i: int| 0 <= i < fields.len() && fields[i].0@ == k {
                let i = choose|i: int| 0 <= i < fields.len() && fields[i].0@ == k;
                if i < last {
                    assert(init[i] == fields[i]);
                    assert(fields_map(init).contains_key(k));
                }
            }
        }
        assert forall|i: int| 0 <= i < fields.len() implies #[trigger] fields_map(
            fields,
        )[fields[i].0@] == fields[i].1 by {
            if i < last {
                assert(init[i] == fields[i]);
                assert(fields[i].0@ != fields[last].0@);
                assert(fields_map(init)[init[i].0@] == init[i].1);
            }
        }
    }
}

/// Sets the member `key` of the object whose fields are `fields` to `value`:
/// the field with that key is replaced in place, or, where there is none, a
/// field is added at the end.
pub fn set_field(fields: &mut Vec<(String, JsonValue)>, key: String, value: JsonValue)
    requires
        keys_unique(old(fields)@),
    ensures
        keys_unique(final(fields)@),
        fields_map(final(fields)@) == fields_map(old(fields)@).insert(key@, value),
        has_key(old(fields)@, key@) ==> final(fields)@.len() == old(fields)@.len(),
        has_key(old(fields)@, key@) ==> forall|j: int|
            0 <= j < old(fields)@.len() ==> #[trigger] final(fields)@[j] == if old(fields)@[j].0@
                == key@ {
                (key, value)
            } else {
                old(fields)@[j]
            },
        !has_key(old(fields)@, key@) ==> final(fields)@ == old(fields)@.push((key, value)),
{
    let ghost k = key@;
    let ghost v = value;
    let n = fields.len();
    let mut i: usize = 0;
    while i < n
        invariant
            n == fields@.len(),
            i <= n,
            fields@ == old(fields)@,
            keys_unique(fields@),
            key@ == k,
            value == v,
            forall|j: int| 0 <= j < i ==> fields@[j].0@ != k,
        decreases n - i,
    {
        let same = fields[i].0 == key;
        if same {
            let ghost before = fields@;
            proof {
                lemma_fields_map_unique(before);
            }
            fields.set(i, (key, value));
            let ghost after = fields@;
            assert(keys_unique(after)) by {
                assert forall|a: int, b: int|
                    0 <= a < after.len() && 0 <= b < after.len() && a != b implies #[trigger] after[a].0@
                    != #[trigger] after[b].0@ by {
                    if a != i && b != i {
                        assert(after[a] == before[a] && after[b] == before[b]);
                    } else if a == i {
                        assert(after[b] == before[b]);
                    } else {
                        assert(after[a] == before[a]);
                    }
                }
            }
            proof {
                lemma_fields_map_unique(after);
                let m1 = fields_map(after);
                let m2 = fields_map(before).insert(k, v);
                assert forall|kk: Seq<char>| #[trigger] m1.contains_key(kk) <==> m2.contains_key(
                    kk,
                ) by {
                    if m1.contains_key(kk) {
                        let j = choose|j: int| 0 <= j < after.len() && after[j].0@ == kk;
                        if j != i {
                            assert(after[j] == before[j]);
                        }
                    }
                    if m2.contains_key(kk) && kk != k {
                        let j = choose|j: int| 0 <= j < before.len() && before[j].0@ == kk;
                        assert(after[j] == before[j]);
                    }
                    if kk == k {
                        assert(after[i as int].0@ == kk);
                    }
                }
                assert forall|kk: Seq<char>| #[trigger] m1.contains_key(kk) implies m1[kk]
                    == m2[kk] by {
                    let j = choose|j: int| 0 <= j < after.len() && after[j].0@ == kk;
                    assert(m1[after[j].0@] == after[j].1);
                    if j != i {
                        assert(after[j] == before[j]);
                        assert(m2[kk] == fields_map(before)[before[j].0@]);
                    }
                }
                assert(m1 =~= m2);
            }
            return;
        }
        i = i + 1;
    }
    let ghost before = fields@;
    fields.push((key, value));
    proof {
        let after = fields@;
        assert(after.drop_last() =~= before);
        assert(after.last() == (key, value));
        assert forall|a: int, b: int|
            0 <= a < after.len() && 0 <= b < after.len() && a != b implies #[trigger] after[a].0@
            != #[trigger] after[b].0@ by {
            if a < n && b < n {
                assert(after[a] == before[a] && after[b] == before[b]);
            } else if a < n {
                assert(after[a] == before[a]);
            } else {
                assert(after[b] == before[b]);
            }
        }
    }
}

} // verus!
