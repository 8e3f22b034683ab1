//! JSON values of `serde_json`, and what they hold.
use vstd::prelude::*;

verus! {

/// The mathematical content of a JSON value.
pub enum Json {
    Null,
    Bool(bool),
    /// A number that is stored as an integer.
    Integer(int),
    /// A number that is stored as a floating-point value.
    Float(serde_json::Number),
    Str(Seq<char>),
    Array(Seq<Json>),
    Object(Map<Seq<char>, Json>),
}

impl Json {
    /// The member of an object under a key; `None` of any other value.
    pub open spec fn member(self, key: Seq<char>) -> Option<Json> {
        match self {
            Json::Object(members) => if members.contains_key(key) {
                Some(members[key])
            } else {
                None
            },
            _ => None,
        }
    }

    /// The text of the string member under a key.
    pub open spec fn string_member(self, key: Seq<char>) -> Option<Seq<char>> {
        match self.member(key) {
            Some(Json::Str(text)) => Some(text),
            _ => None,
        }
    }

    /// A string, or an array of strings.
    pub open spec fn is_text(self) -> bool {
        match self {
            Json::Str(_) => true,
            Json::Array(items) => forall|i: int| 0 <= i < items.len() ==> #[trigger] items[i] is Str,
            _ => false,
        }
    }

    /// An object whose members are strings and arrays of strings.
    pub open spec fn is_flat(self) -> bool {
        match self {
            Json::Object(members) => forall|key: Seq<char>| #[trigger]
                members.contains_key(key) ==> members[key].is_text(),
            _ => false,
        }
    }
}

/// `serde_json::Value`, held as an opaque value.
#[verifier::external_type_specification]
#[verifier::external_body]
pub struct ExValue(serde_json::Value);

/// `serde_json::Number`, held as an opaque value.
#[verifier::external_type_specification]
#[verifier::external_body]
pub struct ExNumber(serde_json::Number);

/// `serde_json::Error`, held as an opaque value.
#[verifier::external_type_specification]
#[verifier::external_body]
pub struct ExError(serde_json::Error);

/// What a `serde_json::Value` holds.
pub uninterp spec fn json(value: serde_json::Value) -> Json;

/// What `serde_json::from_str` reads out of a text, or `None` where it reports an error.
pub uninterp spec fn parsed_json(text: Seq<char>) -> Option<Json>;

/// The text that `Display` of a `serde_json::Value` writes for a content.
pub uninterp spec fn json_text(content: Json) -> Seq<char>;

/// What a sequence of values holds, item by item.
pub open spec fn json_items(values: Seq<serde_json::Value>) -> Seq<Json> {
    Seq::new(values.len(), |i: int| json(values[i]))
}

/// Whether no two entries have one key.
pub open spec fn distinct_keys(entries: Seq<(&str, serde_json::Value)>) -> bool {
    forall|i: int, j: int|
        0 <= i < j < entries.len() ==> (#[trigger] entries[i]).0@ != (#[trigger] entries[j]).0@
}

/// The members that a list of entries with distinct keys makes up.
pub open spec fn entry_members(entries: Seq<(&str, serde_json::Value)>) -> Map<Seq<char>, Json>
    decreases entries.len(),
{
    if entries.len() == 0 {
        Map::empty()
    } else {
        entry_members(entries.drop_last()).insert(entries.last().0@, json(entries.last().1))
    }
}

/// `serde_json::Value::as_str`: the text of a string, and `None` of any other value.
pub assume_specification[ serde_json::Value::as_str ](value: &serde_json::Value) -> (text: Option<
    &str,
>)
    ensures
        match json(*value) {
            Json::Str(s) => text is Some && text->0@ == s,
            _ => text is None,
        },
;

/// `serde_json::Value::as_array`: the items of an array in order, and `None` of any
/// other value.
pub assume_specification[ serde_json::Value::as_array ](value: &serde_json::Value) -> (items: Option<
    &Vec<serde_json::Value>,
>)
    ensures
        match json(*value) {
            Json::Array(s) => items is Some && json_items(items->0@) == s,
            _ => items is None,
        },
;

/// `serde_json::Value::is_object`: whether the value is an object.
pub assume_specification[ serde_json::Value::is_object ](value: &serde_json::Value) -> (object: bool)
    ensures
        object == (json(*value) is Object),
;

/// `serde_json::Value::get` at a string key: the member of an object under the key,
/// and `None` where there is no such member or the value is no object.
#[verifier::external_body]
pub(crate) fn json_member<'a>(value: &'a serde_json::Value, key: &str) -> (member: Option<
    &'a serde_json::Value,
>)
    ensures
        match json(*value).member(key@) {
            Some(content) => member is Some && json(*member->0) == content,
            None => member is None,
        },
{
    value.get(key)
}

/// `serde_json::from_str` at type `serde_json::Value`: success and the value that is
/// read depend on the text alone.
#[verifier::external_body]
pub(crate) fn parse_json(text: &str) -> (value: Result<serde_json::Value, serde_json::Error>)
    ensures
        value is Ok <==> parsed_json(text@) is Some,
        value matches Ok(v) ==> parsed_json(text@) == Some(json(v)),
{
    serde_json::from_str(text)
}

/// `Display` of a `serde_json::Value`: the compact text depends on the content alone,
/// and `serde_json::from_str` reads the content back out of it. Said of flat objects:
/// a floating-point number may lose digits on the way, and a deeply nested value is
/// more than the reader or the stack takes.
#[verifier::external_body]
pub(crate) fn write_json(value: &serde_json::Value) -> (text: String)
    requires
        json(*value).is_flat(),
    ensures
        text@ == json_text(json(*value)),
        parsed_json(text@) == Some(json(*value)),
{
    value.to_string()
}

/// `From<&str>` of `serde_json::Value`: a string with the same text.
#[verifier::external_body]
pub(crate) fn json_string(text: &str) -> (value: serde_json::Value)
    ensures
        json(value) == Json::Str(text@),
{
    serde_json::Value::from(text)
}

/// `From<bool>` of `serde_json::Value`.
#[verifier::external_body]
pub(crate) fn json_bool(flag: bool) -> (value: serde_json::Value)
    ensures
        json(value) == Json::Bool(flag),
{
    serde_json::Value::from(flag)
}

/// `From<u64>` of `serde_json::Value`: a number that is stored as an integer.
#[verifier::external_body]
pub(crate) fn json_integer(number: u64) -> (value: serde_json::Value)
    ensures
        json(value) == Json::Integer(number as int),
{
    serde_json::Value::from(number)
}

/// `From<()>` of `serde_json::Value`: null.
#[verifier::external_body]
pub(crate) fn json_null() -> (value: serde_json::Value)
    ensures
        json(value) == Json::Null,
{
    serde_json::Value::from(())
}

/// `From<Vec<_>>` of `serde_json::Value`: an array of the same items in order.
#[verifier::external_body]
pub(crate) fn json_array(items: Vec<serde_json::Value>) -> (value: serde_json::Value)
    ensures
        json(value) == Json::Array(json_items(items@)),
{
    serde_json::Value::from(items)
}

/// `FromIterator<(_, _)>` of `serde_json::Value`: an object whose members are the entries.
/// Said of entries with distinct keys: which of two entries with one key stays is not
/// documented.
#[verifier::external_body]
pub(crate) fn json_object(entries: Vec<(&str, serde_json::Value)>) -> (value: serde_json::Value)
    requires
        distinct_keys(entries@),
    ensures
        json(value) == Json::Object(entry_members(entries@)),
{
    serde_json::Value::from_iter(entries)
}

/// An object with one member.
pub(crate) fn json_object1(key: &str, value: serde_json::Value) -> (object: serde_json::Value)
    ensures
        json(object) == Json::Object(map![key@ => json(value)]),
{
    let entries = vec![(key, value)];
    proof {
        reveal_with_fuel(entry_members, 2);
        assert(entries@.drop_last() =~= seq![]);
    }
    json_object(entries)
}

/// An object with two members.
pub(crate) fn json_object2(
    key1: &str,
    value1: serde_json::Value,
    key2: &str,
    value2: serde_json::Value,
) -> (object: serde_json::Value)
    requires
        key1@ != key2@,
    ensures
        json(object) == Json::Object(map![key1@ => json(value1), key2@ => json(value2)]),
{
    let entries = vec![(key1, value1), (key2, value2)];
    proof {
        reveal_with_fuel(entry_members, 3);
        assert(entries@.drop_last().drop_last() =~= seq![]);
    }
    json_object(entries)
}

/// An object with three members.
pub(crate) fn json_object3(
    key1: &str,
    value1: serde_json::Value,
    key2: &str,
    value2: serde_json::Value,
    key3: &str,
    value3: serde_json::Value,
) -> (object: serde_json::Value)
    requires
        key1@ != key2@,
        key1@ != key3@,
        key2@ != key3@,
    ensures
        json(object) == Json::Object(
            map![key1@ => json(value1), key2@ => json(value2), key3@ => json(value3)],
        ),
{
    let entries = vec![(key1, value1), (key2, value2), (key3, value3)];
    proof {
        reveal_with_fuel(entry_members, 4);
        assert(entries@.drop_last().drop_last().drop_last() =~= seq![]);
    }
    json_object(entries)
}

/// An object with four members.
pub(crate) fn json_object4(
    key1: &str,
    value1: serde_json::Value,
    key2: &str,
    value2: serde_json::Value,
    key3: &str,
    value3: serde_json::Value,
    key4: &str,
    value4: serde_json::Value,
) -> (object: serde_json::Value)
    requires
        key1@ != key2@,
        key1@ != key3@,
        key1@ != key4@,
        key2@ != key3@,
        key2@ != key4@,
        key3@ != key4@,
    ensures
        json(object) == Json::Object(
            map![
                key1@ => json(value1),
                key2@ => json(value2),
                key3@ => json(value3),
                key4@ => json(value4),
            ],
        ),
{
    let entries = vec![(key1, value1), (key2, value2), (key3, value3), (key4, value4)];
    proof {
        reveal_with_fuel(entry_members, 5);
        assert(entries@.drop_last().drop_last().drop_last().drop_last() =~= seq![]);
    }
    json_object(entries)
}

// ---------------------------------------------------------------------------
// Laws

/// An object has the members that it is made of, any other value has none, and a string
/// member is a member that is a string.
pub proof fn law_members_of_an_object(
    members: Map<Seq<char>, Json>,
    other: Json,
    key: Seq<char>,
    text: Seq<char>,
)
    ensures
        members.contains_key(key) ==> Json::Object(members).member(key) == Some(members[key]),
        !members.contains_key(key) ==> Json::Object(members).member(key) is None,
        !(other is Object) ==> other.member(key) is None,
        other.string_member(key) == Some(text) <==> other.member(key) == Some(Json::Str(text)),
{
}

/// What a sequence of values holds is what each of them holds, in order.
pub proof fn law_items_are_held_in_order(values: Seq<serde_json::Value>)
    ensures
        json_items(values).len() == values.len(),
        forall|i: int| 0 <= i < values.len() ==> #[trigger] json_items(values)[i] == json(values[i]),
{
}

/// Entries with distinct keys make up an object with a member for each entry, and with no
/// other members.
pub proof fn law_entries_make_up_an_object(entries: Seq<(&str, serde_json::Value)>)
    requires
        forall|i: int, j: int|
            0 <= i < j < entries.len() ==> (#[trigger] entries[i]).0@ != (#[trigger] entries[j]).0@,
    ensures
        distinct_keys(entries),
        forall|i: int|
            0 <= i < entries.len() ==> entry_members(entries).contains_pair(
                (#[trigger] entries[i]).0@,
                json(entries[i].1),
            ),
        forall|key: Seq<char>| #[trigger]
            entry_members(entries).contains_key(key) ==> exists|i: int|
                0 <= i < entries.len() && (#[trigger] entries[i]).0@ == key,
    decreases entries.len(),
{
    if entries.len() > 0 {
        let earlier = entries.drop_last();
        let n = entries.len() - 1;
        assert forall|i: int, j: int| 0 <= i < j < earlier.len() implies (
        #[trigger] earlier[i]).0@ != (#[trigger] earlier[j]).0@ by {
            assert(earlier[i] == entries[i]);
            assert(earlier[j] == entries[j]);
        }
        law_entries_make_up_an_object(earlier);
        assert(entries.last() == entries[n]);
        assert forall|i: int| 0 <= i < entries.len() implies entry_members(entries).contains_pair(
            (#[trigger] entries[i]).0@,
            json(entries[i].1),
        ) by {
            if i < n {
                assert(earlier[i] == entries[i]);
                assert(entries[i].0@ != entries[n].0@);
            }
        }
        assert forall|key: Seq<char>| #[trigger]
            entry_members(entries).contains_key(key) implies exists|i: int|
            0 <= i < entries.len() && (#[trigger] entries[i]).0@ == key by {
            if key != entries[n].0@ {
                assert(entry_members(earlier).contains_key(key));
                let i = choose|i: int| 0 <= i < earlier.len() && (#[trigger] earlier[i]).0@ == key;
                assert(entries[i] == earlier[i]);
            }
        }
    }
}

} // verus!
