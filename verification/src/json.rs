//! JSON values: the data model that contracts speak of, and the `serde_json` calls behind it.
use crate::text::{joined, replaced};
use vstd::prelude::*;

verus! {

/// A JSON value, as data.
pub enum Json {
    Null,
    Bool(bool),
    /// A number held as an integer.
    Integer(int),
    /// A number held as a double, by its bits.
    Float(u64),
    Text(Seq<char>),
    Array(Seq<Json>),
    /// An object, as the map from its member names to their values.
    Object(Map<Seq<char>, Json>),
}

/// The member of `j` under `key`, where `j` is an object that has one.
pub open spec fn member(j: Json, key: Seq<char>) -> Option<Json> {
    match j {
        Json::Object(members) => if members.dom().contains(key) {
            Some(members[key])
        } else {
            None
        },
        _ => None,
    }
}

/// The member of `j` under `key`, where it is a text.
pub open spec fn text_member(j: Json, key: Seq<char>) -> Option<Seq<char>> {
    match member(j, key) {
        Some(Json::Text(s)) => Some(s),
        _ => None,
    }
}

/// The object `j` with its member `key` set to `value`.
pub open spec fn with_member(j: Json, key: Seq<char>, value: Json) -> Json {
    match j {
        Json::Object(members) => Json::Object(members.insert(key, value)),
        _ => j,
    }
}

/// Whether `j` is neither an array nor an object.
pub open spec fn scalar(j: Json) -> bool {
    !(j is Array) && !(j is Object)
}

/// Whether `j` is an object of scalars.
pub open spec fn flat(j: Json) -> bool {
    match j {
        Json::Object(members) => forall|key: Seq<char>|
            members.dom().contains(key) ==> scalar(#[trigger] members[key]),
        _ => false,
    }
}

/// Whether no member of the object `j` is held as a double.
pub open spec fn without_floats(j: Json) -> bool {
    match j {
        Json::Object(members) => forall|key: Seq<char>|
            members.dom().contains(key) ==> !(#[trigger] members[key] is Float),
        _ => false,
    }
}

/// Whether the double with these bits is below two to the power of 1023 in size.
pub open spec fn moderate(bits: u64) -> bool {
    bits % 0x8000_0000_0000_0000 < 0x7fe0_0000_0000_0000
}

/// Whether every member of the object `j` that is held as a double is moderate.
pub open spec fn moderate_floats(j: Json) -> bool {
    match j {
        Json::Object(members) => forall|key: Seq<char>|
            members.dom().contains(key) ==> ((#[trigger] members[key]) matches Json::Float(bits)
                ==> moderate(bits)),
        _ => false,
    }
}

/// Whether the objects `j` and `back` have the same members but for their doubles, under whose
/// names `back` has doubles too.
pub open spec fn alike(j: Json, back: Json) -> bool {
    match (j, back) {
        (Json::Object(members), Json::Object(found)) => {
            &&& members.dom() == found.dom()
            &&& forall|key: Seq<char>|
                members.dom().contains(key) ==> if (#[trigger] members[key]) is Float {
                    found[key] is Float
                } else {
                    found[key] == members[key]
                }
        },
        _ => false,
    }
}

/// What holds of `read`, which was read from the text in which the object `j` was written: it is
/// like `j`, and there is something unless a double is close to the largest.
pub open spec fn reads_back(j: Json, read: Option<Json>) -> bool {
    &&& moderate_floats(j) ==> read is Some
    &&& read matches Some(back) ==> alike(j, back)
}

/// An object without doubles reads back as it is.
pub proof fn reads_back_without_floats(j: Json, read: Option<Json>)
    requires
        without_floats(j),
        reads_back(j, read),
    ensures
        read == Some(j),
{
    assert(j->Object_0 =~= read->0->Object_0);
}

/// A list of the values that `items` hold, as a text.
pub open spec fn list_text(items: Seq<Seq<char>>) -> Seq<char> {
    "["@ + joined(items, ","@) + "]"@
}

/// Whether each item holds the value at its place, and can be read one level deeper, in a list.
pub open spec fn hold(items: Seq<Seq<char>>, values: Seq<Json>) -> bool {
    &&& items.len() == values.len()
    &&& forall|i: int|
        0 <= i < items.len() ==> parsed(#[trigger] items[i]) == Some(values[i]) && parsed(
            list_text(seq![items[i]]),
        ) is Some
}

/// `s` in quotes, with the quotes in it escaped.
pub open spec fn quoted(s: Seq<char>) -> Seq<char> {
    "\""@ + replaced(s, "\""@, "\\\""@) + "\""@
}

/// Whether no character of `s` but a quote needs an escape.
pub open spec fn plain(s: Seq<char>) -> bool {
    forall|i: int| 0 <= i < s.len() ==> (#[trigger] s[i]) != '\\' && s[i] >= ' '
}

/// Whether `j` is null, a truth value or a plain text.
pub open spec fn simple(j: Json) -> bool {
    match j {
        Json::Null => true,
        Json::Bool(_) => true,
        Json::Text(s) => plain(s),
        _ => false,
    }
}

/// The text of a simple value.
pub open spec fn simple_text(j: Json) -> Seq<char> {
    match j {
        Json::Bool(true) => "true"@,
        Json::Bool(false) => "false"@,
        Json::Text(s) => quoted(s),
        _ => "null"@,
    }
}

/// An object with the given entries, as a text.
pub open spec fn object_text(entries: Seq<(Seq<char>, Json)>) -> Seq<char> {
    "{"@ + joined(
        entries.map_values(
            |entry: (Seq<char>, Json)| quoted(entry.0) + ": "@ + simple_text(entry.1),
        ),
        ", "@,
    ) + "}"@
}

/// The object with the given entries; of two under one name the later stands.
pub open spec fn object_of(entries: Seq<(Seq<char>, Json)>) -> Map<Seq<char>, Json>
    decreases entries.len(),
{
    if entries.len() == 0 {
        Map::empty()
    } else {
        object_of(entries.drop_last()).insert(entries.last().0, entries.last().1)
    }
}

/// Whether every entry has a plain name and a simple value.
pub open spec fn simple_entries(entries: Seq<(Seq<char>, Json)>) -> bool {
    forall|i: int|
        0 <= i < entries.len() ==> plain((#[trigger] entries[i]).0) && simple(entries[i].1)
}

/// What holds of `read`, which was read from `text`: a list of items gives the list of the values
/// that they hold, and an object of simple entries gives the object with those entries.
pub open spec fn read_from(read: Option<Json>, text: Seq<char>) -> bool {
    &&& read == parsed(text)
    &&& forall|items: Seq<Seq<char>>, values: Seq<Json>|
        text == list_text(items) && #[trigger] hold(items, values) ==> read == Some(
            Json::Array(values),
        )
    &&& forall|entries: Seq<(Seq<char>, Json)>|
        text == #[trigger] object_text(entries) && simple_entries(entries) ==> read == Some(
            Json::Object(object_of(entries)),
        )
}

/// `serde_json::Value`, a parsed JSON value.
#[verifier::external_type_specification]
#[verifier::external_body]
pub struct ExValue(serde_json::Value);

/// `serde_json::Error`, the reason why a text is no JSON.
#[verifier::external_type_specification]
#[verifier::external_body]
pub struct ExError(serde_json::Error);

/// What a `serde_json::Value` holds.
pub uninterp spec fn contents(value: serde_json::Value) -> Json;

/// What `serde_json::from_str` reads from a text; nothing where the text is no JSON.
pub uninterp spec fn parsed(text: Seq<char>) -> Option<Json>;

/// The compact text in which `serde_json` writes a value.
pub uninterp spec fn rendered(j: Json) -> Seq<char>;

/// What a result of `serde_json::from_str` gives.
pub open spec fn value_read(result: Result<serde_json::Value, serde_json::Error>) -> Option<Json> {
    match result {
        Ok(value) => Some(contents(value)),
        Err(_) => None,
    }
}

/// `serde_json::from_str`: what it returns for a text is a function of that text alone. From
/// brackets round items that are read one by one, with commas between them, it reads the list of
/// what the items hold, as long as none is nested too deeply to stand in a list. From braces round
/// names and simple values it reads the object that has them.
#[verifier::external_body]
pub(crate) fn parse(text: &str) -> (result: Result<serde_json::Value, serde_json::Error>)
    ensures
        read_from(value_read(result), text@),
{
    serde_json::from_str(text)
}

/// `serde_json::Value::get` with a text key: the member under that key, and nothing where the
/// value is no object or has no such member.
#[verifier::external_body]
pub(crate) fn get<'a>(value: &'a serde_json::Value, key: &str) -> (found: Option<
    &'a serde_json::Value,
>)
    ensures
        (match found {
            Some(v) => member(contents(*value), key@) == Some(contents(*v)),
            None => member(contents(*value), key@) is None,
        }),
{
    value.get(key)
}

/// `serde_json::Value::as_str`: the text of a text value, and nothing for any other.
pub assume_specification[ serde_json::Value::as_str ](value: &serde_json::Value) -> (text: Option<
    &str,
>)
    ensures
        (match text {
            Some(s) => contents(*value) == Json::Text(s@),
            None => !(contents(*value) is Text),
        }),
;

/// `serde_json::Value::is_number`: whether the value is a number of either form.
pub assume_specification[ serde_json::Value::is_number ](value: &serde_json::Value) -> (yes: bool)
    ensures
        yes == (contents(*value) is Integer || contents(*value) is Float),
;

/// `serde_json::Value::is_null`: whether the value is null.
pub assume_specification[ serde_json::Value::is_null ](value: &serde_json::Value) -> (yes: bool)
    ensures
        yes == (contents(*value) is Null),
;

/// `serde_json::Value::from` on a text gives the text value that holds it.
#[verifier::external_body]
pub(crate) fn text_value(text: String) -> (value: serde_json::Value)
    ensures
        contents(value) == Json::Text(text@),
{
    serde_json::Value::from(text)
}

/// `serde_json::Value::from` on an unsigned number gives the number value that holds it.
#[verifier::external_body]
pub(crate) fn unsigned_value(n: u64) -> (value: serde_json::Value)
    ensures
        contents(value) == Json::Integer(n as int),
{
    serde_json::Value::from(n)
}

/// `serde_json::Map::new` makes an object without members.
#[verifier::external_body]
pub(crate) fn empty_object() -> (value: serde_json::Value)
    ensures
        contents(value) == Json::Object(Map::empty()),
{
    serde_json::Value::Object(serde_json::Map::new())
}

/// `serde_json::Map::insert` on the members of an object sets the member under `key`, whether or
/// not there was one, and leaves the others as they were.
#[verifier::external_body]
pub(crate) fn insert(object: &mut serde_json::Value, key: String, value: serde_json::Value)
    requires
        contents(*old(object)) is Object,
    ensures
        contents(*final(object)) == with_member(contents(*old(object)), key@, contents(value)),
{
    if let serde_json::Value::Object(members) = object {
        members.insert(key, value);
    }
}

/// `serde_json::Value::to_string` writes a value in its compact form: a function of what the value
/// holds, since the members of an object come in the order of their names. The text holds no line
/// break: there is none between the parts, and one inside a text is written as an escape. It
/// reads back as an object with the same members; but a double may be read as one beside it, and
/// where it is close to the largest, reading may find it out of range.
#[verifier::external_body]
pub(crate) fn render(value: &serde_json::Value) -> (text: String)
    requires
        flat(contents(*value)),
    ensures
        text@ == rendered(contents(*value)),
        !text@.contains('\n'),
        reads_back(contents(*value), parsed(text@)),
{
    value.to_string()
}

/// A member of an object is found under its name and under no other, and what is no object has
/// none; it is a text member exactly where it is a text.
pub proof fn member_is_found_under_its_name(
    members: Map<Seq<char>, Json>,
    key: Seq<char>,
    j: Json,
    s: Seq<char>,
)
    ensures
        members.dom().contains(key) ==> member(Json::Object(members), key) == Some(members[key]),
        !members.dom().contains(key) ==> member(Json::Object(members), key) is None,
        !(j is Object) ==> member(j, key) is None,
        text_member(j, key) == Some(s) <==> member(j, key) == Some(Json::Text(s)),
{
}

/// An object with a member set has that member, and its other members as they were; what is no
/// object stays as it is.
pub proof fn member_that_is_set_is_found(j: Json, key: Seq<char>, other: Seq<char>, value: Json)
    ensures
        j is Object ==> member(with_member(j, key, value), key) == Some(value),
        key != other ==> member(with_member(j, key, value), other) == member(j, other),
        !(j is Object) ==> with_member(j, key, value) == j,
{
}

} // verus!
