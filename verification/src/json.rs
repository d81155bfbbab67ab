//! JSON objects, as `serde_json` parses, holds and prints them.
//!
//! Nothing in this file is proved. Each item states what the named function
//! of `serde_json` does, and the rest of the library is verified against
//! these statements.

use vstd::prelude::*;

verus! {

#[verifier::external_type_specification]
#[verifier::external_body]
pub struct ExJsonValue(serde_json::Value);

#[verifier::external_type_specification]
#[verifier::external_body]
#[verifier::reject_recursive_types(K)]
#[verifier::reject_recursive_types(V)]
pub struct ExJsonObject<K, V>(serde_json::Map<K, V>);

#[verifier::external_type_specification]
#[verifier::external_body]
pub struct ExJsonError(serde_json::Error);

/// What the library reads of one member of a JSON object.
#[derive(Debug, PartialEq, Eq)]
pub enum JsonField {
    /// The object has no member of that name.
    Absent,
    /// The member is `null`.
    Null,
    /// The member is a string, with this content.
    Text(String),
    /// The member is a boolean, a number, an array or an object.
    Other,
}

/// Mathematical form of a [`JsonField`].
pub enum JsonFieldView {
    Absent,
    Null,
    Text(Seq<char>),
    Other,
}

impl View for JsonField {
    type V = JsonFieldView;

    open spec fn view(&self) -> JsonFieldView {
        match *self {
            JsonField::Absent => JsonFieldView::Absent,
            JsonField::Null => JsonFieldView::Null,
            JsonField::Text(text) => JsonFieldView::Text(text@),
            JsonField::Other => JsonFieldView::Other,
        }
    }
}

/// The members of a JSON object: for each name that the object holds, the
/// kind of its value, with the content where the value is a string.
pub uninterp spec fn object_members(object: serde_json::Map<String, serde_json::Value>) -> Map<
    Seq<char>,
    JsonFieldView,
>;

/// The members of the JSON object that `serde_json::from_str` reads from a
/// text, or `None` where it reads no object from it.
pub uninterp spec fn parsed_object(text: Seq<char>) -> Option<Map<Seq<char>, JsonFieldView>>;

/// The text that `serde_json::to_string_pretty` prints for an object whose
/// members are all strings or `null`.
pub uninterp spec fn pretty_text(members: Map<Seq<char>, JsonFieldView>) -> Seq<char>;

/// The members of an object that holds none.
pub open spec fn no_members() -> Map<Seq<char>, JsonFieldView> {
    Map::empty()
}

/// The member of a given name among the members of an object.
pub open spec fn member_of(members: Map<Seq<char>, JsonFieldView>, key: Seq<char>) -> JsonFieldView {
    if members.contains_key(key) {
        members[key]
    } else {
        JsonFieldView::Absent
    }
}

/// Whether every member is a string or `null`.
pub open spec fn holds_texts_only(members: Map<Seq<char>, JsonFieldView>) -> bool {
    forall|key: Seq<char>| #[trigger]
        members.contains_key(key) ==> members[key] is Text || members[key] is Null
}

/// The member that an optional text is stored as: `null` where it is absent.
pub open spec fn text_member(text: Option<Seq<char>>) -> JsonFieldView {
    match text {
        Some(content) => JsonFieldView::Text(content),
        None => JsonFieldView::Null,
    }
}

/// `serde_json::from_str`, reading a `serde_json::Map`: the object that the
/// text holds, or the parser's error. The result is a function of the text
/// alone, which `parsed_object` names.
#[verifier::external_body]
pub(crate) fn parse_object(text: &str) -> (r: Result<
    serde_json::Map<String, serde_json::Value>,
    serde_json::Error,
>)
    ensures
        match r {
            Ok(object) => parsed_object(text@) == Some(object_members(object)),
            Err(_) => parsed_object(text@) is None,
        },
{
    serde_json::from_str::<serde_json::Map<String, serde_json::Value>>(text)
}

/// `serde_json::Map::new`: an object without members.
#[verifier::external_body]
pub(crate) fn new_object() -> (object: serde_json::Map<String, serde_json::Value>)
    ensures
        object_members(object) == no_members(),
{
    serde_json::Map::new()
}

/// `serde_json::Map::insert`, with a string or `null` as the value: the
/// object then holds that value under `key`, in place of what it held under
/// it before, and its other members as before.
#[verifier::external_body]
pub(crate) fn set_member(
    object: &mut serde_json::Map<String, serde_json::Value>,
    key: &str,
    text: Option<&str>,
)
    ensures
        object_members(*final(object)) == object_members(*old(object)).insert(
            key@,
            text_member(
                match text {
                    Some(content) => Some(content@),
                    None => None,
                },
            ),
        ),
{
    let value = match text {
        Some(content) => serde_json::Value::String(content.to_string()),
        None => serde_json::Value::Null,
    };
    object.insert(key.to_string(), value);
}

/// `serde_json::Map::get`: the member of the object under `key`, told apart
/// by the variant of its value.
#[verifier::external_body]
pub(crate) fn member(object: &serde_json::Map<String, serde_json::Value>, key: &str) -> (r:
    JsonField)
    ensures
        r@ == member_of(object_members(*object), key@),
{
    match object.get(key) {
        None => JsonField::Absent,
        Some(serde_json::Value::Null) => JsonField::Null,
        Some(serde_json::Value::String(text)) => JsonField::Text(text.clone()),
        Some(serde_json::Value::Bool(_)) => JsonField::Other,
        Some(serde_json::Value::Number(_)) => JsonField::Other,
        Some(serde_json::Value::Array(_)) => JsonField::Other,
        Some(serde_json::Value::Object(_)) => JsonField::Other,
    }
}

/// `serde_json::to_string_pretty` on an object: the printed text, or the
/// serializer's error. The serializer writes into memory, where no write
/// fails, and a string or `null` gives it no other cause to fail: an object
/// that holds nothing else is always printed. The object's members are kept
/// in the order of their names, so for such an object the text is a function
/// of its members, which `pretty_text` names.
#[verifier::external_body]
pub(crate) fn print_object(object: &serde_json::Map<String, serde_json::Value>) -> (r: Result<
    String,
    serde_json::Error,
>)
    ensures
        holds_texts_only(object_members(*object)) ==> r is Ok,
        r matches Ok(text) ==> (holds_texts_only(object_members(*object)) ==> text@ == pretty_text(
            object_members(*object),
        )),
{
    serde_json::to_string_pretty(object)
}

/// The message of a `serde_json::Error`, as its `Display` writes it.
#[verifier::external_body]
pub(crate) fn error_text(error: &serde_json::Error) -> (r: String) {
    error.to_string()
}

} // verus!
