//! JSON documents: looking strings up in those that others write, and writing
//! those that are printed.
use crate::text::{slice_of, text_of};
use vstd::prelude::*;
use vstd::string::to_string_from_display_ensures;

verus! {

/// A JSON value: a number by the way it is written, an object by the values of
/// its members.
pub enum Tree {
    Null,
    Flag(bool),
    Number(Seq<char>),
    Text(Seq<char>),
    List(Seq<Tree>),
    Object(Map<Seq<char>, Tree>),
}

/// A parsed JSON value of `serde_json`.
#[verifier::external_type_specification]
#[verifier::external_body]
pub struct ExValue(serde_json::Value);

/// An error of `serde_json`.
#[verifier::external_type_specification]
#[verifier::external_body]
pub struct ExError(serde_json::Error);

/// What a value of `serde_json` holds.
pub uninterp spec fn tree_of(value: serde_json::Value) -> Tree;

/// What `serde_json::from_slice` makes of the bytes: a value, or the message of
/// the error.
pub uninterp spec fn parsed_bytes(bytes: Seq<u8>) -> Result<Tree, Seq<char>>;

/// What `serde_json::from_str` makes of the text: a value, or the message of the
/// error.
pub uninterp spec fn parsed_text(text: Seq<char>) -> Result<Tree, Seq<char>>;

/// How `serde_json` writes a value on one line.
pub uninterp spec fn rendered(tree: Tree) -> Seq<char>;

/// The member of an object; no other value has members.
pub open spec fn member_of(tree: Tree, name: Seq<char>) -> Option<Tree> {
    match tree {
        Tree::Object(members) => if members.contains_key(name) {
            Some(members[name])
        } else {
            None
        },
        _ => None,
    }
}

/// The text of a value that is a text.
pub open spec fn text_in(tree: Tree) -> Option<Seq<char>> {
    match tree {
        Tree::Text(text) => Some(text),
        _ => None,
    }
}

/// The text of a member.
pub open spec fn text_at(tree: Tree, name: Seq<char>) -> Option<Seq<char>> {
    match member_of(tree, name) {
        Some(found) => text_in(found),
        None => None,
    }
}

/// The text of a member of a member.
pub open spec fn text_below(tree: Tree, outer: Seq<char>, inner: Seq<char>) -> Option<Seq<char>> {
    match member_of(tree, outer) {
        Some(found) => text_at(found, inner),
        None => None,
    }
}

/// A text, or null where there is none.
pub open spec fn text_or_null(text: Option<Seq<char>>) -> Tree {
    match text {
        Some(text) => Tree::Text(text),
        None => Tree::Null,
    }
}

/// The members with their names; of two with one name the later counts.
pub open spec fn members_of(fields: Seq<(Seq<char>, Tree)>) -> Map<Seq<char>, Tree>
    decreases fields.len(),
{
    if fields.len() == 0 {
        Map::empty()
    } else {
        members_of(fields.drop_last()).insert(fields.last().0, fields.last().1)
    }
}

/// The object with the given members.
pub open spec fn object_of(fields: Seq<(Seq<char>, Tree)>) -> Tree {
    Tree::Object(members_of(fields))
}

/// The values of a list.
pub open spec fn trees(values: Seq<serde_json::Value>) -> Seq<Tree> {
    values.map_values(|value: serde_json::Value| tree_of(value))
}

/// The names and values of a list of members.
pub open spec fn fields_of(fields: Seq<(String, serde_json::Value)>) -> Seq<(Seq<char>, Tree)> {
    fields.map_values(|field: (String, serde_json::Value)| (field.0@, tree_of(field.1)))
}

/// Trusts `serde_json::from_slice`: whether it succeeds, the value and the
/// message of the error depend on the bytes alone.
#[verifier::external_body]
fn from_slice(bytes: &[u8]) -> (result: Result<serde_json::Value, serde_json::Error>)
    ensures
        match result {
            Ok(value) => parsed_bytes(bytes@) == Ok::<Tree, Seq<char>>(tree_of(value)),
            Err(error) => parsed_bytes(bytes@) is Err && forall|message: String|
                to_string_from_display_ensures::<serde_json::Error>(&error, message)
                    ==> parsed_bytes(bytes@) == Err::<Tree, Seq<char>>(message@),
        },
{
    serde_json::from_slice(bytes)
}

/// Trusts `serde_json::from_str`: whether it succeeds, the value and the message
/// of the error depend on the text alone.
#[verifier::external_body]
fn from_str(text: &str) -> (result: Result<serde_json::Value, serde_json::Error>)
    ensures
        match result {
            Ok(value) => parsed_text(text@) == Ok::<Tree, Seq<char>>(tree_of(value)),
            Err(error) => parsed_text(text@) is Err && forall|message: String|
                to_string_from_display_ensures::<serde_json::Error>(&error, message)
                    ==> parsed_text(text@) == Err::<Tree, Seq<char>>(message@),
        },
{
    serde_json::from_str(text)
}

/// Trusts `serde_json::Value::get` with a string: it gives the member of that
/// name of an object, and nothing of any other value.
#[verifier::external_body]
fn get<'a>(value: &'a serde_json::Value, member: &str) -> (result: Option<&'a serde_json::Value>)
    ensures
        member_of(tree_of(*value), member@) == match result {
            Some(found) => Some(tree_of(*found)),
            None => None,
        },
{
    value.get(member)
}

/// Trusts `serde_json::Value::as_str`: it gives the text of a text, and nothing
/// of any other value.
#[verifier::external_body]
fn as_str<'a>(value: &'a serde_json::Value) -> (result: Option<&'a str>)
    ensures
        slice_of(result) == text_in(tree_of(*value)),
{
    value.as_str()
}

/// Trusts `serde_json::Value::from` on a slice of text: it makes a text of it.
#[verifier::external_body]
pub(crate) fn text_value(text: &str) -> (result: serde_json::Value)
    ensures
        tree_of(result) == Tree::Text(text@),
{
    serde_json::Value::from(text)
}

/// Trusts `serde_json::Value::from` on a truth value: it makes a flag of it.
#[verifier::external_body]
pub(crate) fn flag_value(flag: bool) -> (result: serde_json::Value)
    ensures
        tree_of(result) == Tree::Flag(flag),
{
    serde_json::Value::from(flag)
}

/// Trusts `serde_json::Value::from` on the unit value: it gives null.
#[verifier::external_body]
fn null_value() -> (result: serde_json::Value)
    ensures
        tree_of(result) == Tree::Null,
{
    serde_json::Value::from(())
}

/// Trusts `serde_json::Value::from` on a vector: it makes a list of the values,
/// in their order.
#[verifier::external_body]
pub(crate) fn list_value(values: Vec<serde_json::Value>) -> (result: serde_json::Value)
    ensures
        tree_of(result) == Tree::List(trees(values@)),
{
    serde_json::Value::from(values)
}

/// The members of an object; null has none yet.
pub open spec fn members_in(tree: Tree) -> Map<Seq<char>, Tree> {
    match tree {
        Tree::Object(members) => members,
        _ => Map::empty(),
    }
}

/// Trusts the assignment through `IndexMut` of `serde_json::Value` with a
/// string: it gives an object the member of that name, in place of one that it
/// had, and makes an object of null first. On any other value it panics.
#[verifier::external_body]
fn with_member(value: serde_json::Value, name: &str, member: serde_json::Value) -> (result:
    serde_json::Value)
    requires
        tree_of(value) is Null || tree_of(value) is Object,
    ensures
        tree_of(result) == Tree::Object(
            members_in(tree_of(value)).insert(name@, tree_of(member)),
        ),
{
    let mut result = value;
    result[name] = member;
    result
}

/// The object with the given members.
pub(crate) fn object_value(fields: Vec<(String, serde_json::Value)>) -> (result: serde_json::Value)
    requires
        fields@.len() > 0,
    ensures
        tree_of(result) == object_of(fields_of(fields@)),
{
    let ghost all = fields_of(fields@);
    let mut rest = fields;
    let mut result = null_value();
    let ghost mut done: int = 0;
    assert(all.take(0) =~= Seq::empty());
    assert(all.skip(0) =~= all);
    while rest.len() > 0
        invariant
            0 <= done <= all.len(),
            all.len() > 0,
            fields_of(rest@) == all.skip(done),
            tree_of(result) is Null || tree_of(result) is Object,
            done > 0 ==> tree_of(result) is Object,
            members_in(tree_of(result)) == members_of(all.take(done)),
        decreases rest@.len(),
    {
        let ghost before = rest@;
        assert(fields_of(before).len() == before.len());
        assert(done < all.len());
        let (name, member) = rest.remove(0);
        assert(fields_of(before)[0] == (name@, tree_of(member)));
        assert(all.skip(done)[0] == all[done]);
        result = with_member(result, name.as_str(), member);
        assert(all.take(done + 1).drop_last() =~= all.take(done));
        assert(fields_of(rest@) =~= fields_of(before).drop_first());
        assert(fields_of(rest@) =~= all.skip(done + 1));
        proof {
            done = done + 1;
        }
    }
    assert(all.take(done) =~= all);
    result
}

/// Trusts the `Display` of `serde_json::Value`, which writes the value on one
/// line: the text depends on what the value holds alone.
#[verifier::external_body]
pub(crate) fn write_value(value: &serde_json::Value) -> (result: String)
    ensures
        result@ == rendered(tree_of(*value)),
{
    value.to_string()
}

/// A text, or null where there is none.
pub(crate) fn optional_value(text: &Option<String>) -> (result: serde_json::Value)
    ensures
        tree_of(result) == text_or_null(text_of(*text)),
{
    match text {
        Some(text) => text_value(text.as_str()),
        None => null_value(),
    }
}

/// A list of texts.
pub(crate) fn texts_value(list: &[&str]) -> (result: serde_json::Value)
    ensures
        tree_of(result) == Tree::List(list@.map_values(|text: &str| Tree::Text(text@))),
{
    let ghost wanted = list@.map_values(|text: &str| Tree::Text(text@));
    let mut values: Vec<serde_json::Value> = Vec::new();
    for i in 0..list.len()
        invariant
            wanted == list@.map_values(|text: &str| Tree::Text(text@)),
            trees(values@) == wanted.take(i as int),
    {
        let ghost before = trees(values@);
        values.push(text_value(list[i]));
        assert(trees(values@) =~= before.push(wanted[i as int]));
        assert(wanted.take(i + 1) =~= before.push(wanted[i as int]));
    }
    assert(wanted.take(list@.len() as int) =~= wanted);
    list_value(values)
}

/// A document, read so far as to look its texts up.
pub struct Document {
    value: serde_json::Value,
}

impl View for Document {
    type V = Tree;

    closed spec fn view(&self) -> Tree {
        tree_of(self.value)
    }
}

/// A document as mathematical values, or the message of the error.
pub open spec fn document_of(result: Result<Document, String>) -> Result<Tree, Seq<char>> {
    match result {
        Ok(document) => Ok(document@),
        Err(message) => Err(message@),
    }
}

impl Document {
    /// Reads the document that the bytes hold.
    pub fn from_bytes(bytes: &[u8]) -> (result: Result<Document, String>)
        ensures
            document_of(result) == parsed_bytes(bytes@),
    {
        match from_slice(bytes) {
            Ok(value) => Ok(Document { value }),
            Err(error) => Err(error.to_string()),
        }
    }

    /// Reads the document that the text holds.
    pub fn from_text(text: &str) -> (result: Result<Document, String>)
        ensures
            document_of(result) == parsed_text(text@),
    {
        match from_str(text) {
            Ok(value) => Ok(Document { value }),
            Err(error) => Err(error.to_string()),
        }
    }

    /// The text of a member.
    pub fn string<'a>(&'a self, member: &str) -> (result: Option<&'a str>)
        ensures
            slice_of(result) == text_at(self@, member@),
    {
        match get(&self.value, member) {
            Some(found) => as_str(found),
            None => None,
        }
    }

    /// The text of a member of a member.
    pub fn nested_string<'a>(&'a self, outer: &str, inner: &str) -> (result: Option<&'a str>)
        ensures
            slice_of(result) == text_below(self@, outer@, inner@),
    {
        match get(&self.value, outer) {
            Some(found) => match get(found, inner) {
                Some(found) => as_str(found),
                None => None,
            },
            None => None,
        }
    }
}

} // verus!
