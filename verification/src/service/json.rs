//! JSON documents as plain trees, and their text.
//!
//! Reading and printing the text is the work of `serde_json`; everything
//! else in the crate works on [`Json`], whose content Verus can see.

use vstd::prelude::*;

verus! {

/// `serde_json::Number`, carried as it comes; nothing is known of its
/// inside.
#[verifier::external_type_specification]
#[verifier::external_body]
pub struct ExNumber(serde_json::Number);

/// `serde_json::Value`, which only the conversions to and from [`Json`]
/// handle.
#[verifier::external_type_specification]
#[verifier::external_body]
pub struct ExValue(serde_json::Value);

/// A JSON document.
///
/// A number that is an unsigned integer of at most 64 bits is held as
/// `Unsigned`; any other number (negative, fractional, with an exponent) is
/// carried as `serde_json` holds it. The members of an object keep the order
/// in which they were given; where a name occurs twice, the later member
/// counts.
#[derive(Debug, PartialEq, Eq)]
pub enum Json {
    Null,
    Bool(bool),
    Unsigned(u64),
    Number(serde_json::Number),
    String(String),
    Array(Vec<Json>),
    Object(Vec<(String, Json)>),
}

/// The mathematical value of a [`Json`].
pub ghost enum JsonView {
    Null,
    Bool(bool),
    Unsigned(u64),
    Number(serde_json::Number),
    String(Seq<char>),
    Array(Seq<JsonView>),
    Object(Seq<(Seq<char>, JsonView)>),
}

/// The value of a document: texts as sequences of characters, arrays and
/// objects as sequences of values.
pub open spec fn json_view(doc: Json) -> JsonView
    decreases doc,
{
    match doc {
        Json::Null => JsonView::Null,
        Json::Bool(b) => JsonView::Bool(b),
        Json::Unsigned(u) => JsonView::Unsigned(u),
        Json::Number(n) => JsonView::Number(n),
        Json::String(s) => JsonView::String(s@),
        Json::Array(items) => JsonView::Array(array_view(items@)),
        Json::Object(members) => JsonView::Object(object_view(members@)),
    }
}

/// The values of a sequence of documents, one for one.
pub open spec fn array_view(items: Seq<Json>) -> Seq<JsonView>
    decreases items,
{
    if items.len() == 0 {
        Seq::empty()
    } else {
        array_view(items.drop_last()).push(json_view(items.last()))
    }
}

/// The values of a sequence of members, one for one.
pub open spec fn object_view(members: Seq<(String, Json)>) -> Seq<(Seq<char>, JsonView)>
    decreases members,
{
    if members.len() == 0 {
        Seq::empty()
    } else {
        object_view(members.drop_last()).push((members.last().0@, json_view(members.last().1)))
    }
}

impl View for Json {
    type V = JsonView;

    open spec fn view(&self) -> JsonView {
        json_view(*self)
    }
}

/// `array_view` works item by item.
pub proof fn lemma_array_view(items: Seq<Json>)
    ensures
        array_view(items).len() == items.len(),
        forall|k: int| 0 <= k < items.len() ==> (#[trigger] array_view(items)[k]) == items[k]@,
    decreases items.len(),
{
    if items.len() > 0 {
        lemma_array_view(items.drop_last());
    }
}

/// `object_view` works member by member.
pub proof fn lemma_object_view(members: Seq<(String, Json)>)
    ensures
        object_view(members).len() == members.len(),
        forall|k: int|
            0 <= k < members.len() ==> (#[trigger] object_view(members)[k]) == (
                members[k].0@,
                members[k].1@,
            ),
    decreases members.len(),
{
    if members.len() > 0 {
        lemma_object_view(members.drop_last());
    }
}

/// Appending an item appends its value.
pub proof fn lemma_array_view_push(items: Seq<Json>, item: Json)
    ensures
        array_view(items.push(item)) == array_view(items).push(item@),
{
    assert(items.push(item).drop_last() =~= items);
}

/// Appending a member appends its value.
pub proof fn lemma_object_view_push(members: Seq<(String, Json)>, member: (String, Json))
    ensures
        object_view(members.push(member)) == object_view(members).push((member.0@, member.1@)),
{
    assert(members.push(member).drop_last() =~= members);
}

/// The value of the last member called `name`, if there is one.
pub open spec fn lookup(members: Seq<(Seq<char>, JsonView)>, name: Seq<char>) -> Option<JsonView>
    decreases members.len(),
{
    if members.len() == 0 {
        None
    } else if members.last().0 == name {
        Some(members.last().1)
    } else {
        lookup(members.drop_last(), name)
    }
}

impl JsonView {
    /// The member `name` of an object; `None` for a document that is no
    /// object or has no such member.
    pub open spec fn member(self, name: Seq<char>) -> Option<JsonView> {
        match self {
            JsonView::Object(members) => lookup(members, name),
            _ => None,
        }
    }
}

/// What `serde_json::from_str::<serde_json::Value>` makes of a text: the
/// document that the text describes, as a tree, or `None` where the text is
/// not one JSON document.
pub uninterp spec fn json_parse(text: Seq<char>) -> Option<JsonView>;

/// The compact text that `serde_json` prints for a document.
pub uninterp spec fn json_text(doc: JsonView) -> Seq<char>;

/// Clones a `serde_json::Number`; the clone is the same number.
#[verifier::external_body]
fn copy_number(number: &serde_json::Number) -> (copy: serde_json::Number)
    ensures
        copy == *number,
{
    number.clone()
}

/// Turns a `serde_json::Value` into the tree it stands for, node for node.
/// A number is `Unsigned` where `Number::as_u64` gives its value, and is
/// carried as `Number` where it gives none; the members of an object come in
/// the order in which `serde_json::Map` hands them out. Nothing is claimed of
/// the result here; `read_text` names what it returns through this function.
#[verifier::external_body]
fn tree_of_value(value: serde_json::Value) -> Json {
    match value {
        serde_json::Value::Null => Json::Null,
        serde_json::Value::Bool(b) => Json::Bool(b),
        serde_json::Value::Number(n) => match n.as_u64() {
            Some(u) => Json::Unsigned(u),
            None => Json::Number(n),
        },
        serde_json::Value::String(s) => Json::String(s),
        serde_json::Value::Array(items) => Json::Array(
            items.into_iter().map(tree_of_value).collect(),
        ),
        serde_json::Value::Object(members) => Json::Object(
            members.into_iter().map(|(name, value)| (name, tree_of_value(value))).collect(),
        ),
    }
}

/// Turns a tree into the `serde_json::Value` that stands for it, node for
/// node. Members go into a `serde_json::Map` by `insert`, in their order, so
/// of two members with one name the later stays. Nothing is claimed of the
/// result here; `print_text` names what it prints of it.
#[verifier::external_body]
fn value_of_tree(doc: &Json) -> serde_json::Value {
    match doc {
        Json::Null => serde_json::Value::Null,
        Json::Bool(b) => serde_json::Value::Bool(*b),
        Json::Unsigned(u) => serde_json::Value::Number(serde_json::Number::from(*u)),
        Json::Number(n) => serde_json::Value::Number(n.clone()),
        Json::String(s) => serde_json::Value::String(s.clone()),
        Json::Array(items) => serde_json::Value::Array(items.iter().map(value_of_tree).collect()),
        Json::Object(members) => {
            let mut map = serde_json::Map::new();
            for member in members {
                map.insert(member.0.clone(), value_of_tree(&member.1));
            }
            serde_json::Value::Object(map)
        },
    }
}

/// Calls `serde_json::from_str::<serde_json::Value>` and drops the error
/// of a failed call. The contract names the outcome: the document is
/// `json_parse` of the text, and there is none exactly where `json_parse`
/// gives none.
#[verifier::external_body]
fn read_text(text: &str) -> (outcome: Option<Json>)
    ensures
        match outcome {
            Some(doc) => json_parse(text@) == Some(doc@),
            None => json_parse(text@) is None,
        },
{
    match serde_json::from_str::<serde_json::Value>(text) {
        Ok(value) => Some(tree_of_value(value)),
        Err(_) => None,
    }
}

/// Prints a document with `serde_json`'s `Display` for `Value`, in the
/// compact form. The contract names the outcome.
#[verifier::external_body]
fn print_text(doc: &Json) -> (text: String)
    ensures
        text@ == json_text(doc@),
{
    value_of_tree(doc).to_string()
}

impl Clone for Json {
    fn clone(&self) -> (copy: Self)
        ensures
            copy@ == self@,
        decreases self,
    {
        match self {
            Json::Null => Json::Null,
            Json::Bool(b) => Json::Bool(*b),
            Json::Unsigned(u) => Json::Unsigned(*u),
            Json::Number(n) => Json::Number(copy_number(n)),
            Json::String(s) => Json::String(s.clone()),
            Json::Array(items) => {
                let mut out: Vec<Json> = Vec::new();
                let mut i: usize = 0;
                while i < items.len()
                    invariant
                        i <= items.len(),
                        decreases_to!(self => items),
                        array_view(out@) == array_view(items@.subrange(0, i as int)),
                    decreases items.len() - i,
                {
                    proof {
                        assert(decreases_to!(items => items[i as int]));
                    }
                    let item = items[i].clone();
                    proof {
                        lemma_array_view_push(out@, item);
                        lemma_array_view_push(items@.subrange(0, i as int), items[i as int]);
                        assert(items@.subrange(0, i as int).push(items[i as int])
                            =~= items@.subrange(0, i + 1));
                    }
                    out.push(item);
                    i += 1;
                }
                assert(items@.subrange(0, i as int) =~= items@);
                Json::Array(out)
            },
            Json::Object(members) => {
                let mut out: Vec<(String, Json)> = Vec::new();
                let mut i: usize = 0;
                while i < members.len()
                    invariant
                        i <= members.len(),
                        decreases_to!(self => members),
                        object_view(out@) == object_view(members@.subrange(0, i as int)),
                    decreases members.len() - i,
                {
                    proof {
                        assert(decreases_to!(members => members[i as int]));
                        assert(decreases_to!(members[i as int] => members[i as int].1));
                    }
                    let member = (members[i].0.clone(), members[i].1.clone());
                    proof {
                        lemma_object_view_push(out@, member);
                        lemma_object_view_push(members@.subrange(0, i as int), members[i as int]);
                        assert(members@.subrange(0, i as int).push(members[i as int])
                            =~= members@.subrange(0, i + 1));
                    }
                    out.push(member);
                    i += 1;
                }
                assert(members@.subrange(0, i as int) =~= members@);
                Json::Object(out)
            },
        }
    }
}

impl Json {
    /// Reads one JSON document from a text. `None` where the text is not
    /// one document.
    pub fn parse(text: &str) -> (doc: Option<Json>)
        ensures
            match doc {
                Some(d) => json_parse(text@) == Some(d@),
                None => json_parse(text@) is None,
            },
    {
        read_text(text)
    }

    /// The compact text of the document.
    pub fn to_text(&self) -> (text: String)
        ensures
            text@ == json_text(self@),
    {
        print_text(self)
    }

    /// The member `name` of an object: the last one of that name. `None`
    /// for a document that is no object or has no such member.
    pub fn get(&self, name: &str) -> (found: Option<&Json>)
        ensures
            match found {
                Some(value) => self@.member(name@) == Some(value@),
                None => self@.member(name@) is None,
            },
    {
        match self {
            Json::Object(members) => {
                let key = name.to_owned();
                let mut i: usize = members.len();
                proof {
                    lemma_object_view(members@);
                    assert(object_view(members@).subrange(0, i as int) =~= object_view(members@));
                }
                while i > 0
                    invariant
                        i <= members.len(),
                        key@ == name@,
                        self@ == JsonView::Object(object_view(members@)),
                        lookup(object_view(members@), name@) == lookup(
                            object_view(members@).subrange(0, i as int),
                            name@,
                        ),
                    decreases i,
                {
                    i -= 1;
                    proof {
                        lemma_object_view(members@);
                        let upto = object_view(members@).subrange(0, i + 1);
                        assert(upto.last() == (members[i as int].0@, members[i as int].1@));
                        assert(upto.drop_last() =~= object_view(members@).subrange(0, i as int));
                    }
                    if members[i].0 == key {
                        return Some(&members[i].1);
                    }
                }
                None
            },
            _ => None,
        }
    }
}

} // verus!
