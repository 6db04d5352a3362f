//! JSON values as the codec reads them, and the calls into `serde_json`
//! that turn text into such a value and a string into its JSON literal.

use vstd::prelude::*;
use crate::text::same_text;

verus! {

/// A JSON value. A number is held as the unsigned 64-bit integer that it
/// is, where it is one; an object as its members in the order in which the
/// parser lists them.
#[derive(Debug, PartialEq, Eq)]
pub enum Json {
    Null,
    Bool(bool),
    Number(Option<u64>),
    Text(String),
    List(Vec<Json>),
    Object(Vec<(String, Json)>),
}

/// The mathematical value of a [`Json`].
pub enum JsonView {
    Null,
    Bool(bool),
    Number(Option<u64>),
    Text(Seq<char>),
    List(Seq<JsonView>),
    Object(Seq<(Seq<char>, JsonView)>),
}

impl View for Json {
    type V = JsonView;

    open spec fn view(&self) -> JsonView
        decreases self,
    {
        match self {
            Json::Null => JsonView::Null,
            Json::Bool(b) => JsonView::Bool(*b),
            Json::Number(n) => JsonView::Number(*n),
            Json::Text(s) => JsonView::Text(s@),
            Json::List(items) => JsonView::List(
                Seq::new(
                    items@.len(),
                    |i: int|
                        if 0 <= i < items@.len() {
                            items@[i]@
                        } else {
                            JsonView::Null
                        },
                ),
            ),
            Json::Object(members) => JsonView::Object(
                Seq::new(
                    members@.len(),
                    |i: int|
                        if 0 <= i < members@.len() {
                            (members@[i].0@, members@[i].1@)
                        } else {
                            (Seq::empty(), JsonView::Null)
                        },
                ),
            ),
        }
    }
}

/// The view of a list holds the views of its items, in order.
pub proof fn lemma_list_view(items: Vec<Json>)
    ensures
        Json::List(items)@ matches JsonView::List(views) && views.len() == items@.len() && forall|
            i: int,
        |
            0 <= i < views.len() ==> #[trigger] views[i] == items@[i]@,
{
    reveal_with_fuel(<Json as View>::view, 2);
}

/// The view of an object holds the names and the views of its members, in
/// order.
pub proof fn lemma_object_view(members: Vec<(String, Json)>)
    ensures
        Json::Object(members)@ matches JsonView::Object(views) && views.len() == members@.len()
            && forall|i: int|
            0 <= i < views.len() ==> #[trigger] views[i] == (members@[i].0@, members@[i].1@),
{
    reveal_with_fuel(<Json as View>::view, 2);
}

/// The value of the first member named `key`, if there is one.
pub open spec fn member(members: Seq<(Seq<char>, JsonView)>, key: Seq<char>) -> Option<JsonView>
    decreases members.len(),
{
    if members.len() == 0 {
        None
    } else if members[0].0 == key {
        Some(members[0].1)
    } else {
        member(members.drop_first(), key)
    }
}

/// A member is found by its name where no member before it has that name.
pub proof fn lemma_member_at(members: Seq<(Seq<char>, JsonView)>, key: Seq<char>, i: int)
    requires
        0 <= i < members.len(),
        members[i].0 == key,
        forall|j: int| 0 <= j < i ==> (#[trigger] members[j]).0 != key,
    ensures
        member(members, key) == Some(members[i].1),
    decreases i,
{
    if i > 0 {
        let rest = members.drop_first();
        lemma_member_at(rest, key, i - 1);
    }
}

/// No member is found by a name that no member has.
pub proof fn lemma_member_missing(members: Seq<(Seq<char>, JsonView)>, key: Seq<char>)
    requires
        forall|j: int| 0 <= j < members.len() ==> (#[trigger] members[j]).0 != key,
    ensures
        member(members, key) is None,
    decreases members.len(),
{
    if members.len() > 0 {
        let rest = members.drop_first();
        lemma_member_missing(rest, key);
    }
}

/// A member of another name, put in anywhere, changes nothing about what
/// is found by a name.
pub proof fn lemma_member_inserted(
    members: Seq<(Seq<char>, JsonView)>,
    i: int,
    name: Seq<char>,
    value: JsonView,
    key: Seq<char>,
)
    requires
        0 <= i <= members.len(),
        name != key,
    ensures
        member(members.insert(i, (name, value)), key) == member(members, key),
    decreases members.len(),
{
    let inserted = members.insert(i, (name, value));
    if i == 0 {
        assert(inserted.drop_first() =~= members);
    } else {
        assert(inserted[0] == members[0]);
        if members[0].0 != key {
            assert(inserted.drop_first() =~= members.drop_first().insert(i - 1, (name, value)));
            lemma_member_inserted(members.drop_first(), i - 1, name, value, key);
        }
    }
}

impl JsonView {
    /// The JSON value of an optional text: the string, or null.
    pub open spec fn optional(text: Option<Seq<char>>) -> JsonView {
        match text {
            Some(s) => JsonView::Text(s),
            None => JsonView::Null,
        }
    }

    /// The value of the member named `key`, where the value is an object
    /// that has one.
    pub open spec fn field(self, key: Seq<char>) -> Option<JsonView> {
        match self {
            JsonView::Object(members) => member(members, key),
            _ => None,
        }
    }

    /// The text held by the member named `key`, where the value is an
    /// object whose member of that name is a string.
    pub open spec fn text_field(self, key: Seq<char>) -> Option<Seq<char>> {
        match self.field(key) {
            Some(JsonView::Text(s)) => Some(s),
            _ => None,
        }
    }

    /// The text held by an optional member: `Some(None)` where the member
    /// is missing or null, `Some(Some(..))` where it is a string, and
    /// `None` where it is anything else.
    pub open spec fn optional_text_field(self, key: Seq<char>) -> Option<Option<Seq<char>>> {
        match self.field(key) {
            None => Some(None),
            Some(JsonView::Null) => Some(None),
            Some(JsonView::Text(s)) => Some(Some(s)),
            _ => None,
        }
    }
}

/// `serde_json::Value`, of which nothing is known here but what
/// [`value_model`] names.
#[verifier::external_type_specification]
#[verifier::external_body]
pub struct ExValue(serde_json::Value);

/// What `serde_json` makes of a text: the value that it reads, or the
/// message with which it rejects the text.
pub uninterp spec fn parsed_json(text: Seq<char>) -> Result<JsonView, Seq<char>>;

/// What a `serde_json::Value` holds.
pub uninterp spec fn value_model(value: serde_json::Value) -> JsonView;

/// The JSON string literal that `serde_json` writes for a text: the text
/// between double quotes, with escapes where JSON asks for them.
pub uninterp spec fn quoted_json(text: Seq<char>) -> Seq<char>;

/// `serde_json::from_str` at the type `serde_json::Value`, with the error
/// turned into its message. What comes back depends on the text alone;
/// the contract gives it its name.
#[verifier::external_body]
fn parse_value(text: &str) -> (r: Result<serde_json::Value, String>)
    ensures
        match r {
            Ok(value) => parsed_json(text@) == Ok::<JsonView, Seq<char>>(value_model(value)),
            Err(message) => parsed_json(text@) == Err::<JsonView, Seq<char>>(message@),
        },
{
    match serde_json::from_str::<serde_json::Value>(text) {
        Ok(value) => Ok(value),
        Err(error) => Err(error.to_string()),
    }
}

/// Moves a `serde_json::Value` into a [`Json`], variant by variant. A
/// number goes through `Number::as_u64`; the members of an object come in
/// the order of the map's iterator.
#[verifier::external_body]
fn lift(value: serde_json::Value) -> (r: Json)
    ensures
        r@ == value_model(value),
{
    match value {
        serde_json::Value::Null => Json::Null,
        serde_json::Value::Bool(b) => Json::Bool(b),
        serde_json::Value::Number(n) => Json::Number(n.as_u64()),
        serde_json::Value::String(s) => Json::Text(s),
        serde_json::Value::Array(items) => Json::List(items.into_iter().map(lift).collect()),
        serde_json::Value::Object(members) => Json::Object(
            members.into_iter().map(|(k, v)| (k, lift(v))).collect(),
        ),
    }
}

/// `serde_json::to_string` on a string slice. The call returns `Ok` on
/// every string: the serializer writes a string into a vector in memory,
/// which takes every byte, and fails only where a value of another type
/// refuses to be written. What it returns depends on the text alone; the
/// contract gives the literal its name.
#[verifier::external_body]
fn quote_text(text: &str) -> (r: Result<String, String>)
    ensures
        match r {
            Ok(literal) => literal@ == quoted_json(text@),
            Err(_) => false,
        },
{
    match serde_json::to_string(text) {
        Ok(literal) => Ok(literal),
        Err(error) => Err(error.to_string()),
    }
}

/// Reads a JSON text. The error is the parser's message.
pub fn parse(text: &str) -> (r: Result<Json, String>)
    ensures
        match r {
            Ok(value) => parsed_json(text@) == Ok::<JsonView, Seq<char>>(value@),
            Err(message) => parsed_json(text@) == Err::<JsonView, Seq<char>>(message@),
        },
{
    match parse_value(text) {
        Ok(value) => Ok(lift(value)),
        Err(message) => Err(message),
    }
}

/// Writes a text as a JSON string literal.
pub fn quote(text: &str) -> (r: String)
    ensures
        r@ == quoted_json(text@),
{
    match quote_text(text) {
        Ok(literal) => literal,
        Err(_) => vstd::pervasive::unreached(),
    }
}

impl Json {
    /// The value of the member named `key`, where this is an object that
    /// has one.
    pub fn get(&self, key: &str) -> (r: Option<&Json>)
        ensures
            match r {
                Some(value) => self@.field(key@) == Some(value@),
                None => self@.field(key@) is None,
            },
    {
        match self {
            Json::Object(members) => {
                let ghost all = self@->Object_0;
                let mut i: usize = 0;
                proof {
                    lemma_object_view(*members);
                }
                assert(all.skip(0) =~= all);
                while i < members.len()
                    invariant
                        i <= members.len(),
                        all.len() == members.len(),
                        self@ == JsonView::Object(all),
                        forall|j: int|
                            0 <= j < all.len() ==> #[trigger] all[j] == (
                                members@[j].0@,
                                members@[j].1@,
                            ),
                        member(all, key@) == member(all.skip(i as int), key@),
                    decreases members.len() - i,
                {
                    assert(all.skip(i as int).drop_first() =~= all.skip(i + 1));
                    if same_text(members[i].0.as_str(), key) {
                        return Some(&members[i].1);
                    }
                    i += 1;
                }
                None
            },
            _ => None,
        }
    }

    /// The text of a string.
    pub fn as_text(&self) -> (r: Option<&String>)
        ensures
            match r {
                Some(s) => self@ == JsonView::Text(s@),
                None => !(self@ is Text),
            },
    {
        match self {
            Json::Text(s) => Some(s),
            _ => None,
        }
    }

    /// A copy of the text held by the member named `key`.
    pub fn text_field(&self, key: &str) -> (r: Option<String>)
        ensures
            match r {
                Some(s) => self@.text_field(key@) == Some(s@),
                None => self@.text_field(key@) is None,
            },
    {
        match self.get(key) {
            Some(Json::Text(s)) => Some(s.clone()),
            _ => None,
        }
    }

    /// A copy of the text held by an optional member.
    pub fn optional_text_field(&self, key: &str) -> (r: Option<Option<String>>)
        ensures
            match r {
                Some(Some(s)) => self@.optional_text_field(key@) == Some(Some(s@)),
                Some(None) => self@.optional_text_field(key@) == Some(None::<Seq<char>>),
                None => self@.optional_text_field(key@) is None,
            },
    {
        match self.get(key) {
            None => Some(None),
            Some(Json::Null) => Some(None),
            Some(Json::Text(s)) => Some(Some(s.clone())),
            _ => None,
        }
    }
}

} // verus!
