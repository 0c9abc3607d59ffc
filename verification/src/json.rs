//! JSON values as the control channel reads and writes them.

use vstd::prelude::*;

use crate::text::same;

verus! {

/// A JSON value.
#[derive(Debug, PartialEq, Eq)]
pub enum JsonValue {
    Null,
    Bool(bool),
    Unsigned(u64),
    Negative(i64),
    Fraction(String),
    Text(String),
    Array(Vec<JsonValue>),
    Object(Vec<(String, JsonValue)>),
}

/// What a JSON value holds. A number with a fraction or an exponent is kept as it prints.
pub enum JsonModel {
    Null,
    Bool(bool),
    Unsigned(u64),
    Negative(i64),
    Fraction(Seq<char>),
    Text(Seq<char>),
    Array(Seq<JsonModel>),
    Object(Seq<(Seq<char>, JsonModel)>),
}

impl View for JsonValue {
    type V = JsonModel;

    open spec fn view(&self) -> JsonModel {
        model(*self)
    }
}

/// What a JSON value holds.
pub open spec fn model(value: JsonValue) -> JsonModel
    decreases value,
{
    match value {
        JsonValue::Null => JsonModel::Null,
        JsonValue::Bool(b) => JsonModel::Bool(b),
        JsonValue::Unsigned(n) => JsonModel::Unsigned(n),
        JsonValue::Negative(n) => JsonModel::Negative(n),
        JsonValue::Fraction(text) => JsonModel::Fraction(text@),
        JsonValue::Text(text) => JsonModel::Text(text@),
        JsonValue::Array(items) => JsonModel::Array(
            Seq::new(
                items@.len(),
                |i: int|
                    if 0 <= i < items@.len() {
                        model(items@[i])
                    } else {
                        JsonModel::Null
                    },
            ),
        ),
        JsonValue::Object(entries) => JsonModel::Object(
            Seq::new(
                entries@.len(),
                |i: int|
                    if 0 <= i < entries@.len() {
                        (entries@[i].0@, model(entries@[i].1))
                    } else {
                        (Seq::empty(), JsonModel::Null)
                    },
            ),
        ),
    }
}


/// `serde_json::Value`, which the library takes apart into its own values.
#[verifier::external_type_specification]
#[verifier::external_body]
pub struct ExValue(serde_json::Value);

/// What `serde_json` makes of a text: the value it spells, or why it spells none.
pub uninterp spec fn json_parsed(text: Seq<char>) -> Result<JsonModel, Seq<char>>;

/// How `serde_json` writes a value, on one line and without spaces.
pub uninterp spec fn json_text(value: JsonModel) -> Seq<char>;

/// `serde_json::Value` and `serde_json::Number` by their variants, field by field. An object keeps
/// the order of its entries.
#[verifier::external_body]
fn from_outside(value: serde_json::Value) -> (result: JsonValue) {
    match value {
        serde_json::Value::Null => JsonValue::Null,
        serde_json::Value::Bool(b) => JsonValue::Bool(b),
        serde_json::Value::Number(n) => match (n.as_u64(), n.as_i64()) {
            (Some(n), _) => JsonValue::Unsigned(n),
            (None, Some(n)) => JsonValue::Negative(n),
            (None, None) => JsonValue::Fraction(n.to_string()),
        },
        serde_json::Value::String(text) => JsonValue::Text(text),
        serde_json::Value::Array(items) => JsonValue::Array(items.into_iter().map(from_outside).collect()),
        serde_json::Value::Object(map) => JsonValue::Object(map.into_iter().map(|(k, v)| (k, from_outside(v))).collect()),
    }
}

/// The same value as a `serde_json::Value`.
#[verifier::external_body]
fn to_outside(value: &JsonValue) -> (result: serde_json::Value) {
    match value {
        JsonValue::Null => serde_json::Value::Null,
        JsonValue::Bool(b) => serde_json::Value::from(*b),
        JsonValue::Unsigned(n) => serde_json::Value::from(*n),
        JsonValue::Negative(n) => serde_json::Value::from(*n),
        JsonValue::Fraction(text) => serde_json::from_str(text).unwrap_or(serde_json::Value::Null),
        JsonValue::Text(text) => serde_json::Value::from(text.as_str()),
        JsonValue::Array(items) => serde_json::Value::Array(items.iter().map(to_outside).collect()),
        JsonValue::Object(entries) => serde_json::Value::Object(entries.iter().map(|(k, v)| (k.clone(), to_outside(v))).collect()),
    }
}

/// `serde_json::from_str` into a `serde_json::Value`: the value that a text spells, or the error in
/// words. Both depend on the text alone.
#[verifier::external_body]
pub(crate) fn decode_json(text: &str) -> (result: Result<JsonValue, String>)
    ensures
        match result {
            Ok(value) => json_parsed(text@) == Ok::<JsonModel, Seq<char>>(value@),
            Err(message) => json_parsed(text@) == Err::<JsonModel, Seq<char>>(message@),
        },
{
    serde_json::from_str::<serde_json::Value>(text).map(from_outside).map_err(|error| error.to_string())
}

/// Whether a value is spelled in one way only: it holds no fraction, every object's keys differ, a
/// negative number is below zero, and it nests at most `depth` deep.
pub open spec fn is_plain(value: JsonModel, depth: nat) -> bool
    decreases depth,
{
    match value {
        JsonModel::Fraction(_) => false,
        JsonModel::Negative(n) => n < 0,
        JsonModel::Array(items) => depth > 0 && forall|i: int|
            0 <= i < items.len() ==> is_plain(#[trigger] items[i], (depth - 1) as nat),
        JsonModel::Object(entries) => {
            &&& depth > 0
            &&& forall|i: int|
                0 <= i < entries.len() ==> is_plain((#[trigger] entries[i]).1, (depth - 1) as nat)
            &&& forall|i: int, j: int|
                0 <= i < j < entries.len() ==> (#[trigger] entries[i]).0 != (
                #[trigger] entries[j]).0
        },
        _ => true,
    }
}

/// `serde_json::Value::to_string`: the value on one line. A plain value that nests at most 64 deep
/// parses back to itself, with or without a line break behind it; the parser gives up beyond a depth
/// of 127.
#[verifier::external_body]
pub(crate) fn encode_json(value: &JsonValue) -> (text: String)
    ensures
        text@ == json_text(value@),
        is_plain(value@, 64) ==> (json_parsed(text@) == Ok::<JsonModel, Seq<char>>(value@)),
        is_plain(value@, 64) ==> (json_parsed(text@.push('\n')) == Ok::<JsonModel, Seq<char>>(
            value@,
        )),
{
    to_outside(value).to_string()
}

/// How `serde_json` writes a value over several lines, or why it does not.
pub uninterp spec fn json_pretty(value: JsonModel) -> Result<Seq<char>, Seq<char>>;

/// `serde_json::to_string_pretty`: the value over several lines, or the error in words. Both depend on
/// the value alone. A plain value that nests at most 64 deep parses back to itself.
#[verifier::external_body]
pub(crate) fn encode_json_pretty(value: &JsonValue) -> (result: Result<String, String>)
    ensures
        match result {
            Ok(text) => json_pretty(value@) == Ok::<Seq<char>, Seq<char>>(text@) && (is_plain(
                value@,
                64,
            ) ==> json_parsed(text@) == Ok::<JsonModel, Seq<char>>(value@)),
            Err(message) => json_pretty(value@) == Err::<Seq<char>, Seq<char>>(message@),
        },
{
    serde_json::to_string_pretty(&to_outside(value)).map_err(|error| error.to_string())
}

/// What `serde_json` says of a value that is no text; nothing of one that is.
pub uninterp spec fn json_text_error(value: JsonModel) -> Seq<char>;

/// `serde_json::from_value` into a `String`: the error in words, or nothing where there is none. It
/// depends on the value alone.
#[verifier::external_body]
pub(crate) fn text_error(value: &JsonValue) -> (result: String)
    ensures
        result@ == json_text_error(value@),
{
    serde_json::from_value::<String>(to_outside(value)).err().map(|error| error.to_string()).unwrap_or_default()
}

/// What `serde_json` makes of a value as an optional count, where a count is at most `max`: the count,
/// or why it is none.
pub uninterp spec fn json_count(value: JsonModel, max: nat) -> Result<Option<usize>, Seq<char>>;

/// Whether a value is no count on any machine: a truth value, a text, a list, an object or a number
/// below zero.
pub open spec fn is_no_count(value: JsonModel) -> bool {
    match value {
        JsonModel::Bool(_) | JsonModel::Text(_) | JsonModel::Array(_) | JsonModel::Object(_) => true,
        JsonModel::Negative(n) => n < 0,
        _ => false,
    }
}

/// `serde_json::from_value` into an `Option<usize>`: the count or nothing, or the error in words. All
/// of it depends on the value and on how far the machine counts. What is no count on any
/// machine is an error.
#[verifier::external_body]
pub(crate) fn optional_count(value: &JsonValue) -> (result: Result<Option<usize>, String>)
    ensures
        match result {
            Ok(count) => json_count(value@, usize::MAX as nat) == Ok::<Option<usize>, Seq<char>>(
                count,
            ),
            Err(message) => json_count(value@, usize::MAX as nat) == Err::<
                Option<usize>,
                Seq<char>,
            >(message@),
        },
        is_no_count(value@) ==> result is Err,
{
    serde_json::from_value::<Option<usize>>(to_outside(value)).map_err(|error| error.to_string())
}

/// A text as a JSON value.
pub fn json_string(text: &str) -> (result: JsonValue)
    ensures
        result@ == JsonModel::Text(text@),
{
    JsonValue::Text(text.to_owned())
}

/// A possibly negative number as a JSON value.
pub open spec fn number_model(n: int) -> JsonModel {
    if n < 0 {
        JsonModel::Negative(n as i64)
    } else {
        JsonModel::Unsigned(n as u64)
    }
}

/// A possibly negative number as a JSON value.
pub fn json_number(n: i32) -> (result: JsonValue)
    ensures
        result@ == number_model(n as int),
{
    if n < 0 {
        JsonValue::Negative(n as i64)
    } else {
        JsonValue::Unsigned(n as u64)
    }
}

/// An optional text: the text, or null.
pub open spec fn optional_text_model(text: Option<String>) -> JsonModel {
    match text {
        Some(text) => JsonModel::Text(text@),
        None => JsonModel::Null,
    }
}

/// An optional text as a JSON value: the text, or null.
pub fn json_optional_text(text: &Option<String>) -> (result: JsonValue)
    ensures
        result@ == optional_text_model(*text),
{
    match text {
        Some(text) => json_string(text.as_str()),
        None => JsonValue::Null,
    }
}

/// An object under construction.
pub struct JsonObject {
    entries: Vec<(String, JsonValue)>,
}

impl JsonObject {
    /// The entries so far, in order.
    pub closed spec fn entries(&self) -> Seq<(Seq<char>, JsonModel)> {
        Seq::new(self.entries@.len(), |i: int| (self.entries@[i].0@, self.entries@[i].1@))
    }

    pub fn new() -> (result: Self)
        ensures
            result.entries() == Seq::<(Seq<char>, JsonModel)>::empty(),
    {
        let result = JsonObject { entries: Vec::new() };
        proof {
            assert(result.entries() =~= Seq::empty());
        }
        result
    }

    /// The object with one more entry behind the others.
    pub fn with(self, key: &str, value: JsonValue) -> (result: Self)
        ensures
            result.entries() == self.entries().push((key@, value@)),
    {
        let mut entries = self.entries;
        entries.push((key.to_owned(), value));
        let result = JsonObject { entries };
        proof {
            assert(result.entries() =~= self.entries().push((key@, value@)));
        }
        result
    }

    /// The finished object.
    pub fn done(self) -> (result: JsonValue)
        ensures
            result@ == JsonModel::Object(self.entries()),
    {
        let result = JsonValue::Object(self.entries);
        proof {
            assert(result@->Object_0 =~= self.entries());
        }
        result
    }
}

/// An array under construction.
pub struct JsonArray {
    items: Vec<JsonValue>,
}

impl JsonArray {
    /// The items so far, in order.
    pub closed spec fn items(&self) -> Seq<JsonModel> {
        Seq::new(self.items@.len(), |i: int| self.items@[i]@)
    }

    pub fn new() -> (result: Self)
        ensures
            result.items() == Seq::<JsonModel>::empty(),
    {
        let result = JsonArray { items: Vec::new() };
        proof {
            assert(result.items() =~= Seq::empty());
        }
        result
    }

    /// Add one item behind the others.
    pub fn push(&mut self, value: JsonValue)
        ensures
            final(self).items() == old(self).items().push(value@),
    {
        self.items.push(value);
        proof {
            assert(self.items() =~= old(self).items().push(value@));
        }
    }

    /// The finished array.
    pub fn done(self) -> (result: JsonValue)
        ensures
            result@ == JsonModel::Array(self.items()),
    {
        let result = JsonValue::Array(self.items);
        proof {
            assert(result@->Array_0 =~= self.items());
        }
        result
    }
}

/// The value of an object's first entry with a key.
pub open spec fn entry(entries: Seq<(Seq<char>, JsonModel)>, key: Seq<char>) -> Option<JsonModel>
    decreases entries.len(),
{
    if entries.len() == 0 {
        None
    } else if entries[0].0 == key {
        Some(entries[0].1)
    } else {
        entry(entries.drop_first(), key)
    }
}

/// The value under a key, where a value is an object that has it.
pub open spec fn field(value: JsonModel, key: Seq<char>) -> Option<JsonModel> {
    match value {
        JsonModel::Object(entries) => entry(entries, key),
        _ => None,
    }
}

/// The text under a key, where there is one.
pub open spec fn text_field(value: JsonModel, key: Seq<char>) -> Option<Seq<char>> {
    match field(value, key) {
        Some(JsonModel::Text(text)) => Some(text),
        _ => None,
    }
}

impl JsonValue {
    /// The value under a key, where this is an object that has it.
    pub fn get(&self, key: &str) -> (result: Option<&JsonValue>)
        ensures
            match result {
                Some(value) => field(self@, key@) == Some(value@),
                None => field(self@, key@) is None,
            },
    {
        match self {
            JsonValue::Object(entries) => {
                let ghost all = self@->Object_0;
                let mut i: usize = 0;
                proof {
                    assert(all.subrange(0, all.len() as int) =~= all);
                }
                while i < entries.len()
                    invariant
                        i <= entries@.len(),
                        all.len() == entries@.len(),
                        *self == JsonValue::Object(*entries),
                        all == self@->Object_0,
                        entry(all, key@) == entry(
                            all.subrange(i as int, all.len() as int),
                            key@,
                        ),
                    decreases entries@.len() - i,
                {
                    let ghost rest = all.subrange(i as int, all.len() as int);
                    proof {
                        assert(rest[0] == (entries@[i as int].0@, entries@[i as int].1@));
                        assert(rest.drop_first() =~= all.subrange(i + 1, all.len() as int));
                    }
                    if same(entries[i].0.as_str(), key) {
                        return Some(&entries[i].1);
                    }
                    i = i + 1;
                }
                None
            },
            _ => None,
        }
    }

    /// The text that this value is, where it is one.
    pub fn as_text(&self) -> (result: Option<&str>)
        ensures
            match result {
                Some(text) => self@ == JsonModel::Text(text@),
                None => !(self@ is Text),
            },
    {
        match self {
            JsonValue::Text(text) => Some(text.as_str()),
            _ => None,
        }
    }

    /// The text under a key, where there is one.
    pub fn get_text(&self, key: &str) -> (result: Option<&str>)
        ensures
            match result {
                Some(text) => text_field(self@, key@) == Some(text@),
                None => text_field(self@, key@) is None,
            },
    {
        match self.get(key) {
            Some(value) => value.as_text(),
            None => None,
        }
    }

    pub fn is_object(&self) -> (result: bool)
        ensures
            result == (self@ is Object),
    {
        match self {
            JsonValue::Object(_) => true,
            _ => false,
        }
    }
}


/// A value that can be written as JSON.
pub trait ToJson: Sized {
    /// The JSON value it is written as.
    spec fn json(&self) -> JsonModel;

    fn to_json(&self) -> (result: JsonValue)
        ensures
            result@ == self.json(),
    ;
}

proof fn lemma_first_entry(entries: Seq<(Seq<char>, JsonModel)>, key: Seq<char>, i: int)
    requires
        0 <= i < entries.len(),
        entries[i].0 == key,
        forall|j: int| 0 <= j < i ==> (#[trigger] entries[j]).0 != key,
    ensures
        entry(entries, key) == Some(entries[i].1),
    decreases i,
{
    if i > 0 {
        let rest = entries.drop_first();
        assert(entries[0].0 != key);
        assert forall|j: int| 0 <= j < i - 1 implies (#[trigger] rest[j]).0 != key by {
            assert(rest[j] == entries[j + 1]);
        }
        assert(rest[i - 1] == entries[i]);
        lemma_first_entry(rest, key, i - 1);
    }
}

proof fn lemma_no_entry(entries: Seq<(Seq<char>, JsonModel)>, key: Seq<char>)
    requires
        forall|j: int| 0 <= j < entries.len() ==> (#[trigger] entries[j]).0 != key,
    ensures
        entry(entries, key) is None,
    decreases entries.len(),
{
    if entries.len() > 0 {
        let rest = entries.drop_first();
        assert(entries[0].0 != key);
        assert forall|j: int| 0 <= j < rest.len() implies (#[trigger] rest[j]).0 != key by {
            assert(rest[j] == entries[j + 1]);
        }
        lemma_no_entry(rest, key);
    }
}

/// What is found under a key is the value of the first entry that has it. Nothing is found where no
/// entry has it, and nothing in a value that is no object.
pub proof fn the_first_entry_with_a_key_is_found(
    value: JsonValue,
    key: &str,
    found: Option<&JsonValue>,
    i: int,
)
    requires
        call_ensures(JsonValue::get, (&value, key), found),
    ensures
        !(value is Object) ==> found is None,
        value matches JsonValue::Object(entries) ==> {
            &&& (forall|j: int| 0 <= j < entries@.len() ==> (#[trigger] entries@[j]).0@ != key@)
                ==> found is None
            &&& 0 <= i < entries@.len() && entries@[i].0@ == key@ && (forall|j: int|
                0 <= j < i ==> (#[trigger] entries@[j]).0@ != key@) ==> found is Some
                && model(*found->Some_0) == model(entries@[i].1)
        },
{
    if let JsonValue::Object(entries) = value {
        let members = value@->Object_0;
        assert(members.len() == entries@.len());
        assert forall|j: int| 0 <= j < members.len() implies (#[trigger] members[j]).0
            == entries@[j].0@ by {}
        if forall|j: int| 0 <= j < entries@.len() ==> (#[trigger] entries@[j]).0@ != key@ {
            assert forall|j: int| 0 <= j < members.len() implies (#[trigger] members[j]).0
                != key@ by {
                assert(entries@[j].0@ != key@);
            }
            lemma_no_entry(members, key@);
        }
        if 0 <= i < entries@.len() && entries@[i].0@ == key@ && (forall|j: int|
            0 <= j < i ==> (#[trigger] entries@[j]).0@ != key@) {
            assert forall|j: int| 0 <= j < i implies (#[trigger] members[j]).0 != key@ by {
                assert(entries@[j].0@ != key@);
            }
            assert(members[i] == (entries@[i].0@, model(entries@[i].1)));
            lemma_first_entry(members, key@, i);
        }
    }
}

/// A text is read as the text it is, and nothing else is read as a text; only an object is one.
pub proof fn texts_and_objects_are_known(value: JsonValue, text: Option<&str>, object: bool)
    requires
        call_ensures(JsonValue::as_text, (&value,), text),
        call_ensures(JsonValue::is_object, (&value,), object),
    ensures
        value matches JsonValue::Text(held) ==> text is Some && text->Some_0@ == held@,
        !(value is Text) ==> text is None,
        object <==> value is Object,
{
}

/// The text under a key is the text of what is found under it.
pub proof fn the_text_under_a_key_is_found(
    value: JsonValue,
    key: &str,
    found: Option<&JsonValue>,
    text: Option<&str>,
)
    requires
        call_ensures(JsonValue::get, (&value, key), found),
        call_ensures(JsonValue::get_text, (&value, key), text),
    ensures
        text is Some <==> found is Some && *found->Some_0 is Text,
        text is Some ==> model(*found->Some_0) == JsonModel::Text(text->Some_0@),
{
}

/// Texts and numbers are written as they are, and a text that is missing is null.
pub proof fn plain_values_are_written_as_they_are(
    text: &str,
    n: i32,
    optional: Option<String>,
    spelled: JsonValue,
    number: JsonValue,
    possible: JsonValue,
)
    requires
        call_ensures(json_string, (text,), spelled),
        call_ensures(json_number, (n,), number),
        call_ensures(json_optional_text, (&optional,), possible),
    ensures
        spelled is Text && spelled->Text_0@ == text@,
        n < 0 ==> number is Negative && number->Negative_0 == n,
        n >= 0 ==> number is Unsigned && number->Unsigned_0 == n,
        optional matches Some(held) ==> possible is Text && possible->Text_0@ == held@,
        optional is None ==> possible is Null,
{
}

/// An object that is built has the entries that it was given, in order, and so has an array its items.
pub proof fn what_is_built_is_what_was_given(
    object: JsonObject,
    key: &str,
    value: JsonValue,
    grown: JsonObject,
    whole: JsonValue,
    array: &mut JsonArray,
    item: JsonValue,
    list: JsonValue,
)
    requires
        call_ensures(JsonObject::with, (object, key, value), grown),
        call_ensures(JsonObject::done, (grown,), whole),
        call_ensures(JsonArray::push, (array, item), ()),
        call_ensures(JsonArray::done, (*final(array),), list),
    ensures
        whole is Object,
        whole->Object_0@.len() == object.entries().len() + 1,
        whole->Object_0@.last().0@ == key@,
        model(whole->Object_0@.last().1) == model(value),
        forall|i: int|
            0 <= i < object.entries().len() ==> {
                &&& (#[trigger] whole->Object_0@[i]).0@ == object.entries()[i].0
                &&& model(whole->Object_0@[i].1) == object.entries()[i].1
            },
        list is Array,
        list->Array_0@.len() == old(array).items().len() + 1,
        model(list->Array_0@.last()) == model(item),
        forall|i: int|
            0 <= i < old(array).items().len() ==> model(#[trigger] list->Array_0@[i])
                == old(array).items()[i],
{
    let members = whole@->Object_0;
    assert(whole is Object);
    assert(members.len() == whole->Object_0@.len());
    assert(members.last() == (
        whole->Object_0@.last().0@,
        model(whole->Object_0@.last().1),
    ));
    assert forall|i: int| 0 <= i < object.entries().len() implies {
        &&& (#[trigger] whole->Object_0@[i]).0@ == object.entries()[i].0
        &&& model(whole->Object_0@[i].1) == object.entries()[i].1
    } by {
        assert(members[i] == (whole->Object_0@[i].0@, model(whole->Object_0@[i].1)));
    }
    let items = list@->Array_0;
    assert(list is Array);
    assert(items.len() == list->Array_0@.len());
    assert(items.last() == model(list->Array_0@.last()));
    assert forall|i: int| 0 <= i < old(array).items().len() implies model(
        #[trigger] list->Array_0@[i],
    ) == old(array).items()[i] by {
        assert(items[i] == model(list->Array_0@[i]));
    }
}

} // verus!
