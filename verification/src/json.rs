//! JSON texts: what they hold, and how a text is written as one.

use vstd::prelude::*;
use vstd::string::*;

use crate::text;

verus! {

/// The outermost level of a JSON text. What stands inside a list or a table is
/// given as JSON texts of its own.
#[derive(Debug, PartialEq, Eq)]
pub enum JsonNode {
    /// No JSON text, with the reason.
    Invalid(String),
    Null,
    Bool(bool),
    Number(String),
    Text(String),
    List(Vec<String>),
    Table(Vec<(String, String)>),
}

/// What a `JsonNode` holds.
#[verifier::ext_equal]
pub enum JsonView {
    Invalid(Seq<char>),
    Null,
    Bool(bool),
    Number(Seq<char>),
    Text(Seq<char>),
    List(Seq<Seq<char>>),
    Table(Seq<(Seq<char>, Seq<char>)>),
}

/// The characters of each pair of strings.
pub open spec fn pairs(fields: Seq<(String, String)>) -> Seq<(Seq<char>, Seq<char>)> {
    fields.map_values(|field: (String, String)| (field.0@, field.1@))
}

impl View for JsonNode {
    type V = JsonView;

    open spec fn view(&self) -> JsonView {
        match self {
            JsonNode::Invalid(reason) => JsonView::Invalid(reason@),
            JsonNode::Null => JsonView::Null,
            JsonNode::Bool(value) => JsonView::Bool(*value),
            JsonNode::Number(value) => JsonView::Number(value@),
            JsonNode::Text(value) => JsonView::Text(value@),
            JsonNode::List(items) => JsonView::List(text::texts(items@)),
            JsonNode::Table(fields) => JsonView::Table(pairs(fields@)),
        }
    }
}

/// What `serde_json::from_str` makes of a text, read as a
/// `serde_json::Value`.
pub uninterp spec fn json_node(source: Seq<char>) -> JsonView;

/// Reads a text with `serde_json::from_str` as a `serde_json::Value`, one
/// variant for one variant; the values inside a list or an object are handed
/// on as the JSON texts that `Value` itself gives of them. Nothing is claimed
/// of the result but that it depends on the text alone.
#[verifier::external_body]
fn parse_json(source: &str) -> (r: JsonNode)
    ensures
        r@ == json_node(source@),
{
    match serde_json::from_str::<serde_json::Value>(source) {
        Err(error) => JsonNode::Invalid(error.to_string()),
        Ok(serde_json::Value::Null) => JsonNode::Null,
        Ok(serde_json::Value::Bool(value)) => JsonNode::Bool(value),
        Ok(serde_json::Value::Number(value)) => JsonNode::Number(value.to_string()),
        Ok(serde_json::Value::String(value)) => JsonNode::Text(value),
        Ok(serde_json::Value::Array(items)) => JsonNode::List(
            items.into_iter().map(|item| item.to_string()).collect()),
        Ok(serde_json::Value::Object(fields)) => JsonNode::Table(
            fields.into_iter().map(|(name, value)| (name, value.to_string())).collect()),
    }
}

/// What a text holds, read as JSON.
pub fn read_json(source: &str) -> (r: JsonNode)
    ensures
        r@ == json_node(source@),
{
    parse_json(source)
}

/// The value of the first field with this name.
pub open spec fn lookup(fields: Seq<(Seq<char>, Seq<char>)>, name: Seq<char>) -> Option<Seq<char>>
    decreases fields.len(),
{
    if fields.len() == 0 {
        None
    } else if fields.first().0 == name {
        Some(fields.first().1)
    } else {
        lookup(fields.drop_first(), name)
    }
}

/// The JSON text of a field of a table; none of anything else.
pub open spec fn field_of(node: JsonView, name: Seq<char>) -> Option<Seq<char>> {
    match node {
        JsonView::Table(fields) => lookup(fields, name),
        _ => None,
    }
}

/// The text that a node is, where it is one.
pub open spec fn text_of_node(node: JsonView) -> Option<Seq<char>> {
    match node {
        JsonView::Text(value) => Some(value),
        _ => None,
    }
}

/// The node that a chain of names leads to from a JSON text.
pub open spec fn node_at(source: Seq<char>, names: Seq<Seq<char>>) -> Option<JsonView>
    decreases names.len(),
{
    if names.len() == 0 {
        Some(json_node(source))
    } else {
        match field_of(json_node(source), names.first()) {
            Some(inner) => node_at(inner, names.drop_first()),
            None => None,
        }
    }
}

impl JsonNode {
    /// The JSON text of a field.
    pub fn field(&self, name: &str) -> (r: Option<String>)
        ensures
            text::text_opt(r) == field_of(self@, name@),
    {
        match self {
            JsonNode::Table(fields) => {
                let ghost all = pairs(fields@);
                let mut i: usize = 0;
                assert(all.skip(0) =~= all);
                while i < fields.len()
                    invariant
                        i <= fields@.len(),
                        all == pairs(fields@),
                        self@ == JsonView::Table(all),
                        lookup(all, name@) == lookup(all.skip(i as int), name@),
                    decreases fields@.len() - i,
                {
                    assert(all.skip(i as int).first() == all[i as int]);
                    assert(all.skip(i as int).drop_first() =~= all.skip(i + 1));
                    if text::same(fields[i].0.as_str(), name) {
                        return Some(fields[i].1.clone());
                    }
                    i += 1;
                }
                None
            },
            _ => None,
        }
    }

    /// The text that this is, where it is one.
    pub fn as_text(&self) -> (r: Option<String>)
        ensures
            text::text_opt(r) == text_of_node(self@),
    {
        match self {
            JsonNode::Text(value) => Some(value.clone()),
            _ => None,
        }
    }
}

/// What an optional node holds.
pub open spec fn node_opt(node: Option<JsonNode>) -> Option<JsonView> {
    match node {
        Some(content) => Some(content@),
        None => None,
    }
}

/// The node that a chain of three names leads to.
pub fn follow(source: &str, first: &str, second: &str, third: &str) -> (r: Option<JsonNode>)
    ensures
        node_opt(r) == node_at(source@, seq![first@, second@, third@]),
{
    proof {
        reveal_with_fuel(node_at, 4);
        let names = seq![first@, second@, third@];
        assert(names.drop_first() =~= seq![second@, third@]);
        assert(names.drop_first().drop_first() =~= seq![third@]);
        assert(names.drop_first().drop_first().drop_first() =~= Seq::<Seq<char>>::empty());
    }
    match read_json(source).field(first) {
        Some(outer) => match read_json(outer.as_str()).field(second) {
            Some(middle) => match read_json(middle.as_str()).field(third) {
                Some(inner) => Some(read_json(inner.as_str())),
                None => None,
            },
            None => None,
        },
        None => None,
    }
}

// ---------------------------------------------------------------------------
// Writing a text
// ---------------------------------------------------------------------------
/// A hexadecimal digit with small letters.
pub open spec fn small_hex(value: int) -> char {
    if value < 10 {
        ('0' as int + value) as char
    } else {
        ('a' as int + value - 10) as char
    }
}

/// How a character is written inside a JSON text: quotes, backslashes and
/// control characters are escaped, every other character stands for itself.
pub open spec fn escaped(item: char) -> Seq<char> {
    if item == '"' {
        seq!['\\', '"']
    } else if item == '\\' {
        seq!['\\', '\\']
    } else if item == '\n' {
        seq!['\\', 'n']
    } else if item == '\r' {
        seq!['\\', 'r']
    } else if item == '\t' {
        seq!['\\', 't']
    } else if item as int == 8 {
        seq!['\\', 'b']
    } else if item as int == 12 {
        seq!['\\', 'f']
    } else if (item as int) < 32 {
        seq!['\\', 'u', '0', '0', small_hex(item as int / 16), small_hex(item as int % 16)]
    } else {
        seq![item]
    }
}

/// The characters of `content`, each as it is written inside a JSON text.
pub open spec fn all_escaped(content: Seq<char>) -> Seq<char>
    decreases content.len(),
{
    if content.len() == 0 {
        Seq::empty()
    } else {
        all_escaped(content.drop_last()) + escaped(content.last())
    }
}

/// A text written as JSON.
pub open spec fn quoted(content: Seq<char>) -> Seq<char> {
    seq!['"'] + all_escaped(content) + seq!['"']
}

/// `serde_json::to_string` of a string: it succeeds, and gives the string in
/// quotes with quotes, backslashes and control characters escaped.
#[verifier::external_body]
pub(crate) fn json_string(content: &str) -> (r: Result<String, String>)
    ensures
        r is Ok,
        r->Ok_0@ == quoted(content@),
{
    serde_json::to_string(content).map_err(|error| error.to_string())
}

/// A text written as JSON stays on its line, whatever it holds.
pub proof fn quoted_text_stays_on_its_line(content: Seq<char>)
    ensures
        !quoted(content).contains('\n'),
        !quoted(content).contains('\r'),
{
    escapes_hold_no_line_end(content);
}

proof fn escapes_hold_no_line_end(content: Seq<char>)
    ensures
        forall|i: int|
            0 <= i < all_escaped(content).len() ==> (#[trigger] all_escaped(content)[i]) as int
                >= 32,
    decreases content.len(),
{
    if content.len() > 0 {
        escapes_hold_no_line_end(content.drop_last());
        escape_holds_no_line_end(content.last());
        let all = all_escaped(content);
        let head = all_escaped(content.drop_last());
        let tail = escaped(content.last());
        assert forall|i: int| 0 <= i < all.len() implies (#[trigger] all[i]) as int >= 32 by {
            if i < head.len() {
                assert(all[i] == head[i]);
            } else {
                assert(all[i] == tail[i - head.len()]);
            }
        }
    }
}

proof fn escape_holds_no_line_end(item: char)
    ensures
        forall|i: int|
            0 <= i < escaped(item).len() ==> (#[trigger] escaped(item)[i]) as int >= 32,
{
    if (item as int) < 32 {
        let high = item as int / 16;
        let low = item as int % 16;
        assert(small_hex(high) as int >= 48);
        assert(small_hex(low) as int >= 48);
    }
}

/// A field is looked up by its name: the value is that of the first field that is
/// called so, and there is none exactly where no field is.
pub proof fn the_first_field_of_a_name_counts(
    fields: Seq<(Seq<char>, Seq<char>)>,
    name: Seq<char>,
)
    ensures
        match lookup(fields, name) {
            Some(value) => exists|i: int|
                {
                    &&& 0 <= i < fields.len()
                    &&& (#[trigger] fields[i]) == (name, value)
                    &&& forall|j: int| 0 <= j < i ==> (#[trigger] fields[j]).0 != name
                },
            None => forall|j: int| 0 <= j < fields.len() ==> (#[trigger] fields[j]).0 != name,
        },
    decreases fields.len(),
{
    if fields.len() > 0 {
        let rest = fields.drop_first();
        if fields.first().0 == name {
            assert(fields[0] == (name, fields[0].1));
        } else {
            the_first_field_of_a_name_counts(rest, name);
            match lookup(rest, name) {
                Some(value) => {
                    let i = choose|i: int|
                        {
                            &&& 0 <= i < rest.len()
                            &&& (#[trigger] rest[i]) == (name, value)
                            &&& forall|j: int| 0 <= j < i ==> (#[trigger] rest[j]).0 != name
                        };
                    assert(fields[i + 1] == (name, value));
                    assert forall|j: int| 0 <= j < i + 1 implies (#[trigger] fields[j]).0
                        != name by {
                        if j > 0 {
                            assert(fields[j] == rest[j - 1]);
                        }
                    }
                },
                None => {
                    assert forall|j: int| 0 <= j < fields.len() implies (#[trigger] fields[j]).0
                        != name by {
                        if j > 0 {
                            assert(fields[j] == rest[j - 1]);
                        }
                    }
                },
            }
        }
    }
}

/// Only a table has fields, and only a text is one.
pub proof fn nodes_are_what_they_are(node: JsonView, name: Seq<char>)
    ensures
        node matches JsonView::Table(fields) ==> field_of(node, name) == lookup(fields, name),
        !(node is Table) ==> field_of(node, name) is None,
        node matches JsonView::Text(content) ==> text_of_node(node) == Some(content),
        !(node is Text) ==> text_of_node(node) is None,
{
}

/// A chain of names is followed from table to table, one name after the other.
pub proof fn a_chain_is_followed_name_by_name(
    source: Seq<char>,
    name: Seq<char>,
    rest: Seq<Seq<char>>,
)
    ensures
        node_at(source, Seq::empty()) == Some(json_node(source)),
        match field_of(json_node(source), name) {
            Some(inner) => node_at(source, seq![name] + rest) == node_at(inner, rest),
            None => node_at(source, seq![name] + rest) is None,
        },
{
    assert((seq![name] + rest).drop_first() =~= rest);
}

/// A text that is written as JSON keeps what needs no escape, character by
/// character, and stands between quotes.
pub proof fn plain_text_is_only_quoted(content: Seq<char>)
    requires
        forall|i: int|
            0 <= i < content.len() ==> (#[trigger] content[i]) as int >= 32 && content[i] != '"'
                && content[i] != '\\',
    ensures
        quoted(content) == seq!['"'] + content + seq!['"'],
    decreases content.len(),
{
    plain_text_needs_no_escape(content);
}

proof fn plain_text_needs_no_escape(content: Seq<char>)
    requires
        forall|i: int|
            0 <= i < content.len() ==> (#[trigger] content[i]) as int >= 32 && content[i] != '"'
                && content[i] != '\\',
    ensures
        all_escaped(content) == content,
    decreases content.len(),
{
    if content.len() > 0 {
        let shorter = content.drop_last();
        assert forall|i: int| 0 <= i < shorter.len() implies (#[trigger] shorter[i]) as int >= 32
            && shorter[i] != '"' && shorter[i] != '\\' by {
            assert(content[i] == shorter[i]);
        }
        plain_text_needs_no_escape(shorter);
        assert(content[content.len() - 1] as int >= 32);
        assert(all_escaped(content) =~= content);
    } else {
        assert(all_escaped(content) =~= content);
    }
}

} // verus!
