//! Reading JSON documents. Parsing is done by `serde_json`; the rest of the
//! library looks nodes up by JSON pointer and decides on what it finds.

use vstd::prelude::*;

verus! {

/// The parsed document of `serde_json`. Nothing is known of its inside but
/// what `document_nodes` names.
#[verifier::external_type_specification]
#[verifier::external_body]
pub struct ExValue(serde_json::Value);

/// What stands at one place of a document.
#[derive(Debug)]
pub enum JsonNode {
    Null,
    Bool(bool),
    Number,
    Text(String),
    /// An array, with the number of its elements.
    Array(usize),
    Object,
}

/// `JsonNode` with its text as a sequence of characters.
pub ghost enum JsonNodeView {
    Null,
    Bool(bool),
    Number,
    Text(Seq<char>),
    Array(nat),
    Object,
}

impl View for JsonNode {
    type V = JsonNodeView;

    open spec fn view(&self) -> JsonNodeView {
        match self {
            JsonNode::Null => JsonNodeView::Null,
            JsonNode::Bool(b) => JsonNodeView::Bool(*b),
            JsonNode::Number => JsonNodeView::Number,
            JsonNode::Text(t) => JsonNodeView::Text(t@),
            JsonNode::Array(n) => JsonNodeView::Array(*n as nat),
            JsonNode::Object => JsonNodeView::Object,
        }
    }
}

/// The nodes of a document, each under the JSON pointer that leads to it:
/// the empty pointer for the root, `/key` for a member of the root object,
/// `/key/3` for the fourth element of an array under `key`.
pub type Nodes = Map<Seq<char>, JsonNodeView>;

/// What a parsed document holds: the node that `Value::pointer` finds for
/// each pointer that leads somewhere.
pub uninterp spec fn document_nodes(v: serde_json::Value) -> Map<Seq<char>, JsonNodeView>;

/// What `serde_json::from_str` makes of a text: `None` where it rejects the
/// text, else the nodes of the document it returns.
pub uninterp spec fn parsed_nodes(text: Seq<char>) -> Option<Map<Seq<char>, JsonNodeView>>;

/// `serde_json::from_str::<Value>`: whether the text is accepted, and the
/// nodes of the document, depend on the text alone.
#[verifier::external_body]
fn parse_value(text: &str) -> (r: Option<serde_json::Value>)
    ensures
        match r {
            Some(v) => parsed_nodes(text@) == Some(document_nodes(v)),
            None => parsed_nodes(text@) is None,
        },
{
    serde_json::from_str::<serde_json::Value>(text).ok()
}

/// `Value::pointer`, with the node it finds turned into a `JsonNode`:
/// `None` where the pointer leads nowhere.
#[verifier::external_body]
fn value_node(v: &serde_json::Value, pointer: &str) -> (r: Option<JsonNode>)
    ensures
        r is Some == document_nodes(*v).contains_key(pointer@),
        r matches Some(n) ==> n@ == document_nodes(*v)[pointer@],
{
    match v.pointer(pointer) {
        None => None,
        Some(serde_json::Value::Null) => Some(JsonNode::Null),
        Some(serde_json::Value::Bool(b)) => Some(JsonNode::Bool(*b)),
        Some(serde_json::Value::Number(_)) => Some(JsonNode::Number),
        Some(serde_json::Value::String(s)) => Some(JsonNode::Text(s.clone())),
        Some(serde_json::Value::Array(a)) => Some(JsonNode::Array(a.len())),
        Some(serde_json::Value::Object(_)) => Some(JsonNode::Object),
    }
}

/// The text at `pointer`, where a text stands there.
pub open spec fn text_at(nodes: Nodes, pointer: Seq<char>) -> Option<Seq<char>> {
    if nodes.contains_key(pointer) {
        match nodes[pointer] {
            JsonNodeView::Text(t) => Some(t),
            _ => None,
        }
    } else {
        None
    }
}

/// The truth value at `pointer`, where one stands there.
pub open spec fn bool_at(nodes: Nodes, pointer: Seq<char>) -> Option<bool> {
    if nodes.contains_key(pointer) {
        match nodes[pointer] {
            JsonNodeView::Bool(b) => Some(b),
            _ => None,
        }
    } else {
        None
    }
}

/// Whether an object stands at `pointer`.
pub open spec fn object_at(nodes: Nodes, pointer: Seq<char>) -> bool {
    nodes.contains_key(pointer) && nodes[pointer] == JsonNodeView::Object
}

/// The length of the array at `pointer`, where one stands there.
pub open spec fn array_at(nodes: Nodes, pointer: Seq<char>) -> Option<nat> {
    if nodes.contains_key(pointer) {
        match nodes[pointer] {
            JsonNodeView::Array(n) => Some(n),
            _ => None,
        }
    } else {
        None
    }
}

/// Whether nothing, or `null`, stands at `pointer`.
pub open spec fn absent_at(nodes: Nodes, pointer: Seq<char>) -> bool {
    !nodes.contains_key(pointer) || nodes[pointer] == JsonNodeView::Null
}

/// A parsed JSON document.
pub struct JsonDocument {
    value: serde_json::Value,
}

impl View for JsonDocument {
    type V = Nodes;

    closed spec fn view(&self) -> Nodes {
        document_nodes(self.value)
    }
}

impl JsonDocument {
    /// Parses a text; `None` where it is no JSON document.
    pub fn parse(text: &str) -> (r: Option<JsonDocument>)
        ensures
            r is Some == parsed_nodes(text@) is Some,
            r matches Some(d) ==> parsed_nodes(text@) == Some(d@),
    {
        match parse_value(text) {
            Some(value) => Some(JsonDocument { value }),
            None => None,
        }
    }

    /// The node at `pointer`; `None` where the pointer leads nowhere.
    pub fn node(&self, pointer: &str) -> (r: Option<JsonNode>)
        ensures
            r is Some == self@.contains_key(pointer@),
            r matches Some(n) ==> n@ == self@[pointer@],
    {
        value_node(&self.value, pointer)
    }

    /// Whether nothing, or `null`, stands at `pointer`.
    pub fn is_absent(&self, pointer: &str) -> (r: bool)
        ensures
            r == absent_at(self@, pointer@),
    {
        match self.node(pointer) {
            None => true,
            Some(JsonNode::Null) => true,
            _ => false,
        }
    }

    /// Whether an object stands at `pointer`.
    pub fn is_object(&self, pointer: &str) -> (r: bool)
        ensures
            r == object_at(self@, pointer@),
    {
        match self.node(pointer) {
            Some(JsonNode::Object) => true,
            _ => false,
        }
    }

    /// The truth value at `pointer`; `None` where none stands there.
    pub fn boolean(&self, pointer: &str) -> (r: Option<bool>)
        ensures
            r == bool_at(self@, pointer@),
    {
        match self.node(pointer) {
            Some(JsonNode::Bool(b)) => Some(b),
            _ => None,
        }
    }

    /// The length of the array at `pointer`; `None` where none stands
    /// there.
    pub fn array_len(&self, pointer: &str) -> (r: Option<usize>)
        ensures
            r is Some == array_at(self@, pointer@) is Some,
            r matches Some(n) ==> array_at(self@, pointer@) == Some(n as nat),
    {
        match self.node(pointer) {
            Some(JsonNode::Array(n)) => Some(n),
            _ => None,
        }
    }

    /// The text at `pointer`; `None` where no text stands there.
    pub fn text(&self, pointer: &str) -> (r: Option<String>)
        ensures
            r is Some == text_at(self@, pointer@) is Some,
            r matches Some(t) ==> text_at(self@, pointer@) == Some(t@),
    {
        match self.node(pointer) {
            Some(JsonNode::Text(t)) => Some(t),
            _ => None,
        }
    }
}

} // verus!
