//! Theme documents: the tree of tables, arrays and strings that a theme file
//! parses to, and the lookups that theme resolution makes in it.

use toml::de::Error as TomlError;
use vstd::prelude::*;

verus! {

/// A `toml::Value`, opaque to the verifier.
#[verifier::external_type_specification]
#[verifier::external_body]
pub struct ExTomlValue(toml::Value);

/// A `toml::de::Error`, opaque to the verifier.
#[verifier::external_type_specification]
#[verifier::external_body]
pub struct ExTomlError(TomlError);

/// A parsed document value.
///
/// Strings, arrays and tables keep their content. Every other kind of value
/// (number, boolean, date) is `Other`: no theme entry reads one.
pub enum Item {
    String(String),
    Array(Vec<Item>),
    Table(Vec<(String, Item)>),
    Other,
}

/// The mathematical content of an [`Item`].
pub enum Node {
    String(Seq<char>),
    Array(Seq<Node>),
    Table(Seq<(Seq<char>, Node)>),
    Other,
}

impl View for Item {
    type V = Node;

    open spec fn view(&self) -> Node
        decreases self,
    {
        match self {
            Item::String(s) => Node::String(s@),
            Item::Array(items) => Node::Array(
                Seq::new(
                    items@.len(),
                    |i: int|
                        if 0 <= i < items@.len() {
                            items@[i]@
                        } else {
                            Node::Other
                        },
                ),
            ),
            Item::Table(entries) => Node::Table(
                Seq::new(
                    entries@.len(),
                    |i: int|
                        if 0 <= i < entries@.len() {
                            (entries@[i].0@, entries@[i].1@)
                        } else {
                            (Seq::empty(), Node::Other)
                        },
                ),
            ),
            Item::Other => Node::Other,
        }
    }
}

/// The content of a table is its entries, one for one.
pub proof fn lemma_table_view(entries: Vec<(String, Item)>)
    ensures
        Item::Table(entries)@ matches Node::Table(all) && all.len() == entries@.len()
            && forall|i: int|
            0 <= i < all.len() ==> #[trigger] all[i] == (entries@[i].0@, entries@[i].1@),
{
    reveal_with_fuel(<Item as View>::view, 2);
}

/// The content of an array is its elements, one for one.
pub proof fn lemma_array_view(items: Vec<Item>)
    ensures
        Item::Array(items)@ matches Node::Array(all) && all.len() == items@.len()
            && forall|i: int| 0 <= i < all.len() ==> #[trigger] all[i] == items@[i]@,
{
    reveal_with_fuel(<Item as View>::view, 2);
}

impl Node {
    /// The value stored under `key`, when `self` is a table that has the key.
    pub open spec fn get(self, key: Seq<char>) -> Option<Node> {
        match self {
            Node::Table(entries) => table_lookup(entries, key),
            _ => None,
        }
    }

    /// The text of a string value.
    pub open spec fn text(self) -> Option<Seq<char>> {
        match self {
            Node::String(text) => Some(text),
            _ => None,
        }
    }
}

/// The value of the first entry of `entries` whose key is `key`.
pub open spec fn table_lookup(entries: Seq<(Seq<char>, Node)>, key: Seq<char>) -> Option<Node>
    decreases entries.len(),
{
    if entries.len() == 0 {
        None
    } else if entries[0].0 == key {
        Some(entries[0].1)
    } else {
        table_lookup(entries.drop_first(), key)
    }
}

/// What parsing `text` as a TOML document yields: the document's content, or
/// `None` where `text` is not valid TOML.
pub uninterp spec fn toml_document(text: Seq<char>) -> Option<Node>;

/// The content of a `toml::Value`: strings, arrays and tables with their
/// elements in the order in which the value iterates them, anything else as
/// `Node::Other`.
pub uninterp spec fn toml_content(value: toml::Value) -> Node;

/// `str`'s equality compares the two texts.
pub assume_specification[ <str as PartialEq>::eq ](a: &str, b: &str) -> (equal: bool)
    ensures
        equal == (a@ == b@),
;

/// Calls `toml::Value`'s `FromStr::from_str`, the parser for whole documents.
/// Parsing depends on the text alone: success gives the value whose content
/// is the document of `data`, and failure means `data` is not a document.
#[verifier::external_body]
fn parse_toml(data: &str) -> (res: Result<toml::Value, TomlError>)
    ensures
        match res {
            Ok(value) => toml_document(data@) == Some(toml_content(value)),
            Err(_) => toml_document(data@) is None,
        },
{
    data.parse::<toml::Value>()
}

/// One level of a `toml::Value`: its own content, with the values that it
/// holds still to be read.
enum Parts<'a> {
    Text(&'a String),
    Array(Vec<&'a toml::Value>),
    Table(Vec<(&'a String, &'a toml::Value)>),
    Other,
}

/// Whether `parts` is the top level of the content `node`.
spec fn is_top_level(node: Node, parts: Parts) -> bool {
    match parts {
        Parts::Text(text) => node == Node::String(text@),
        Parts::Array(items) => node matches Node::Array(nodes) && nodes.len() == items@.len()
            && forall|i: int|
            0 <= i < nodes.len() ==> #[trigger] nodes[i] == toml_content(*items@[i]),
        Parts::Table(entries) => node matches Node::Table(nodes) && nodes.len() == entries@.len()
            && forall|i: int|
            0 <= i < nodes.len() ==> #[trigger] nodes[i] == (
                entries@[i].0@,
                toml_content(*entries@[i].1),
            ),
        Parts::Other => node == Node::Other,
    }
}

/// Tells the variants of a `toml::Value` apart and hands out what it holds:
/// the text of a string, the elements of an array in order, the entries of a
/// table in the order in which the table iterates them. The content of an
/// array or table is made of the contents of what it holds.
#[verifier::external_body]
fn toml_parts<'a>(value: &'a toml::Value) -> (parts: Parts<'a>)
    ensures
        is_top_level(toml_content(*value), parts),
{
    match value {
        toml::Value::String(text) => Parts::Text(text),
        toml::Value::Array(items) => Parts::Array(items.iter().collect()),
        toml::Value::Table(entries) => Parts::Table(entries.iter().collect()),
        _ => Parts::Other,
    }
}

/// Copies a `toml::Value` into an [`Item`] of the same content.
fn item_from_toml(value: &toml::Value) -> (item: Item)
    ensures
        item@ == toml_content(*value),
    decreases toml_content(*value),
{
    match toml_parts(value) {
        Parts::Text(text) => Item::String(text.clone()),
        Parts::Array(items) => {
            let ghost nodes = toml_content(*value)->Array_0;
            let mut converted: Vec<Item> = Vec::new();
            let mut i: usize = 0;
            while i < items.len()
                invariant
                    i <= items.len(),
                    converted@.len() == i,
                    toml_content(*value) == Node::Array(nodes),
                    nodes.len() == items@.len(),
                    forall|j: int|
                        0 <= j < nodes.len() ==> #[trigger] nodes[j] == toml_content(*items@[j]),
                    forall|j: int| 0 <= j < i ==> (#[trigger] converted@[j])@ == nodes[j],
                decreases items.len() - i,
            {
                assert(decreases_to!(toml_content(*value) => toml_content(*value)->Array_0));
                assert(decreases_to!(nodes => nodes[i as int]));
                converted.push(item_from_toml(items[i]));
                i += 1;
            }
            proof {
                lemma_array_view(converted);
                assert(Item::Array(converted)@->Array_0 =~= nodes);
            }
            Item::Array(converted)
        },
        Parts::Table(entries) => {
            let ghost nodes = toml_content(*value)->Table_0;
            let mut converted: Vec<(String, Item)> = Vec::new();
            let mut i: usize = 0;
            while i < entries.len()
                invariant
                    i <= entries.len(),
                    converted@.len() == i,
                    toml_content(*value) == Node::Table(nodes),
                    nodes.len() == entries@.len(),
                    forall|j: int|
                        0 <= j < nodes.len() ==> #[trigger] nodes[j] == (
                            entries@[j].0@,
                            toml_content(*entries@[j].1),
                        ),
                    forall|j: int|
                        0 <= j < i ==> (#[trigger] converted@[j]).0@ == nodes[j].0
                            && converted@[j].1@ == nodes[j].1,
                decreases entries.len() - i,
            {
                assert(nodes[i as int] == (
                    entries@[i as int].0@,
                    toml_content(*entries@[i as int].1),
                ));
                assert(decreases_to!(toml_content(*value) => toml_content(*value)->Table_0));
                assert(decreases_to!(nodes[i as int] => nodes[i as int].1));
                let key = entries[i].0.clone();
                let item = item_from_toml(entries[i].1);
                converted.push((key, item));
                i += 1;
            }
            proof {
                lemma_table_view(converted);
                assert(Item::Table(converted)@->Table_0 =~= nodes);
            }
            Item::Table(converted)
        },
        Parts::Other => Item::Other,
    }
}

impl Item {
    /// Parses `data` as a TOML document.
    pub fn parse(data: &str) -> (res: Result<Item, TomlError>)
        ensures
            match res {
                Ok(item) => toml_document(data@) == Some(item@),
                Err(_) => toml_document(data@) is None,
            },
    {
        match parse_toml(data) {
            Ok(value) => Ok(item_from_toml(&value)),
            Err(error) => Err(error),
        }
    }

    /// The value stored under `key`, when `self` is a table that has the key.
    pub fn get(&self, key: &str) -> (res: Option<&Item>)
        ensures
            match res {
                Some(item) => self@.get(key@) == Some(item@),
                None => self@.get(key@) is None,
            },
    {
        match self {
            Item::Table(entries) => {
                let ghost all = self@->Table_0;
                proof {
                    lemma_table_view(*entries);
                    assert(all.subrange(0, all.len() as int) == all);
                }
                let mut i: usize = 0;
                while i < entries.len()
                    invariant
                        i <= entries.len(),
                        self@ == Node::Table(all),
                        all.len() == entries.len(),
                        forall|j: int|
                            0 <= j < all.len() ==> all[j] == (entries@[j].0@, entries@[j].1@),
                        table_lookup(all, key@) == table_lookup(
                            all.subrange(i as int, all.len() as int),
                            key@,
                        ),
                    decreases entries.len() - i,
                {
                    proof {
                        let rest = all.subrange(i as int, all.len() as int);
                        assert(rest.drop_first() == all.subrange(i + 1, all.len() as int));
                    }
                    if entries[i].0.as_str().eq(key) {
                        return Some(&entries[i].1);
                    }
                    i += 1;
                }
                None
            },
            _ => None,
        }
    }

    /// The text of a string value.
    pub fn text(&self) -> (res: Option<&String>)
        ensures
            match res {
                Some(text) => self@.text() == Some(text@),
                None => self@.text() is None,
            },
    {
        match self {
            Item::String(text) => Some(text),
            _ => None,
        }
    }
}

} // verus!
