//! Configuration documents: TOML text read into a tree of plain values.

use vstd::prelude::*;
use vstd::string::*;

use crate::errors::Problem;
use crate::text::{first_index, lemma_first_index_absent, lemma_first_index_at, same};

verus! {

/// A value of a configuration document.
#[derive(Debug, PartialEq, Eq)]
pub enum Tree {
    Text(String),
    Integer(i64),
    /// A number with a fraction. Nothing reads its digits, so none are kept.
    Real,
    Boolean(bool),
    /// A date or time, as the document would print it.
    Datetime(String),
    Array(Vec<Tree>),
    /// The entries of a table, in the order in which the document declares them.
    Table(Vec<(String, Tree)>),
}

/// What a `Tree` holds.
pub enum Node {
    Text(Seq<char>),
    Integer(int),
    Real,
    Boolean(bool),
    Datetime(Seq<char>),
    Array(Seq<Node>),
    Table(Seq<Entry>),
}

/// One entry of a table.
pub struct Entry {
    pub key: Seq<char>,
    pub value: Node,
}

impl View for Tree {
    type V = Node;

    open spec fn view(&self) -> Node
        decreases self,
    {
        match self {
            Tree::Text(s) => Node::Text(s@),
            Tree::Integer(i) => Node::Integer(*i as int),
            Tree::Real => Node::Real,
            Tree::Boolean(b) => Node::Boolean(*b),
            Tree::Datetime(s) => Node::Datetime(s@),
            Tree::Array(items) => Node::Array(
                Seq::new(
                    items@.len(),
                    |i: int|
                        if 0 <= i < items@.len() {
                            items@[i]@
                        } else {
                            Node::Real
                        },
                ),
            ),
            Tree::Table(entries) => Node::Table(
                Seq::new(
                    entries@.len(),
                    |i: int|
                        if 0 <= i < entries@.len() {
                            Entry { key: entries@[i].0@, value: entries@[i].1@ }
                        } else {
                            Entry { key: Seq::empty(), value: Node::Real }
                        },
                ),
            ),
        }
    }
}

/// What the view of a table is, entry by entry.
pub proof fn lemma_table_view(tree: Tree)
    requires
        tree is Table,
    ensures
        tree@ is Table,
        tree@->Table_0.len() == tree->Table_0@.len(),
        forall|k: int|
            0 <= k < tree->Table_0@.len() ==> (#[trigger] tree@->Table_0[k]) == (Entry {
                key: tree->Table_0@[k].0@,
                value: tree->Table_0@[k].1@,
            }),
{
}

/// What the view of an array is, item by item.
pub proof fn lemma_array_view(tree: Tree)
    requires
        tree is Array,
    ensures
        tree@ is Array,
        tree@->Array_0.len() == tree->Array_0@.len(),
        forall|k: int|
            0 <= k < tree->Array_0@.len() ==> (#[trigger] tree@->Array_0[k]) == tree->Array_0@[k]@,
{
}

/// The keys of a table's entries, in order.
pub open spec fn keys(entries: Seq<Entry>) -> Seq<Seq<char>> {
    entries.map_values(|entry: Entry| entry.key)
}

impl Node {
    /// The entry of a table under `key`; `None` for a missing key and for
    /// anything that is not a table.
    pub open spec fn get(self, key: Seq<char>) -> Option<Node> {
        match self {
            Node::Table(entries) => match first_index(keys(entries), key) {
                Some(i) => Some(entries[i].value),
                None => None,
            },
            _ => None,
        }
    }

    /// The characters of a string value.
    pub open spec fn as_str(self) -> Option<Seq<char>> {
        match self {
            Node::Text(s) => Some(s),
            _ => None,
        }
    }

    /// The characters of a value that reads as a string: a string, or a date
    /// or time as printed.
    pub open spec fn as_string(self) -> Option<Seq<char>> {
        match self {
            Node::Text(s) => Some(s),
            Node::Datetime(s) => Some(s),
            _ => None,
        }
    }

    /// The strings of an array whose items are all strings.
    pub open spec fn as_strs(self) -> Option<Seq<Seq<char>>> {
        match self {
            Node::Array(items) => if forall|i: int|
                0 <= i < items.len() ==> (#[trigger] items[i]).as_str() is Some {
                Some(items.map_values(|item: Node| item.as_str().unwrap()))
            } else {
                None
            },
            _ => None,
        }
    }

    /// The strings of an array whose items all read as strings.
    pub open spec fn as_strings(self) -> Option<Seq<Seq<char>>> {
        match self {
            Node::Array(items) => if forall|i: int|
                0 <= i < items.len() ==> (#[trigger] items[i]).as_string() is Some {
                Some(items.map_values(|item: Node| item.as_string().unwrap()))
            } else {
                None
            },
            _ => None,
        }
    }
}

impl Tree {
    /// The entry of a table under `key`.
    pub fn get(&self, key: &str) -> (found: Option<&Tree>)
        ensures
            match found {
                Some(value) => self@.get(key@) == Some(value@),
                None => self@.get(key@) is None,
            },
    {
        match self {
            Tree::Table(entries) => {
                let ghost names = keys(self@->Table_0);
                proof {
                    lemma_table_view(*self);
                }
                let mut i: usize = 0;
                while i < entries.len()
                    invariant
                        i <= entries.len(),
                        self@ matches Node::Table(_),
                        names == keys(self@->Table_0),
                        names.len() == entries.len(),
                        forall|k: int| 0 <= k < entries.len() ==> names[k] == entries[k].0@,
                        forall|k: int|
                            0 <= k < entries.len() ==> (#[trigger] self@->Table_0[k]).value
                                == entries[k].1@,
                        forall|k: int| 0 <= k < i ==> names[k] != key@,
                    decreases entries.len() - i,
                {
                    if same(entries[i].0.as_str(), key) {
                        proof {
                            lemma_first_index_at(names, key@, i as int);
                        }
                        return Some(&entries[i].1);
                    }
                    i += 1;
                }
                proof {
                    lemma_first_index_absent(names, key@);
                }
                None
            },
            _ => None,
        }
    }

    /// The characters of a string value.
    pub fn as_str(&self) -> (text: Option<&str>)
        ensures
            text.is_some() == self@.as_str().is_some(),
            text matches Some(s) ==> self@.as_str() == Some(s@),
    {
        match self {
            Tree::Text(s) => Some(s.as_str()),
            _ => None,
        }
    }

    /// The characters of a value that reads as a string.
    pub fn as_string(&self) -> (text: Option<String>)
        ensures
            text.deep_view() == self@.as_string(),
    {
        match self {
            Tree::Text(s) => Some(s.clone()),
            Tree::Datetime(s) => Some(s.clone()),
            _ => None,
        }
    }

    /// The strings of an array whose items are all strings.
    pub fn as_strs(&self) -> (list: Option<Vec<String>>)
        ensures
            list.deep_view() == self@.as_strs(),
    {
        match self {
            Tree::Array(items) => {
                let ghost nodes = self@->Array_0;
                proof {
                    lemma_array_view(*self);
                }
                let mut list: Vec<String> = Vec::new();
                let mut i: usize = 0;
                while i < items.len()
                    invariant
                        i <= items.len(),
                        self@ matches Node::Array(_),
                        nodes == self@->Array_0,
                        nodes.len() == items.len(),
                        forall|k: int| 0 <= k < items.len() ==> nodes[k] == items[k]@,
                        list.len() == i,
                        forall|k: int|
                            0 <= k < i ==> nodes[k].as_str() == Some(#[trigger] list[k]@),
                    decreases items.len() - i,
                {
                    match items[i].as_str() {
                        Some(s) => list.push(String::from_str(s)),
                        None => {
                            assert(nodes[i as int].as_str() is None);
                            return None;
                        },
                    }
                    i += 1;
                }
                proof {
                    assert forall|k: int| 0 <= k < nodes.len() implies (
                    #[trigger] nodes[k]).as_str() is Some by {
                        assert(nodes[k].as_str() == Some(list[k]@));
                    }
                    assert(list.deep_view() =~= self@.as_strs().unwrap());
                }
                Some(list)
            },
            _ => None,
        }
    }

    /// The strings of an array whose items all read as strings.
    pub fn as_strings(&self) -> (list: Option<Vec<String>>)
        ensures
            list.deep_view() == self@.as_strings(),
    {
        match self {
            Tree::Array(items) => {
                let ghost nodes = self@->Array_0;
                proof {
                    lemma_array_view(*self);
                }
                let mut list: Vec<String> = Vec::new();
                let mut i: usize = 0;
                while i < items.len()
                    invariant
                        i <= items.len(),
                        self@ matches Node::Array(_),
                        nodes == self@->Array_0,
                        nodes.len() == items.len(),
                        forall|k: int| 0 <= k < items.len() ==> nodes[k] == items[k]@,
                        list.len() == i,
                        forall|k: int|
                            0 <= k < i ==> nodes[k].as_string() == Some(#[trigger] list[k]@),
                    decreases items.len() - i,
                {
                    match items[i].as_string() {
                        Some(s) => list.push(s),
                        None => {
                            assert(nodes[i as int].as_string() is None);
                            return None;
                        },
                    }
                    i += 1;
                }
                proof {
                    assert forall|k: int| 0 <= k < nodes.len() implies (
                    #[trigger] nodes[k]).as_string() is Some by {
                        assert(nodes[k].as_string() == Some(list[k]@));
                    }
                    assert(list.deep_view() =~= self@.as_strings().unwrap());
                }
                Some(list)
            },
            _ => None,
        }
    }
}

/// A TOML document as the `toml` crate holds it.
#[verifier::external_type_specification]
#[verifier::external_body]
pub struct ExTomlValue(toml::Value);

/// What a value of the `toml` crate holds.
pub uninterp spec fn toml_content(raw: toml::Value) -> Node;

/// What the `toml` crate reads from a text: the document's root table, or
/// `None` where the text is not a TOML document.
pub uninterp spec fn toml_document(text: Seq<char>) -> Option<Node>;

/// How many brackets, braces and dots a text may hold and still be read.
pub const NESTING_LIMIT: usize = 256;

/// Whether a character can open a level of nesting in a TOML document: a
/// bracket opens an array or a table's header, a brace an inline table, and
/// a dot a table inside a table.
pub open spec fn opens_level(c: char) -> bool {
    c == '[' || c == '{' || c == '.'
}

/// How many characters of a text can open a level of nesting. No value of
/// the document is nested deeper than this.
pub open spec fn nesting_marks(text: Seq<char>) -> nat
    decreases text.len(),
{
    if text.len() == 0 {
        0
    } else {
        nesting_marks(text.drop_last()) + if opens_level(text.last()) {
            1nat
        } else {
            0nat
        }
    }
}

/// A text holds at least the marks of its beginning.
pub proof fn lemma_nesting_marks_grow(text: Seq<char>, k: int)
    requires
        0 <= k <= text.len(),
    ensures
        nesting_marks(text.take(k)) <= nesting_marks(text),
    decreases text.len() - k,
{
    if k == text.len() {
        assert(text.take(k) =~= text);
    } else {
        lemma_nesting_marks_grow(text, k + 1);
        assert(text.take(k + 1).drop_last() =~= text.take(k));
    }
}

/// Whether a text holds no more brackets, braces and dots than are read.
pub fn within_nesting_limit(text: &str) -> (yes: bool)
    ensures
        yes == (nesting_marks(text@) <= NESTING_LIMIT),
{
    let mut count: usize = 0;
    assert(text@.take(0) =~= Seq::<char>::empty());
    for c in it: text.chars()
        invariant
            it.seq() == text@,
            count <= NESTING_LIMIT,
            count == nesting_marks(text@.take(it.index() as int)),
    {
        proof {
            let upto = text@.take(it.index() + 1);
            assert(upto.drop_last() =~= text@.take(it.index() as int));
            assert(upto.last() == c);
        }
        if c == '[' || c == '{' || c == '.' {
            if count == NESTING_LIMIT {
                proof {
                    lemma_nesting_marks_grow(text@, it.index() + 1);
                }
                return false;
            }
            count += 1;
        }
    }
    assert(text@.take(text@.len() as int) =~= text@);
    true
}

/// `toml::from_str` at the type `toml::Value`. The contract claims only that
/// the outcome is a function of the text: an error for a text that is not a
/// TOML document, else the document's content. The crate's parser calls
/// itself once for each level of nesting and sets no bound, so the text may
/// not hold more than `NESTING_LIMIT` of the characters that open a level.
#[verifier::external_body]
fn read_document(text: &str) -> (raw: Option<toml::Value>)
    requires
        nesting_marks(text@) <= NESTING_LIMIT,
    ensures
        match raw {
            Some(value) => toml_document(text@) == Some(toml_content(value)),
            None => toml_document(text@) is None,
        },
{
    toml::from_str::<toml::Value>(text).ok()
}

/// Copies a `toml::Value` into a `Tree`, variant by variant: a float loses
/// its digits, a datetime becomes its printed form, a table keeps the order
/// of its entries.
#[verifier::external_body]
fn lift(raw: &toml::Value) -> (value: Tree)
    ensures
        value@ == toml_content(*raw),
{
    match raw {
        toml::Value::String(s) => Tree::Text(s.clone()),
        toml::Value::Integer(i) => Tree::Integer(*i),
        toml::Value::Float(_) => Tree::Real,
        toml::Value::Boolean(b) => Tree::Boolean(*b),
        toml::Value::Datetime(d) => Tree::Datetime(d.to_string()),
        toml::Value::Array(a) => Tree::Array(a.iter().map(lift).collect()),
        toml::Value::Table(t) => Tree::Table(t.iter().map(|(k, v)| (k.clone(), lift(v))).collect()),
    }
}

/// What reading a text as a configuration document gives: the document,
/// or what keeps the text from being one. A text with more than
/// `NESTING_LIMIT` brackets, braces and dots is not read at all.
pub open spec fn document_of(text: Seq<char>) -> Result<Node, Problem> {
    if nesting_marks(text) > NESTING_LIMIT {
        Err(Problem::Nesting)
    } else {
        match toml_document(text) {
            Some(doc) => Ok(doc),
            None => Err(Problem::Syntax),
        }
    }
}

/// A document that was read, or why none was.
pub open spec fn parsed_view(parsed: Result<Tree, Problem>) -> Result<Node, Problem> {
    match parsed {
        Ok(tree) => Ok(tree@),
        Err(problem) => Err(problem),
    }
}

/// Reads a TOML document.
pub fn parse(text: &str) -> (document: Result<Tree, Problem>)
    ensures
        parsed_view(document) == document_of(text@),
{
    if !within_nesting_limit(text) {
        return Err(Problem::Nesting);
    }
    match read_document(text) {
        Some(raw) => Ok(lift(&raw)),
        None => Err(Problem::Syntax),
    }
}

} // verus!
