//! The structured value a name table is made of, and its mathematical model.

use vstd::prelude::*;
use vstd::string::StrSliceExecFns;

verus! {

/// One node of a name table.
///
/// A table is an association list in document order; where a key occurs more
/// than once, the first occurrence is the one that lookups see.
#[derive(Debug, PartialEq, Eq)]
pub enum Value {
    /// A string.
    Text(String),
    /// An integer.
    Integer(i64),
    /// A truth value.
    Boolean(bool),
    /// A scalar of a kind that name data never uses, such as a date.
    Opaque,
    /// An ordered list of values.
    List(Vec<Value>),
    /// Keys with their values.
    Table(Vec<(String, Value)>),
}

/// The mathematical model of a [`Value`]: strings are character sequences,
/// lists are sequences and tables are maps from key to node.
pub enum Node {
    /// The characters of a text.
    Text(Seq<char>),
    /// The number that an integer holds.
    Integer(int),
    /// A truth value.
    Boolean(bool),
    /// A scalar of which nothing is known.
    Opaque,
    /// The items of a list, in order.
    List(Seq<Node>),
    /// What a table holds under each of its keys.
    Table(Map<Seq<char>, Node>),
}

/// The map that an association list stands for, read from position `from` on.
/// An earlier pair hides a later pair with the same key.
pub open spec fn entries_model(entries: Vec<(String, Value)>, from: int) -> Map<Seq<char>, Node>
    decreases entries, entries.len() - from,
{
    if 0 <= from < entries.len() {
        entries_model(entries, from + 1).insert(entries[from].0@, entries[from].1@)
    } else {
        Map::empty()
    }
}

impl View for Value {
    type V = Node;

    open spec fn view(&self) -> Node
        decreases self, 0int,
    {
        match self {
            Value::Text(s) => Node::Text(s@),
            Value::Integer(i) => Node::Integer(*i as int),
            Value::Boolean(b) => Node::Boolean(*b),
            Value::Opaque => Node::Opaque,
            Value::List(items) => Node::List(
                Seq::new(
                    items.len() as nat,
                    |i: int|
                        if 0 <= i < items.len() {
                            items[i]@
                        } else {
                            Node::Opaque
                        },
                ),
            ),
            Value::Table(entries) => Node::Table(entries_model(*entries, 0)),
        }
    }
}

impl Node {
    /// The node stored under `key`, where this node is a table that has the key.
    pub open spec fn child(self, key: Seq<char>) -> Option<Node> {
        match self {
            Node::Table(m) => if m.contains_key(key) {
                Some(m[key])
            } else {
                None
            },
            _ => None,
        }
    }

    /// The node reached by a dotted path: the path is cut at every `.`, and
    /// each piece in turn is looked up as a key in the table reached so far.
    pub open spec fn descend(self, path: Seq<char>) -> Option<Node> {
        descend_from(self, path, 0)
    }
}

/// Where the path segment that starts at `start` ends: the position of the
/// next `.`, or the end of the path.
pub open spec fn segment_end(path: Seq<char>, start: int) -> int
    decreases path.len() - start,
{
    if 0 <= start < path.len() && path[start] != '.' {
        segment_end(path, start + 1)
    } else {
        start
    }
}

/// [`Node::descend`] for the part of `path` from `start` on.
pub open spec fn descend_from(node: Node, path: Seq<char>, start: int) -> Option<Node>
    decreases path.len() - start,
{
    let end = segment_end(path, start);
    match node.child(path.subrange(start, end)) {
        None => None,
        Some(below) => if start <= end < path.len() {
            descend_from(below, path, end + 1)
        } else {
            Some(below)
        },
    }
}

/// One step of [`entries_model`].
proof fn lemma_entries_model_unfold(entries: Vec<(String, Value)>, from: int)
    ensures
        entries_model(entries, from) == if 0 <= from < entries.len() {
            entries_model(entries, from + 1).insert(entries[from].0@, entries[from].1@)
        } else {
            Map::empty()
        },
{
}

/// No pair from `from` on has the key, so the map does not have it.
proof fn lemma_key_absent(entries: Vec<(String, Value)>, from: int, key: Seq<char>)
    requires
        0 <= from <= entries.len(),
        forall|j: int| from <= j < entries.len() ==> entries[j].0@ != key,
    ensures
        !entries_model(entries, from).contains_key(key),
    decreases entries.len() - from,
{
    if from < entries.len() {
        lemma_key_absent(entries, from + 1, key);
    }
    lemma_entries_model_unfold(entries, from);
}

/// The first pair from `from` on that has the key gives the map's value.
proof fn lemma_first_match(entries: Vec<(String, Value)>, from: int, at: int, key: Seq<char>)
    requires
        0 <= from <= at < entries.len(),
        entries[at].0@ == key,
        forall|j: int| from <= j < at ==> entries[j].0@ != key,
    ensures
        entries_model(entries, from).contains_key(key),
        entries_model(entries, from)[key] == entries[at].1@,
    decreases at - from,
{
    if from < at {
        lemma_first_match(entries, from + 1, at, key);
    }
    lemma_entries_model_unfold(entries, from);
}

/// What a table holds under a key is the value of the first pair with that key.
pub proof fn lemma_table_view(entries: Vec<(String, Value)>, key: Seq<char>, at: int)
    requires
        0 <= at < entries.len(),
        entries[at].0@ == key,
        forall|j: int| 0 <= j < at ==> entries[j].0@ != key,
    ensures
        Value::Table(entries)@.child(key) == Some(entries[at].1@),
{
    lemma_first_match(entries, 0, at, key);
}

/// A table holds nothing under a key that none of its pairs has.
pub proof fn lemma_table_view_absent(entries: Vec<(String, Value)>, key: Seq<char>)
    requires
        forall|j: int| 0 <= j < entries.len() ==> entries[j].0@ != key,
    ensures
        Value::Table(entries)@.child(key) is None,
{
    lemma_key_absent(entries, 0, key);
}

/// A segment that is scanned from `start` to `end` without meeting a `.`,
/// and stops at a `.` or at the end of the path, is the segment at `start`.
proof fn lemma_segment_end(path: Seq<char>, start: int, end: int)
    requires
        0 <= start <= end <= path.len(),
        forall|j: int| start <= j < end ==> path[j] != '.',
        end < path.len() ==> path[end] == '.',
    ensures
        segment_end(path, start) == end,
    decreases end - start,
{
    if start < end {
        lemma_segment_end(path, start + 1, end);
    }
}

/// A path without a dot is a single key: following it is looking that key up.
pub proof fn lemma_descend_one_key(node: Node, path: Seq<char>)
    requires
        !path.contains('.'),
    ensures
        node.descend(path) == node.child(path),
{
    lemma_segment_end(path, 0, path.len() as int);
    assert(path.subrange(0, path.len() as int) =~= path);
}

impl Value {
    /// The value stored under `key`, if this value is a table that has the key.
    pub fn get<'a>(&'a self, key: &str) -> (r: Option<&'a Value>)
        ensures
            match r {
                Some(v) => self@.child(key@) == Some(v@),
                None => self@.child(key@) is None,
            },
    {
        match self {
            Value::Table(entries) => {
                let wanted: String = key.to_owned();
                let mut i: usize = 0;
                while i < entries.len()
                    invariant
                        i <= entries.len(),
                        wanted@ == key@,
                        *self == Value::Table(*entries),
                        forall|j: int| 0 <= j < i ==> entries[j].0@ != key@,
                    decreases entries.len() - i,
                {
                    if entries[i].0 == wanted {
                        proof {
                            lemma_table_view(*entries, key@, i as int);
                        }
                        return Some(&entries[i].1);
                    }
                    i += 1;
                }
                proof {
                    lemma_table_view_absent(*entries, key@);
                }
                None
            },
            _ => None,
        }
    }

    /// The value reached by a dotted path such as `first_name.female`: each
    /// piece between dots is looked up as a key in the table reached so far.
    /// A path without a dot is a single key.
    pub fn lookup<'a>(&'a self, path: &str) -> (r: Option<&'a Value>)
        ensures
            match r {
                Some(v) => self@.descend(path@) == Some(v@),
                None => self@.descend(path@) is None,
            },
    {
        let len: usize = path.unicode_len();
        let mut node: &'a Value = self;
        let mut start: usize = 0;
        loop
            invariant
                start <= len,
                len == path@.len(),
                self@.descend(path@) == descend_from(node@, path@, start as int),
            decreases len - start,
        {
            let mut end: usize = start;
            while end < len && path.get_char(end) != '.'
                invariant
                    start <= end <= len,
                    len == path@.len(),
                    forall|j: int| start <= j < end ==> path@[j] != '.',
                decreases len - end,
            {
                end += 1;
            }
            proof {
                lemma_segment_end(path@, start as int, end as int);
            }
            match node.get(path.substring_char(start, end)) {
                None => {
                    return None;
                },
                Some(below) => {
                    if end == len {
                        return Some(below);
                    }
                    node = below;
                    start = end + 1;
                },
            }
        }
    }

    /// The items, if this value is a list.
    pub fn as_list(&self) -> (r: Option<&Vec<Value>>)
        ensures
            match r {
                Some(items) => self@ == Node::List(items@.map_values(|v: Value| v@)),
                None => !(self@ is List),
            },
    {
        match self {
            Value::List(items) => {
                assert(self@->List_0 =~= items@.map_values(|v: Value| v@));
                Some(items)
            },
            _ => None,
        }
    }

    /// The characters, if this value is a text.
    pub fn as_string(&self) -> (r: Option<&str>)
        ensures
            match r {
                Some(s) => self@ == Node::Text(s@),
                None => !(self@ is Text),
            },
    {
        match self {
            Value::Text(s) => Some(s.as_str()),
            _ => None,
        }
    }
}

} // verus!
