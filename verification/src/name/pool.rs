//! The pools of a name table, and the entries that are drawn from them.

use crate::name::error::NameError;
use crate::name::gender::{lemma_key_has_no_dot, Gender};
use crate::value::{lemma_descend_one_key, Node, Value};
use vstd::prelude::*;

verus! {

/// The three written forms of one name, as character sequences.
pub struct Forms {
    pub kanji: Seq<char>,
    pub hiragana: Seq<char>,
    pub katakana: Seq<char>,
}

/// One entry of a pool: a name in its three written forms.
#[derive(Debug)]
pub struct Entry {
    kanji: String,
    hiragana: String,
    katakana: String,
}

impl View for Entry {
    type V = Forms;

    closed spec fn view(&self) -> Forms {
        Forms { kanji: self.kanji@, hiragana: self.hiragana@, katakana: self.katakana@ }
    }
}

/// The outcome of a fallible step with the value, if there is one, replaced
/// by its model.
pub open spec fn model_of<T: View>(r: Result<T, NameError>) -> Result<T::V, NameError> {
    match r {
        Ok(v) => Ok(v@),
        Err(e) => Err(e),
    }
}

impl Node {
    /// The entry that this node spells out: a list of exactly three texts is
    /// read, in this order, as kanji, hiragana and katakana. Nothing else is
    /// an entry.
    pub open spec fn forms(self) -> Option<Forms> {
        match self {
            Node::List(items) => if items.len() == 3 && items[0] is Text && items[1] is Text
                && items[2] is Text {
                Some(
                    Forms {
                        kanji: items[0]->Text_0,
                        hiragana: items[1]->Text_0,
                        katakana: items[2]->Text_0,
                    },
                )
            } else {
                None
            },
            _ => None,
        }
    }

    /// The pool of given names of a gender: what the table, under
    /// `first_name`, holds at the gender's key.
    pub open spec fn first_names(self, gender: Gender) -> Result<Node, NameError> {
        match self.child("first_name"@) {
            None => Err(NameError::MissingCategory),
            Some(category) => match category.child(gender.key_model()) {
                None => Err(NameError::MissingGenderBucket),
                Some(pool) => Ok(pool),
            },
        }
    }

    /// The pool of surnames: what the table holds under `last_name`.
    pub open spec fn last_names(self) -> Result<Node, NameError> {
        match self.child("last_name"@) {
            None => Err(NameError::MissingCategory),
            Some(pool) => Ok(pool),
        }
    }

    /// The entry that `draw` takes from this pool: the pool must not be an
    /// empty list, and what the draw picks must be an entry.
    pub open spec fn entry_at(self, draw: nat) -> Result<Forms, NameError> {
        if !self.samplable() {
            Err(NameError::EmptyPool)
        } else {
            match self.picked(draw).forms() {
                None => Err(NameError::MalformedEntry),
                Some(forms) => Ok(forms),
            }
        }
    }

    /// Whether this node is a pool that every draw takes an entry from: a
    /// list that is not empty and holds entries only.
    pub open spec fn is_pool(self) -> bool {
        self matches Node::List(items) && items.len() > 0 && forall|i: int|
            0 <= i < items.len() ==> (#[trigger] items[i]).forms() is Some
    }

    /// Whether `forms` is spelled out by one of the items of this pool.
    pub open spec fn holds(self, forms: Forms) -> bool {
        self matches Node::List(items) && exists|i: int|
            0 <= i < items.len() && #[trigger] items[i].forms() == Some(forms)
    }
}

impl Entry {
    /// Reads a value as an entry, if it is a list of exactly three texts.
    pub fn read(value: &Value) -> (r: Option<Entry>)
        ensures
            match r {
                Some(entry) => value@.forms() == Some(entry@),
                None => value@.forms() is None,
            },
    {
        match value.as_list() {
            None => None,
            Some(items) => {
                if items.len() != 3 {
                    return None;
                }
                match (items[0].as_string(), items[1].as_string(), items[2].as_string()) {
                    (Some(kanji), Some(hiragana), Some(katakana)) => Some(
                        Entry {
                            kanji: kanji.to_owned(),
                            hiragana: hiragana.to_owned(),
                            katakana: katakana.to_owned(),
                        },
                    ),
                    _ => None,
                }
            },
        }
    }

    /// The kanji form.
    pub fn kanji(&self) -> (s: &str)
        ensures
            s@ == self@.kanji,
    {
        self.kanji.as_str()
    }

    /// The hiragana form.
    pub fn hiragana(&self) -> (s: &str)
        ensures
            s@ == self@.hiragana,
    {
        self.hiragana.as_str()
    }

    /// The katakana form.
    pub fn katakana(&self) -> (s: &str)
        ensures
            s@ == self@.katakana,
    {
        self.katakana.as_str()
    }
}

impl Value {
    /// The pool of given names of `gender` in this table.
    ///
    /// Fails with `MissingCategory` where the table has no `first_name`, and
    /// with `MissingGenderBucket` where `first_name` holds nothing under the
    /// gender's key.
    pub fn first_names(&self, gender: Gender) -> (r: Result<&Value, NameError>)
        ensures
            model_of(r) == self@.first_names(gender),
    {
        match self.get("first_name") {
            None => Err(NameError::MissingCategory),
            Some(category) => {
                proof {
                    lemma_key_has_no_dot(gender);
                    lemma_descend_one_key(category@, gender.key_model());
                }
                match category.lookup(gender.key()) {
                    None => Err(NameError::MissingGenderBucket),
                    Some(pool) => Ok(pool),
                }
            },
        }
    }

    /// The pool of surnames in this table.
    ///
    /// Fails with `MissingCategory` where the table has no `last_name`.
    pub fn last_names(&self) -> (r: Result<&Value, NameError>)
        ensures
            model_of(r) == self@.last_names(),
    {
        match self.get("last_name") {
            None => Err(NameError::MissingCategory),
            Some(pool) => Ok(pool),
        }
    }

    /// The entry that `draw` takes from this pool.
    ///
    /// Fails with `EmptyPool` where the pool is a list without items, and with
    /// `MalformedEntry` where what the draw picks is not a list of exactly
    /// three texts.
    pub fn entry_at(&self, draw: usize) -> (r: Result<Entry, NameError>)
        ensures
            model_of(r) == self@.entry_at(draw as nat),
    {
        if self.is_empty_list() {
            return Err(NameError::EmptyPool);
        }
        match Entry::read(self.pick(draw)) {
            None => Err(NameError::MalformedEntry),
            Some(entry) => Ok(entry),
        }
    }

    /// An entry taken from this pool by a fresh random draw.
    ///
    /// Which entry comes out, and with a pool of mixed shape whether one
    /// comes out at all, is up to the draw; [`Value::entry_at`] says what
    /// each draw gives.
    pub fn sample_entry(&self) -> (r: Result<Entry, NameError>)
        ensures
            exists|draw: nat| model_of(r) == self@.entry_at(draw),
            !self@.samplable() <==> r == Err::<Entry, NameError>(NameError::EmptyPool),
            self@.is_pool() ==> r is Ok,
            r matches Ok(entry) ==> self@.holds(entry@),
    {
        if self.is_empty_list() {
            assert(self@.entry_at(0) == Err::<Forms, NameError>(NameError::EmptyPool));
            return Err(NameError::EmptyPool);
        }
        let picked = self.sample();
        let ghost draw = choose|draw: nat| picked@ == self@.picked(draw);
        let r = match Entry::read(picked) {
            None => Err(NameError::MalformedEntry),
            Some(entry) => Ok(entry),
        };
        assert(model_of(r) == self@.entry_at(draw));
        proof {
            lemma_entry_comes_from_pool(self@, draw);
            lemma_pool_always_yields(self@, draw);
        }
        r
    }
}

/// An entry that a draw takes from a pool is spelled out by one of the pool's
/// items: no draw makes up a name.
pub proof fn lemma_entry_comes_from_pool(pool: Node, draw: nat)
    ensures
        pool.entry_at(draw) matches Ok(forms) ==> pool.holds(forms),
{
    if pool.entry_at(draw) is Ok {
        let items = pool->List_0;
        let i = (draw % items.len()) as int;
        assert(items[i].forms() == Some(pool.entry_at(draw)->Ok_0));
    }
}

/// Every entry of a pool is taken by some draw: the entry at `i` by the draw `i`.
pub proof fn lemma_every_entry_is_drawn(pool: Node, i: nat)
    requires
        pool is List,
        i < pool->List_0.len(),
        pool->List_0[i as int].forms() is Some,
    ensures
        pool.entry_at(i) == Ok::<Forms, NameError>(pool->List_0[i as int].forms()->Some_0),
{
    vstd::arithmetic::div_mod::lemma_small_mod(i, pool->List_0.len());
}

/// From a list that is not empty and holds entries only, every draw takes one.
pub proof fn lemma_pool_always_yields(pool: Node, draw: nat)
    ensures
        pool.is_pool() ==> pool.entry_at(draw) is Ok,
{
    if pool.is_pool() {
        let items = pool->List_0;
        let i = (draw % items.len()) as int;
        assert(items[i].forms() is Some);
    }
}

} // verus!
