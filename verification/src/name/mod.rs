//! Names, and the surname and given name they are made of.

pub mod error;
pub mod gender;
pub mod laws;
pub mod pool;

use crate::name::error::NameError;
use crate::name::gender::Gender;
use crate::name::pool::{model_of, Entry, Forms};
use crate::value::{Node, Value};
use vstd::prelude::*;
use vstd::string::StringExecFns;

verus! {

/// A surname and a given name, put together for one person.
#[derive(Debug)]
pub struct Name {
    pub first: First,
    pub last: Last,
}

/// A given name, with the gender it was drawn for.
#[derive(Debug)]
pub struct First {
    pub gender: Gender,
    name: Entry,
}

/// A surname.
#[derive(Debug)]
pub struct Last {
    name: Entry,
}

/// The model of a [`First`].
pub struct FirstModel {
    pub gender: Gender,
    pub forms: Forms,
}

/// The model of a [`Name`].
pub struct NameModel {
    pub first: FirstModel,
    pub last: Forms,
}

/// A surname and a given name in one written form, joined as a full name:
/// the surname, one space, the given name.
pub open spec fn full_form(last: Seq<char>, first: Seq<char>) -> Seq<char> {
    last + seq![' '] + first
}

impl NameModel {
    pub open spec fn kanji(self) -> Seq<char> {
        full_form(self.last.kanji, self.first.forms.kanji)
    }

    pub open spec fn hiragana(self) -> Seq<char> {
        full_form(self.last.hiragana, self.first.forms.hiragana)
    }

    pub open spec fn katakana(self) -> Seq<char> {
        full_form(self.last.katakana, self.first.forms.katakana)
    }

    pub open spec fn is_female(self) -> bool {
        self.first.gender == Gender::Female
    }

    pub open spec fn is_male(self) -> bool {
        self.first.gender == Gender::Male
    }
}

impl Node {
    /// The given name that `draw` takes from this table for `gender`.
    pub open spec fn first_at(self, gender: Gender, draw: nat) -> Result<FirstModel, NameError> {
        match self.first_names(gender) {
            Err(e) => Err(e),
            Ok(pool) => match pool.entry_at(draw) {
                Err(e) => Err(e),
                Ok(forms) => Ok(FirstModel { gender, forms }),
            },
        }
    }

    /// The surname that `draw` takes from this table.
    pub open spec fn last_at(self, draw: nat) -> Result<Forms, NameError> {
        match self.last_names() {
            Err(e) => Err(e),
            Ok(pool) => pool.entry_at(draw),
        }
    }

    /// The name that two draws take from this table for `gender`. The given
    /// name is read before the surname, so where both fail, the error is the
    /// given name's.
    pub open spec fn name_at(self, gender: Gender, first_draw: nat, last_draw: nat) -> Result<
        NameModel,
        NameError,
    > {
        match self.first_at(gender, first_draw) {
            Err(e) => Err(e),
            Ok(first) => match self.last_at(last_draw) {
                Err(e) => Err(e),
                Ok(last) => Ok(NameModel { first, last }),
            },
        }
    }

    /// Whether this table has, for `gender`, a pool of given names and a pool
    /// of surnames that every draw takes a name from.
    pub open spec fn stocked_for(self, gender: Gender) -> bool {
        &&& self.first_names(gender) matches Ok(firsts) && firsts.is_pool()
        &&& self.last_names() matches Ok(lasts) && lasts.is_pool()
    }
}

impl View for First {
    type V = FirstModel;

    closed spec fn view(&self) -> FirstModel {
        FirstModel { gender: self.gender, forms: self.name@ }
    }
}

impl View for Last {
    type V = Forms;

    closed spec fn view(&self) -> Forms {
        self.name@
    }
}

impl View for Name {
    type V = NameModel;

    open spec fn view(&self) -> NameModel {
        NameModel { first: self.first@, last: self.last@ }
    }
}

/// The full name in one written form.
fn join(last: &str, first: &str) -> (s: String)
    ensures
        s@ == full_form(last@, first@),
{
    let mut s: String = last.to_owned();
    s.append(" ");
    s.append(first);
    proof {
        reveal_strlit(" ");
    }
    s
}

impl Name {
    /// A name for a gender chosen at random, drawn at random from `table`.
    ///
    /// Fails as [`Name::new_with_gender`] does for the gender chosen.
    pub fn new(table: &Value) -> (r: Result<Name, NameError>)
        ensures
            exists|gender: Gender, first_draw: nat, last_draw: nat|
                model_of(r) == table@.name_at(gender, first_draw, last_draw),
            table@.stocked_for(Gender::Female) && table@.stocked_for(Gender::Male) ==> r is Ok,
            r matches Ok(name) ==> {
                &&& table@.first_names(name@.first.gender) matches Ok(firsts) && firsts.holds(
                    name@.first.forms,
                )
                &&& table@.last_names() matches Ok(lasts) && lasts.holds(name@.last)
            },
    {
        let gender = Gender::sample();
        let r = Name::new_with_gender(table, gender);
        proof {
            let (first_draw, last_draw) = choose|first_draw: nat, last_draw: nat|
                model_of(r) == table@.name_at(gender, first_draw, last_draw);
            assert(model_of(r) == table@.name_at(gender, first_draw, last_draw));
        }
        r
    }

    /// A name for `gender`, drawn at random from `table`: a given name from
    /// the gender's pool and a surname, by two draws that do not depend on
    /// each other.
    ///
    /// Fails where either part fails, see [`First::new`] and [`Last::new`];
    /// the given name is read first.
    pub fn new_with_gender(table: &Value, gender: Gender) -> (r: Result<Name, NameError>)
        ensures
            exists|first_draw: nat, last_draw: nat|
                model_of(r) == table@.name_at(gender, first_draw, last_draw),
            table@.stocked_for(gender) ==> r is Ok,
            r matches Ok(name) ==> {
                &&& name@.first.gender == gender
                &&& table@.first_names(gender) matches Ok(firsts) && firsts.holds(
                    name@.first.forms,
                )
                &&& table@.last_names() matches Ok(lasts) && lasts.holds(name@.last)
            },
    {
        let first = match First::new(table, gender) {
            Err(e) => {
                let ghost first_draw = choose|draw: nat|
                    Err::<FirstModel, NameError>(e) == table@.first_at(gender, draw);
                assert(model_of(Err::<Name, NameError>(e)) == table@.name_at(gender, first_draw, 0));
                return Err(e);
            },
            Ok(first) => first,
        };
        let ghost first_draw = choose|draw: nat|
            Ok::<FirstModel, NameError>(first@) == table@.first_at(gender, draw);
        match Last::new(table) {
            Err(e) => {
                let ghost last_draw = choose|draw: nat|
                    Err::<Forms, NameError>(e) == table@.last_at(draw);
                assert(model_of(Err::<Name, NameError>(e)) == table@.name_at(
                    gender,
                    first_draw,
                    last_draw,
                ));
                Err(e)
            },
            Ok(last) => {
                let ghost last_draw = choose|draw: nat|
                    Ok::<Forms, NameError>(last@) == table@.last_at(draw);
                let name = Name { first, last };
                assert(model_of(Ok::<Name, NameError>(name)) == table@.name_at(
                    gender,
                    first_draw,
                    last_draw,
                ));
                Ok(name)
            },
        }
    }

    /// The name that the two given draws take from `table` for `gender`.
    pub fn with_draws(table: &Value, gender: Gender, first_draw: usize, last_draw: usize) -> (r:
        Result<Name, NameError>)
        ensures
            model_of(r) == table@.name_at(gender, first_draw as nat, last_draw as nat),
    {
        match First::with_draw(table, gender, first_draw) {
            Err(e) => Err(e),
            Ok(first) => match Last::with_draw(table, last_draw) {
                Err(e) => Err(e),
                Ok(last) => Ok(Name { first, last }),
            },
        }
    }

    /// The full name in kanji: surname, a space, given name.
    pub fn kanji(&self) -> (s: String)
        ensures
            s@ == self@.kanji(),
            s@.len() > 0,
    {
        join(self.last.name.kanji(), self.first.name.kanji())
    }

    /// The full name in hiragana: surname, a space, given name.
    pub fn hiragana(&self) -> (s: String)
        ensures
            s@ == self@.hiragana(),
            s@.len() > 0,
    {
        join(self.last.name.hiragana(), self.first.name.hiragana())
    }

    /// The full name in katakana: surname, a space, given name.
    pub fn katakana(&self) -> (s: String)
        ensures
            s@ == self@.katakana(),
            s@.len() > 0,
    {
        join(self.last.name.katakana(), self.first.name.katakana())
    }

    /// Whether the given name was drawn for `Female`.
    pub fn is_female(&self) -> (b: bool)
        ensures
            b == self@.is_female(),
    {
        self.first.is_female()
    }

    /// Whether the given name was drawn for `Male`.
    pub fn is_male(&self) -> (b: bool)
        ensures
            b == self@.is_male(),
    {
        self.first.is_male()
    }
}

impl First {
    /// A given name for `gender`, drawn at random from `table`.
    ///
    /// Fails with `MissingCategory` where the table has no `first_name`, with
    /// `MissingGenderBucket` where that holds nothing under the gender's key,
    /// with `EmptyPool` where the pool is a list without items, and with
    /// `MalformedEntry` where what was drawn is not a list of three texts.
    pub fn new(table: &Value, gender: Gender) -> (r: Result<First, NameError>)
        ensures
            exists|draw: nat| model_of(r) == table@.first_at(gender, draw),
            table@.first_names(gender) matches Err(e) ==> r == Err::<First, NameError>(e),
            table@.first_names(gender) matches Ok(pool) ==> {
                &&& !pool.samplable() <==> r == Err::<First, NameError>(NameError::EmptyPool)
                &&& pool.is_pool() ==> r is Ok
                &&& r matches Ok(first) ==> first@.gender == gender && pool.holds(first@.forms)
            },
    {
        match table.first_names(gender) {
            Err(e) => {
                assert(model_of(Err::<First, NameError>(e)) == table@.first_at(gender, 0));
                Err(e)
            },
            Ok(pool) => match pool.sample_entry() {
                Err(e) => {
                    let ghost draw = choose|draw: nat|
                        Err::<Forms, NameError>(e) == pool@.entry_at(draw);
                    assert(model_of(Err::<First, NameError>(e)) == table@.first_at(gender, draw));
                    Err(e)
                },
                Ok(name) => {
                    let ghost draw = choose|draw: nat|
                        Ok::<Forms, NameError>(name@) == pool@.entry_at(draw);
                    let first = First { gender, name };
                    assert(model_of(Ok::<First, NameError>(first)) == table@.first_at(
                        gender,
                        draw,
                    ));
                    Ok(first)
                },
            },
        }
    }

    /// The given name that `draw` takes from `table` for `gender`.
    pub fn with_draw(table: &Value, gender: Gender, draw: usize) -> (r: Result<First, NameError>)
        ensures
            model_of(r) == table@.first_at(gender, draw as nat),
    {
        match table.first_names(gender) {
            Err(e) => Err(e),
            Ok(pool) => match pool.entry_at(draw) {
                Err(e) => Err(e),
                Ok(name) => Ok(First { gender, name }),
            },
        }
    }

    /// Whether this name was drawn for `Female`.
    pub fn is_female(&self) -> (b: bool)
        ensures
            b == (self@.gender == Gender::Female),
    {
        self.gender.is_female()
    }

    /// Whether this name was drawn for `Male`.
    pub fn is_male(&self) -> (b: bool)
        ensures
            b == (self@.gender == Gender::Male),
    {
        self.gender.is_male()
    }

    /// The kanji form.
    pub fn kanji(&self) -> (s: String)
        ensures
            s@ == self@.forms.kanji,
    {
        self.name.kanji().to_owned()
    }

    /// The hiragana form.
    pub fn hiragana(&self) -> (s: String)
        ensures
            s@ == self@.forms.hiragana,
    {
        self.name.hiragana().to_owned()
    }

    /// The katakana form.
    pub fn katakana(&self) -> (s: String)
        ensures
            s@ == self@.forms.katakana,
    {
        self.name.katakana().to_owned()
    }
}

impl Last {
    /// A surname, drawn at random from `table`.
    ///
    /// Fails with `MissingCategory` where the table has no `last_name`, with
    /// `EmptyPool` where the pool is a list without items, and with
    /// `MalformedEntry` where what was drawn is not a list of three texts.
    pub fn new(table: &Value) -> (r: Result<Last, NameError>)
        ensures
            exists|draw: nat| model_of(r) == table@.last_at(draw),
            table@.last_names() matches Err(e) ==> r == Err::<Last, NameError>(e),
            table@.last_names() matches Ok(pool) ==> {
                &&& !pool.samplable() <==> r == Err::<Last, NameError>(NameError::EmptyPool)
                &&& pool.is_pool() ==> r is Ok
                &&& r matches Ok(last) ==> pool.holds(last@)
            },
    {
        match table.last_names() {
            Err(e) => {
                assert(model_of(Err::<Last, NameError>(e)) == table@.last_at(0));
                Err(e)
            },
            Ok(pool) => match pool.sample_entry() {
                Err(e) => {
                    let ghost draw = choose|draw: nat|
                        Err::<Forms, NameError>(e) == pool@.entry_at(draw);
                    assert(model_of(Err::<Last, NameError>(e)) == table@.last_at(draw));
                    Err(e)
                },
                Ok(name) => {
                    let ghost draw = choose|draw: nat|
                        Ok::<Forms, NameError>(name@) == pool@.entry_at(draw);
                    let last = Last { name };
                    assert(model_of(Ok::<Last, NameError>(last)) == table@.last_at(draw));
                    Ok(last)
                },
            },
        }
    }

    /// The surname that `draw` takes from `table`.
    pub fn with_draw(table: &Value, draw: usize) -> (r: Result<Last, NameError>)
        ensures
            model_of(r) == table@.last_at(draw as nat),
    {
        match table.last_names() {
            Err(e) => Err(e),
            Ok(pool) => match pool.entry_at(draw) {
                Err(e) => Err(e),
                Ok(name) => Ok(Last { name }),
            },
        }
    }

    /// The kanji form.
    pub fn kanji(&self) -> (s: String)
        ensures
            s@ == self@.kanji,
    {
        self.name.kanji().to_owned()
    }

    /// The hiragana form.
    pub fn hiragana(&self) -> (s: String)
        ensures
            s@ == self@.hiragana,
    {
        self.name.hiragana().to_owned()
    }

    /// The katakana form.
    pub fn katakana(&self) -> (s: String)
        ensures
            s@ == self@.katakana,
    {
        self.name.katakana().to_owned()
    }
}

} // verus!
