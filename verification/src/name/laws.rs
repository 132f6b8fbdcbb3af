//! What holds of every name that is drawn from a table.

use crate::name::gender::Gender;
use crate::name::pool::{lemma_entry_comes_from_pool, Forms};
use crate::name::full_form;
use crate::value::Node;
use vstd::prelude::*;

verus! {

impl Forms {
    /// None of the three forms is empty.
    pub open spec fn filled(self) -> bool {
        self.kanji.len() > 0 && self.hiragana.len() > 0 && self.katakana.len() > 0
    }

    /// None of the three forms holds a space.
    pub open spec fn unspaced(self) -> bool {
        !self.kanji.contains(' ') && !self.hiragana.contains(' ') && !self.katakana.contains(' ')
    }
}

impl Node {
    /// No entry of this pool has an empty form.
    pub open spec fn entries_filled(self) -> bool {
        forall|forms: Forms| #[trigger] self.holds(forms) ==> forms.filled()
    }

    /// No entry of this pool has a space in one of its forms.
    pub open spec fn entries_unspaced(self) -> bool {
        forall|forms: Forms| #[trigger] self.holds(forms) ==> forms.unspaced()
    }
}

/// `full` is `last`, one space and `first`, and that space is its only one.
pub open spec fn one_space_between(full: Seq<char>, last: Seq<char>, first: Seq<char>) -> bool {
    &&& full.len() == last.len() + 1 + first.len()
    &&& full[last.len() as int] == ' '
    &&& forall|i: int| 0 <= i < full.len() && full[i] == ' ' ==> i == last.len()
    &&& full.subrange(0, last.len() as int) == last
    &&& full.subrange(last.len() as int + 1, full.len() as int) == first
}

/// A full form is never empty. Where neither part holds a space, it holds
/// exactly one, with the surname before it and the given name after it.
pub proof fn lemma_full_form_parts(last: Seq<char>, first: Seq<char>)
    ensures
        full_form(last, first).len() > 0,
        !last.contains(' ') && !first.contains(' ') ==> one_space_between(
            full_form(last, first),
            last,
            first,
        ),
{
    let full = full_form(last, first);
    if !last.contains(' ') && !first.contains(' ') {
        assert forall|i: int| 0 <= i < full.len() && full[i] == ' ' implies i == last.len() by {
            if i < last.len() {
                assert(last[i] == ' ');
            } else if i > last.len() {
                assert(first[i - last.len() - 1] == ' ');
            }
        }
        assert(full.subrange(0, last.len() as int) =~= last);
        assert(full.subrange(last.len() as int + 1, full.len() as int) =~= first);
    }
}

/// A name drawn for a gender answers to that gender and to no other.
pub proof fn lemma_name_answers_to_its_gender(
    table: Node,
    gender: Gender,
    first_draw: nat,
    last_draw: nat,
)
    ensures
        table.name_at(gender, first_draw, last_draw) matches Ok(name) ==> {
            &&& name.first.gender == gender
            &&& name.is_female() == (gender == Gender::Female)
            &&& name.is_male() == (gender == Gender::Male)
            &&& name.is_female() != name.is_male()
        },
{
}

/// Both parts of a name come from the table: the surname is an entry of the
/// surname pool, the given name an entry of the pool of its gender.
pub proof fn lemma_name_comes_from_pools(
    table: Node,
    gender: Gender,
    first_draw: nat,
    last_draw: nat,
)
    ensures
        table.name_at(gender, first_draw, last_draw) matches Ok(name) ==> {
            &&& table.last_names() matches Ok(lasts) && lasts.holds(name.last)
            &&& table.first_names(gender) matches Ok(firsts) && firsts.holds(name.first.forms)
        },
{
    if table.name_at(gender, first_draw, last_draw) is Ok {
        lemma_entry_comes_from_pool(table.first_names(gender)->Ok_0, first_draw);
        lemma_entry_comes_from_pool(table.last_names()->Ok_0, last_draw);
    }
}

/// Drawn from pools whose entries hold no space, a name is, in each written
/// form, the surname, exactly one space and the given name.
pub proof fn lemma_name_has_one_space(
    table: Node,
    gender: Gender,
    first_draw: nat,
    last_draw: nat,
)
    requires
        table.first_names(gender) matches Ok(firsts) ==> firsts.entries_unspaced(),
        table.last_names() matches Ok(lasts) ==> lasts.entries_unspaced(),
    ensures
        table.name_at(gender, first_draw, last_draw) matches Ok(name) ==> {
            &&& one_space_between(name.kanji(), name.last.kanji, name.first.forms.kanji)
            &&& one_space_between(name.hiragana(), name.last.hiragana, name.first.forms.hiragana)
            &&& one_space_between(name.katakana(), name.last.katakana, name.first.forms.katakana)
        },
{
    if table.name_at(gender, first_draw, last_draw) is Ok {
        let name = table.name_at(gender, first_draw, last_draw)->Ok_0;
        lemma_name_comes_from_pools(table, gender, first_draw, last_draw);
        lemma_full_form_parts(name.last.kanji, name.first.forms.kanji);
        lemma_full_form_parts(name.last.hiragana, name.first.forms.hiragana);
        lemma_full_form_parts(name.last.katakana, name.first.forms.katakana);
    }
}

/// Drawn from pools whose entries have no empty form, a name has no empty
/// form either, in its surname or in its given name.
pub proof fn lemma_name_parts_are_filled(
    table: Node,
    gender: Gender,
    first_draw: nat,
    last_draw: nat,
)
    requires
        table.first_names(gender) matches Ok(firsts) ==> firsts.entries_filled(),
        table.last_names() matches Ok(lasts) ==> lasts.entries_filled(),
    ensures
        table.name_at(gender, first_draw, last_draw) matches Ok(name) ==> name.first.forms.filled()
            && name.last.filled(),
{
    lemma_name_comes_from_pools(table, gender, first_draw, last_draw);
}

} // verus!
