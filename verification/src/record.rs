//! One decoded row as an insertion-ordered mapping from column name to
//! generic value.
//!
//! Inserting under a name that is already present overwrites the value in
//! place, keeping the field's position (last write wins); inserting under a
//! fresh name appends the field.

use vstd::prelude::*;

use crate::value::GenericValue;
use crate::value::ValueModel;

verus! {

/// Mathematical model of one record field: the column name and its value.
pub type FieldModel = (Seq<char>, ValueModel);

/// Inserts `(name, v)` into the field sequence: replaces the value at the
/// first field already named `name`, or appends a new field when none is.
pub open spec fn field_insert(s: Seq<FieldModel>, name: Seq<char>, v: ValueModel) -> Seq<
    FieldModel,
>
    decreases s.len(),
{
    if s.len() == 0 {
        seq![(name, v)]
    } else if s[0].0 == name {
        seq![(name, v)] + s.drop_first()
    } else {
        seq![s[0]] + field_insert(s.drop_first(), name, v)
    }
}

/// Holds when no two fields share a name.
pub open spec fn unique_names(s: Seq<FieldModel>) -> bool {
    forall|i: int, j: int| 0 <= i < j < s.len() ==> s[i].0 != s[j].0
}

/// The least position at which a field named `name` stands.
pub open spec fn first_index(s: Seq<FieldModel>, name: Seq<char>) -> int {
    choose|j: int|
        0 <= j < s.len() && s[j].0 == name && (forall|k: int| 0 <= k < j ==> s[k].0 != name)
}

/// When some field is named `name`, `first_index` picks the least position
/// with that name.
pub proof fn lemma_first_index(s: Seq<FieldModel>, name: Seq<char>)
    requires
        exists|k: int| 0 <= k < s.len() && s[k].0 == name,
    ensures
        0 <= first_index(s, name) < s.len(),
        s[first_index(s, name)].0 == name,
        forall|k: int| 0 <= k < first_index(s, name) ==> s[k].0 != name,
    decreases s.len(),
{
    if s[0].0 == name {
        assert(0 <= 0 < s.len() && s[0].0 == name && (forall|k: int| 0 <= k < 0 ==> s[k].0
            != name));
    } else {
        let k0 = choose|k: int| 0 <= k < s.len() && s[k].0 == name;
        assert(s.drop_first()[k0 - 1].0 == name);
        lemma_first_index(s.drop_first(), name);
        let j = first_index(s.drop_first(), name);
        assert forall|k: int| 0 <= k < j + 1 implies s[k].0 != name by {
            if k > 0 {
                assert(s.drop_first()[k - 1].0 != name);
            }
        }
        assert(0 <= j + 1 < s.len() && s[j + 1].0 == name && (forall|k: int|
            0 <= k < j + 1 ==> s[k].0 != name));
    }
}

/// When `name` first occurs at position `j`, inserting under `name` only
/// replaces the value there: the displaced value's position is unaffected.
pub proof fn lemma_field_insert_found(s: Seq<FieldModel>, name: Seq<char>, v: ValueModel, j: int)
    requires
        0 <= j < s.len(),
        s[j].0 == name,
        forall|k: int| 0 <= k < j ==> s[k].0 != name,
    ensures
        field_insert(s, name, v) =~= s.update(j, (name, v)),
    decreases j,
{
    if j == 0 {
        assert(field_insert(s, name, v) =~= s.update(0, (name, v)));
    } else {
        assert(s.drop_first()[j - 1].0 == name);
        assert forall|k: int| 0 <= k < j - 1 implies s.drop_first()[k].0 != name by {
            assert(s[k + 1].0 != name);
        }
        lemma_field_insert_found(s.drop_first(), name, v, j - 1);
        assert(field_insert(s, name, v) =~= s.update(j, (name, v)));
    }
}

/// When `name` occurs nowhere in `s`, inserting under `name` appends.
pub proof fn lemma_field_insert_missing(s: Seq<FieldModel>, name: Seq<char>, v: ValueModel)
    requires
        forall|k: int| 0 <= k < s.len() ==> s[k].0 != name,
    ensures
        field_insert(s, name, v) =~= s.push((name, v)),
    decreases s.len(),
{
    if s.len() == 0 {
        assert(field_insert(s, name, v) =~= s.push((name, v)));
    } else {
        assert forall|k: int| 0 <= k < s.drop_first().len() implies s.drop_first()[k].0
            != name by {
            assert(s[k + 1].0 != name);
        }
        lemma_field_insert_missing(s.drop_first(), name, v);
        assert(field_insert(s, name, v) =~= s.push((name, v)));
    }
}

/// Inserting never breaks name uniqueness.
pub proof fn lemma_field_insert_unique(s: Seq<FieldModel>, name: Seq<char>, v: ValueModel)
    requires
        unique_names(s),
    ensures
        unique_names(field_insert(s, name, v)),
{
    let t = field_insert(s, name, v);
    if exists|k: int| 0 <= k < s.len() && s[k].0 == name {
        lemma_first_index(s, name);
        let j = first_index(s, name);
        lemma_field_insert_found(s, name, v, j);
        assert forall|i1: int, i2: int| 0 <= i1 < i2 < t.len() implies t[i1].0 != t[i2].0 by {
            assert(t[i1].0 == s[i1].0);
            assert(t[i2].0 == s[i2].0);
        }
    } else {
        lemma_field_insert_missing(s, name, v);
        assert forall|i1: int, i2: int| 0 <= i1 < i2 < t.len() implies t[i1].0 != t[i2].0 by {
            if i2 == s.len() {
                assert(s[i1].0 != name);
            }
        }
    }
}

/// One decoded row: an insertion-ordered mapping from column name to generic
/// value. Field order follows first insertion; a repeated name keeps its
/// first position and takes the last value written under it.
pub struct Record {
    fields: Vec<(String, GenericValue)>,
}

impl View for Record {
    type V = Seq<FieldModel>;

    closed spec fn view(&self) -> Seq<FieldModel> {
        self.fields@.map_values(|p: (String, GenericValue)| (p.0@, p.1@))
    }
}

impl DeepView for Record {
    type V = Seq<FieldModel>;

    open spec fn deep_view(&self) -> Seq<FieldModel> {
        self.view()
    }
}

impl Record {
    /// Creates a record with no fields.
    pub fn new() -> (r: Record)
        ensures
            r@ == Seq::<FieldModel>::empty(),
    {
        let r = Record { fields: Vec::new() };
        proof {
            assert(r@ =~= Seq::<FieldModel>::empty());
        }
        r
    }

    /// The number of fields.
    pub fn len(&self) -> (n: usize)
        ensures
            n == self@.len(),
    {
        self.fields.len()
    }

    /// The fields in order, each a column name paired with its value.
    pub fn fields(&self) -> (r: &Vec<(String, GenericValue)>)
        ensures
            r@.len() == self@.len(),
            forall|i: int|
                0 <= i < self@.len() ==> (#[trigger] r@[i]).0@ == self@[i].0 && r@[i].1@
                    == self@[i].1,
    {
        &self.fields
    }

    /// Inserts `(name, v)`: overwrites the value of the first field already
    /// named `name`, keeping its position, or appends a new field.
    pub fn insert(&mut self, name: String, v: GenericValue)
        ensures
            final(self)@ == field_insert(old(self)@, name@, v@),
    {
        let n = self.fields.len();
        for j in 0..n
            invariant
                n == self.fields.len(),
                *self == *old(self),
                forall|k: int| 0 <= k < j ==> (#[trigger] self@[k]).0 != name@,
        {
            if self.fields[j].0 == name {
                let ghost pre = self@;
                self.fields.set(j, (name, v));
                proof {
                    assert(self@ =~= pre.update(j as int, (name@, v@)));
                    lemma_field_insert_found(pre, name@, v@, j as int);
                }
                return ;
            }
        }
        let ghost pre = self@;
        self.fields.push((name, v));
        proof {
            assert(self@ =~= pre.push((name@, v@)));
            lemma_field_insert_missing(pre, name@, v@);
        }
    }
}

} // verus!
