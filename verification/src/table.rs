//! The side table of named values that an entity carries.
//!
//! The table is an ordered list of name and value pairs. A name may occur any
//! number of times; nothing is ever merged or removed. A lookup returns the
//! value of the first pair that bears the name.

use vstd::prelude::*;

verus! {

/// The name under which the horizontal reading is published.
pub const CTRL_X: &'static str = "ctrl_x";

/// The name under which the vertical reading is published.
pub const CTRL_Y: &'static str = "ctrl_y";

/// A table as contracts see it: names as character sequences.
pub type Table = Seq<(Seq<char>, i64)>;

/// The value of the first pair named `name`, if there is one.
pub open spec fn lookup(table: Table, name: Seq<char>) -> Option<i64>
    decreases table.len(),
{
    if table.len() == 0 {
        None
    } else if table[0].0 == name {
        Some(table[0].1)
    } else {
        lookup(table.drop_first(), name)
    }
}

/// The table after a reading is published: every pair named `ctrl_x` holds
/// `x`, every other pair named `ctrl_y` holds `y`, and the rest is as it
/// was. No pair is added.
pub open spec fn publish(table: Table, x: i64, y: i64) -> Table {
    Seq::new(
        table.len(),
        |i: int|
            if table[i].0 == CTRL_X@ {
                (table[i].0, x)
            } else if table[i].0 == CTRL_Y@ {
                (table[i].0, y)
            } else {
                table[i]
            },
    )
}

/// The two published names are different names.
pub proof fn lemma_names_differ()
    ensures
        CTRL_X@ != CTRL_Y@,
{
    reveal_strlit("ctrl_x");
    reveal_strlit("ctrl_y");
    assert(CTRL_X@[5] == 'x');
    assert(CTRL_Y@[5] == 'y');
}

/// Whether `name` occurs in the table.
pub open spec fn has_name(table: Table, name: Seq<char>) -> bool {
    exists|i: int| 0 <= i < table.len() && (#[trigger] table[i]).0 == name
}

/// `lookup` finds the first pair of the name: the pair at `i` when no
/// earlier pair bears the name.
pub proof fn lemma_lookup_first(table: Table, name: Seq<char>, i: int)
    requires
        0 <= i < table.len(),
        table[i].0 == name,
        forall|j: int| 0 <= j < i ==> (#[trigger] table[j]).0 != name,
    ensures
        lookup(table, name) == Some(table[i].1),
    decreases i,
{
    if i > 0 {
        let rest = table.drop_first();
        assert(rest[i - 1] == table[i]);
        assert forall|j: int| 0 <= j < i - 1 implies (#[trigger] rest[j]).0 != name by {
            assert(rest[j] == table[j + 1]);
        }
        lemma_lookup_first(rest, name, i - 1);
    }
}

/// `lookup` finds nothing exactly when the name does not occur.
pub proof fn lemma_lookup_none(table: Table, name: Seq<char>)
    ensures
        lookup(table, name) is None <==> !has_name(table, name),
    decreases table.len(),
{
    if table.len() > 0 {
        let rest = table.drop_first();
        lemma_lookup_none(rest, name);
        if table[0].0 == name {
            assert(has_name(table, name));
        } else {
            if has_name(rest, name) {
                let i = choose|i: int| 0 <= i < rest.len() && (#[trigger] rest[i]).0 == name;
                assert(table[i + 1] == rest[i]);
                assert(has_name(table, name));
            }
            if has_name(table, name) {
                let i = choose|i: int| 0 <= i < table.len() && (#[trigger] table[i]).0 == name;
                assert(rest[i - 1] == table[i]);
                assert(has_name(rest, name));
            }
        }
    }
}

/// A pair appended to the table is found only where the name was not there
/// before: an earlier pair of the same name keeps winning.
pub proof fn lemma_lookup_push(table: Table, pair: (Seq<char>, i64), name: Seq<char>)
    ensures
        lookup(table.push(pair), name) == match lookup(table, name) {
            Some(value) => Some(value),
            None => if pair.0 == name {
                Some(pair.1)
            } else {
                None
            },
        },
    decreases table.len(),
{
    let longer = table.push(pair);
    if table.len() > 0 {
        assert(longer[0] == table[0]);
        assert(longer.drop_first() =~= table.drop_first().push(pair));
        lemma_lookup_push(table.drop_first(), pair, name);
    } else {
        assert(longer[0] == pair);
        assert(longer.drop_first().len() == 0);
        assert(lookup(longer.drop_first(), name) is None);
    }
}

/// After a reading is published, a lookup of either published name finds the
/// reading of its axis, provided the name was in the table at all.
pub proof fn lemma_lookup_published(table: Table, x: i64, y: i64)
    ensures
        lookup(publish(table, x, y), CTRL_X@) == match lookup(table, CTRL_X@) {
            Some(_) => Some(x),
            None => None,
        },
        lookup(publish(table, x, y), CTRL_Y@) == match lookup(table, CTRL_Y@) {
            Some(_) => Some(y),
            None => None,
        },
    decreases table.len(),
{
    lemma_names_differ();
    let published = publish(table, x, y);
    if table.len() > 0 {
        assert(published[0].0 == table[0].0);
        assert(published.drop_first() =~= publish(table.drop_first(), x, y));
        lemma_lookup_published(table.drop_first(), x, y);
    }
}

/// The value of the first pair named `name`, if there is one.
pub fn first_value(vals: &Vec<(String, i64)>, name: &str) -> (found: Option<i64>)
    ensures
        found == lookup(vals.deep_view(), name@),
{
    let key: String = name.to_owned();
    let mut i: usize = 0;
    while i < vals.len()
        invariant
            i <= vals.len(),
            key@ == name@,
            forall|j: int| 0 <= j < i ==> (#[trigger] vals.deep_view()[j]).0 != name@,
        decreases vals.len() - i,
    {
        if vals[i].0 == key {
            proof {
                lemma_lookup_first(vals.deep_view(), name@, i as int);
            }
            return Some(vals[i].1);
        }
        i += 1;
    }
    proof {
        lemma_lookup_none(vals.deep_view(), name@);
    }
    None
}

/// Publishes a reading in place: every pair named `ctrl_x` is set to `x`,
/// every other pair named `ctrl_y` to `y`.
pub fn publish_reading(vals: &mut Vec<(String, i64)>, x: i64, y: i64)
    ensures
        final(vals).deep_view() == publish(old(vals).deep_view(), x, y),
{
    let name_x: String = CTRL_X.to_owned();
    let name_y: String = CTRL_Y.to_owned();
    let mut i: usize = 0;
    while i < vals.len()
        invariant
            i <= vals.len(),
            vals.len() == old(vals).len(),
            name_x@ == CTRL_X@,
            name_y@ == CTRL_Y@,
            forall|j: int|
                0 <= j < vals.len() ==> (#[trigger] vals@[j]).0@ == old(vals)@[j].0@,
            forall|j: int|
                0 <= j < i ==> (#[trigger] vals@[j]).1 == publish(
                    old(vals).deep_view(),
                    x,
                    y,
                )[j].1,
            forall|j: int| i <= j < vals.len() ==> (#[trigger] vals@[j]).1 == old(vals)@[j].1,
        decreases vals.len() - i,
    {
        if vals[i].0 == name_x {
            vals[i].1 = x;
        } else if vals[i].0 == name_y {
            vals[i].1 = y;
        }
        i += 1;
    }
    assert(vals.deep_view() =~= publish(old(vals).deep_view(), x, y));
}

} // verus!
