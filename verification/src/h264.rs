//! The names and numbers of H.264 profiles and levels.
//!
//! A pipeline names a profile and a level with short texts (`"high"`, `"3.1"`);
//! a catalog carries them as the one-byte identifiers of the bitstream. The two
//! tables below are the whole vocabulary: a name or a number that is not in them
//! has no counterpart and is refused by the lookups.

use vstd::prelude::*;
use crate::text::text_eq;

verus! {

/// One row of a table: a name and the number it stands for.
pub type Row = (&'static str, u8);

/// The profiles: `baseline` is 66, `main` is 77, `high` is 100.
pub open spec fn profile_table() -> Seq<Row> {
    seq![("baseline", 66u8), ("main", 77u8), ("high", 100u8)]
}

/// The levels, from `1` (10) to `5.2` (52); `1b` is 9.
pub open spec fn level_table() -> Seq<Row> {
    seq![
        ("1", 10u8),
        ("1b", 9u8),
        ("1.1", 11u8),
        ("1.2", 12u8),
        ("1.3", 13u8),
        ("2", 20u8),
        ("2.1", 21u8),
        ("2.2", 22u8),
        ("3", 30u8),
        ("3.1", 31u8),
        ("3.2", 32u8),
        ("4", 40u8),
        ("4.1", 41u8),
        ("4.2", 42u8),
        ("5", 50u8),
        ("5.1", 51u8),
        ("5.2", 52u8),
    ]
}

/// The number of the first row named `name`, if there is one.
pub open spec fn id_of(table: Seq<Row>, name: Seq<char>) -> Option<u8>
    decreases table.len(),
{
    if table.len() == 0 {
        None
    } else if table[0].0@ == name {
        Some(table[0].1)
    } else {
        id_of(table.drop_first(), name)
    }
}

/// The name of the first row numbered `id`, if there is one.
pub open spec fn name_of(table: Seq<Row>, id: u8) -> Option<Seq<char>>
    decreases table.len(),
{
    if table.len() == 0 {
        None
    } else if table[0].1 == id {
        Some(table[0].0@)
    } else {
        name_of(table.drop_first(), id)
    }
}

/// No two rows carry the same number.
pub open spec fn distinct_ids(table: Seq<Row>) -> bool {
    forall|i: int, j: int|
        0 <= i < table.len() && 0 <= j < table.len() && i != j ==> (#[trigger] table[i]).1 != (
        #[trigger] table[j]).1
}

/// No two rows carry the same name.
pub open spec fn distinct_names(table: Seq<Row>) -> bool {
    forall|i: int, j: int|
        0 <= i < table.len() && 0 <= j < table.len() && i != j ==> (#[trigger] table[i]).0@ != (
        #[trigger] table[j]).0@
}

/// The profile number that `name` stands for.
pub open spec fn profile_id_of(name: Seq<char>) -> Option<u8> {
    id_of(profile_table(), name)
}

/// The name of profile number `id`.
pub open spec fn profile_name_of(id: u8) -> Option<Seq<char>> {
    name_of(profile_table(), id)
}

/// The level number that `name` stands for.
pub open spec fn level_id_of(name: Seq<char>) -> Option<u8> {
    id_of(level_table(), name)
}

/// The name of level number `id`.
pub open spec fn level_name_of(id: u8) -> Option<Seq<char>> {
    name_of(level_table(), id)
}

/// A name that is found leads to a row of the table with that name.
pub proof fn lemma_id_of_is_a_row(table: Seq<Row>, name: Seq<char>)
    ensures
        match id_of(table, name) {
            Some(id) => exists|i: int|
                0 <= i < table.len() && (#[trigger] table[i]).0@ == name && table[i].1 == id,
            None => forall|i: int| 0 <= i < table.len() ==> (#[trigger] table[i]).0@ != name,
        },
    decreases table.len(),
{
    if table.len() > 0 && table[0].0@ != name {
        let rest = table.drop_first();
        lemma_id_of_is_a_row(rest, name);
        match id_of(rest, name) {
            Some(id) => {
                let i = choose|i: int|
                    0 <= i < rest.len() && (#[trigger] rest[i]).0@ == name && rest[i].1 == id;
                assert(table[i + 1] == rest[i]);
            },
            None => {
                assert forall|i: int| 0 <= i < table.len() implies (#[trigger] table[i]).0@
                    != name by {
                    if i > 0 {
                        assert(table[i] == rest[i - 1]);
                    }
                }
            },
        }
    }
}

/// A number that is found leads to a row of the table with that number.
pub proof fn lemma_name_of_is_a_row(table: Seq<Row>, id: u8)
    ensures
        match name_of(table, id) {
            Some(name) => exists|i: int|
                0 <= i < table.len() && (#[trigger] table[i]).1 == id && table[i].0@ == name,
            None => forall|i: int| 0 <= i < table.len() ==> (#[trigger] table[i]).1 != id,
        },
    decreases table.len(),
{
    if table.len() > 0 && table[0].1 != id {
        let rest = table.drop_first();
        lemma_name_of_is_a_row(rest, id);
        match name_of(rest, id) {
            Some(name) => {
                let i = choose|i: int|
                    0 <= i < rest.len() && (#[trigger] rest[i]).1 == id && rest[i].0@ == name;
                assert(table[i + 1] == rest[i]);
            },
            None => {
                assert forall|i: int| 0 <= i < table.len() implies (#[trigger] table[i]).1
                    != id by {
                    if i > 0 {
                        assert(table[i] == rest[i - 1]);
                    }
                }
            },
        }
    }
}

/// In a table without repeated numbers, looking up the number of a name and
/// then the name of that number gives the name back.
pub proof fn lemma_name_of_id_of(table: Seq<Row>, name: Seq<char>)
    requires
        distinct_ids(table),
    ensures
        id_of(table, name) matches Some(id) ==> name_of(table, id) == Some(name),
{
    lemma_id_of_is_a_row(table, name);
    if let Some(id) = id_of(table, name) {
        lemma_name_of_is_a_row(table, id);
    }
}

/// In a table without repeated names, looking up the name of a number and
/// then the number of that name gives the number back.
pub proof fn lemma_id_of_name_of(table: Seq<Row>, id: u8)
    requires
        distinct_names(table),
    ensures
        name_of(table, id) matches Some(name) ==> id_of(table, name) == Some(id),
{
    lemma_name_of_is_a_row(table, id);
    if let Some(name) = name_of(table, id) {
        lemma_id_of_is_a_row(table, name);
    }
}

/// The profile table repeats neither a name nor a number.
pub proof fn lemma_profile_table_distinct()
    ensures
        distinct_ids(profile_table()),
        distinct_names(profile_table()),
{
    reveal_strlit("baseline");
    reveal_strlit("main");
    reveal_strlit("high");
    let t = profile_table();
    assert(t[0].0@.len() == 8 && t[1].0@[0] == 'm' && t[2].0@[0] == 'h');
}

/// The level table repeats neither a name nor a number.
pub proof fn lemma_level_table_distinct()
    ensures
        distinct_ids(level_table()),
        distinct_names(level_table()),
{
    reveal_strlit("1");
    reveal_strlit("1b");
    reveal_strlit("1.1");
    reveal_strlit("1.2");
    reveal_strlit("1.3");
    reveal_strlit("2");
    reveal_strlit("2.1");
    reveal_strlit("2.2");
    reveal_strlit("3");
    reveal_strlit("3.1");
    reveal_strlit("3.2");
    reveal_strlit("4");
    reveal_strlit("4.1");
    reveal_strlit("4.2");
    reveal_strlit("5");
    reveal_strlit("5.1");
    reveal_strlit("5.2");
    let t = level_table();
    assert forall|i: int, j: int| 0 <= i < t.len() && 0 <= j < t.len() && i != j implies (
    #[trigger] t[i]).0@ != (#[trigger] t[j]).0@ by {
        let a = t[i].0@;
        let b = t[j].0@;
        if a.len() == b.len() {
            if a.len() == 1 {
                assert(a[0] != b[0]);
            } else if a.len() == 3 {
                assert(a[0] != b[0] || a[2] != b[2]);
            }
        }
    }
}

/// A profile name that is known leads back to itself through its number.
pub proof fn lemma_profile_name_round_trip(name: Seq<char>)
    ensures
        profile_id_of(name) matches Some(id) ==> profile_name_of(id) == Some(name),
{
    lemma_profile_table_distinct();
    lemma_name_of_id_of(profile_table(), name);
}

/// A profile number that is known leads back to itself through its name.
pub proof fn lemma_profile_id_round_trip(id: u8)
    ensures
        profile_name_of(id) matches Some(name) ==> profile_id_of(name) == Some(id),
{
    lemma_profile_table_distinct();
    lemma_id_of_name_of(profile_table(), id);
}

/// A level name that is known leads back to itself through its number.
pub proof fn lemma_level_name_round_trip(name: Seq<char>)
    ensures
        level_id_of(name) matches Some(id) ==> level_name_of(id) == Some(name),
{
    lemma_level_table_distinct();
    lemma_name_of_id_of(level_table(), name);
}

/// A level number that is known leads back to itself through its name.
pub proof fn lemma_level_id_round_trip(id: u8)
    ensures
        level_name_of(id) matches Some(name) ==> level_id_of(name) == Some(id),
{
    lemma_level_table_distinct();
    lemma_id_of_name_of(level_table(), id);
}

/// The number of the first row of `table` named `name`.
pub fn find_id(table: &Vec<Row>, name: &str) -> (found: Option<u8>)
    ensures
        found == id_of(table@, name@),
{
    let mut i: usize = 0;
    assert(table@.skip(0) =~= table@);
    while i < table.len()
        invariant
            i <= table@.len(),
            id_of(table@, name@) == id_of(table@.skip(i as int), name@),
        decreases table@.len() - i,
    {
        let row = table[i];
        assert(table@.skip(i as int).drop_first() =~= table@.skip(i + 1));
        if text_eq(row.0, name) {
            return Some(row.1);
        }
        i = i + 1;
    }
    None
}

/// The name of the first row of `table` numbered `id`.
pub fn find_name(table: &Vec<Row>, id: u8) -> (found: Option<&'static str>)
    ensures
        match found {
            Some(name) => name_of(table@, id) == Some(name@),
            None => name_of(table@, id) is None,
        },
{
    let mut i: usize = 0;
    assert(table@.skip(0) =~= table@);
    while i < table.len()
        invariant
            i <= table@.len(),
            name_of(table@, id) == name_of(table@.skip(i as int), id),
        decreases table@.len() - i,
    {
        let row = table[i];
        assert(table@.skip(i as int).drop_first() =~= table@.skip(i + 1));
        if row.1 == id {
            return Some(row.0);
        }
        i = i + 1;
    }
    None
}

/// The profile table, as a value.
pub fn profiles() -> (table: Vec<Row>)
    ensures
        table@ == profile_table(),
{
    let table: Vec<Row> = vec![("baseline", 66u8), ("main", 77u8), ("high", 100u8)];
    table
}

/// The level table, as a value.
pub fn levels() -> (table: Vec<Row>)
    ensures
        table@ == level_table(),
{
    let table: Vec<Row> = vec![
        ("1", 10u8),
        ("1b", 9u8),
        ("1.1", 11u8),
        ("1.2", 12u8),
        ("1.3", 13u8),
        ("2", 20u8),
        ("2.1", 21u8),
        ("2.2", 22u8),
        ("3", 30u8),
        ("3.1", 31u8),
        ("3.2", 32u8),
        ("4", 40u8),
        ("4.1", 41u8),
        ("4.2", 42u8),
        ("5", 50u8),
        ("5.1", 51u8),
        ("5.2", 52u8),
    ];
    table
}

/// The number of the profile called `name`; `None` for any other text.
pub fn profile_id(name: &str) -> (id: Option<u8>)
    ensures
        id == profile_id_of(name@),
{
    find_id(&profiles(), name)
}

/// The name of profile `id`; `None` for any other number.
pub fn profile_name(id: u8) -> (name: Option<&'static str>)
    ensures
        match name {
            Some(text) => profile_name_of(id) == Some(text@),
            None => profile_name_of(id) is None,
        },
{
    find_name(&profiles(), id)
}

/// The number of the level called `name`; `None` for any other text.
pub fn level_id(name: &str) -> (id: Option<u8>)
    ensures
        id == level_id_of(name@),
{
    find_id(&levels(), name)
}

/// The name of level `id`; `None` for any other number.
pub fn level_name(id: u8) -> (name: Option<&'static str>)
    ensures
        match name {
            Some(text) => level_name_of(id) == Some(text@),
            None => level_name_of(id) is None,
        },
{
    find_name(&levels(), id)
}

} // verus!
