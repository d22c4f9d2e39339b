//! Concrete resolution facts about the taxonomy names: every main
//! category, subcategory and (unshadowed) alternate name, lowered,
//! matches itself and nothing scanned before it. Each name gets one
//! lemma; the public lemmas at the end dispatch on the indices.

use vstd::prelude::*;

use crate::query::{
    alt_resolves_exactly, alt_shadowed_by_sub, fe_in, fe_sub, main_names, main_resolves_exactly,
    sub_resolves_exactly,
};
use crate::taxonomy::spec_taxonomy;
use crate::text::{lemma_lower_ne, lower};

verus! {

proof fn main_tok_literature()
    ensures
        main_resolves_exactly(0),
{
    reveal_with_fuel(fe_in, 15);
    reveal_strlit("Literature");
    assert(fe_in(lower(spec_taxonomy()[0].name), main_names(), 0) == 0);
}

proof fn main_tok_history()
    ensures
        main_resolves_exactly(1),
{
    reveal_with_fuel(fe_in, 15);
    reveal_strlit("History");
    reveal_strlit("Literature");
    lemma_lower_ne("History"@, "Literature"@, 0);
    assert(fe_in(lower(spec_taxonomy()[1].name), main_names(), 0) == 1);
}

proof fn main_tok_science()
    ensures
        main_resolves_exactly(2),
{
    reveal_with_fuel(fe_in, 15);
    reveal_strlit("Science");
    reveal_strlit("Literature");
    reveal_strlit("History");
    lemma_lower_ne("Science"@, "Literature"@, 0);
    lemma_lower_ne("Science"@, "History"@, 0);
    assert(fe_in(lower(spec_taxonomy()[2].name), main_names(), 0) == 2);
}

proof fn main_tok_fine_arts()
    ensures
        main_resolves_exactly(3),
{
    reveal_with_fuel(fe_in, 15);
    reveal_strlit("Fine Arts");
    reveal_strlit("Literature");
    reveal_strlit("History");
    reveal_strlit("Science");
    lemma_lower_ne("Fine Arts"@, "Literature"@, 0);
    lemma_lower_ne("Fine Arts"@, "History"@, 0);
    lemma_lower_ne("Fine Arts"@, "Science"@, 0);
    assert(fe_in(lower(spec_taxonomy()[3].name), main_names(), 0) == 3);
}

proof fn main_tok_religion()
    ensures
        main_resolves_exactly(4),
{
    reveal_with_fuel(fe_in, 15);
    reveal_strlit("Religion");
    reveal_strlit("Literature");
    reveal_strlit("History");
    reveal_strlit("Science");
    reveal_strlit("Fine Arts");
    lemma_lower_ne("Religion"@, "Literature"@, 0);
    lemma_lower_ne("Religion"@, "History"@, 0);
    lemma_lower_ne("Religion"@, "Science"@, 0);
    lemma_lower_ne("Religion"@, "Fine Arts"@, 0);
    assert(fe_in(lower(spec_taxonomy()[4].name), main_names(), 0) == 4);
}

proof fn main_tok_mythology()
    ensures
        main_resolves_exactly(5),
{
    reveal_with_fuel(fe_in, 15);
    reveal_strlit("Mythology");
    reveal_strlit("Literature");
    reveal_strlit("History");
    reveal_strlit("Science");
    reveal_strlit("Fine Arts");
    reveal_strlit("Religion");
    lemma_lower_ne("Mythology"@, "Literature"@, 0);
    lemma_lower_ne("Mythology"@, "History"@, 0);
    lemma_lower_ne("Mythology"@, "Science"@, 0);
    lemma_lower_ne("Mythology"@, "Fine Arts"@, 0);
    lemma_lower_ne("Mythology"@, "Religion"@, 0);
    assert(fe_in(lower(spec_taxonomy()[5].name), main_names(), 0) == 5);
}

proof fn main_tok_philosophy()
    ensures
        main_resolves_exactly(6),
{
    reveal_with_fuel(fe_in, 15);
    reveal_strlit("Philosophy");
    reveal_strlit("Literature");
    reveal_strlit("History");
    reveal_strlit("Science");
    reveal_strlit("Fine Arts");
    reveal_strlit("Religion");
    reveal_strlit("Mythology");
    lemma_lower_ne("Philosophy"@, "Literature"@, 0);
    lemma_lower_ne("Philosophy"@, "History"@, 0);
    lemma_lower_ne("Philosophy"@, "Science"@, 0);
    lemma_lower_ne("Philosophy"@, "Fine Arts"@, 0);
    lemma_lower_ne("Philosophy"@, "Religion"@, 0);
    lemma_lower_ne("Philosophy"@, "Mythology"@, 0);
    assert(fe_in(lower(spec_taxonomy()[6].name), main_names(), 0) == 6);
}

proof fn main_tok_social_science()
    ensures
        main_resolves_exactly(7),
{
    reveal_with_fuel(fe_in, 15);
    reveal_strlit("Social Science");
    reveal_strlit("Literature");
    reveal_strlit("History");
    reveal_strlit("Science");
    reveal_strlit("Fine Arts");
    reveal_strlit("Religion");
    reveal_strlit("Mythology");
    reveal_strlit("Philosophy");
    lemma_lower_ne("Social Science"@, "Literature"@, 0);
    lemma_lower_ne("Social Science"@, "History"@, 0);
    lemma_lower_ne("Social Science"@, "Science"@, 0);
    lemma_lower_ne("Social Science"@, "Fine Arts"@, 0);
    lemma_lower_ne("Social Science"@, "Religion"@, 0);
    lemma_lower_ne("Social Science"@, "Mythology"@, 0);
    lemma_lower_ne("Social Science"@, "Philosophy"@, 0);
    assert(fe_in(lower(spec_taxonomy()[7].name), main_names(), 0) == 7);
}

proof fn main_tok_current_events()
    ensures
        main_resolves_exactly(8),
{
    reveal_with_fuel(fe_in, 15);
    reveal_strlit("Current Events");
    reveal_strlit("Literature");
    reveal_strlit("History");
    reveal_strlit("Science");
    reveal_strlit("Fine Arts");
    reveal_strlit("Religion");
    reveal_strlit("Mythology");
    reveal_strlit("Philosophy");
    reveal_strlit("Social Science");
    lemma_lower_ne("Current Events"@, "Literature"@, 0);
    lemma_lower_ne("Current Events"@, "History"@, 0);
    lemma_lower_ne("Current Events"@, "Science"@, 0);
    lemma_lower_ne("Current Events"@, "Fine Arts"@, 0);
    lemma_lower_ne("Current Events"@, "Religion"@, 0);
    lemma_lower_ne("Current Events"@, "Mythology"@, 0);
    lemma_lower_ne("Current Events"@, "Philosophy"@, 0);
    lemma_lower_ne("Current Events"@, "Social Science"@, 0);
    assert(fe_in(lower(spec_taxonomy()[8].name), main_names(), 0) == 8);
}

proof fn main_tok_geography()
    ensures
        main_resolves_exactly(9),
{
    reveal_with_fuel(fe_in, 15);
    reveal_strlit("Geography");
    reveal_strlit("Literature");
    reveal_strlit("History");
    reveal_strlit("Science");
    reveal_strlit("Fine Arts");
    reveal_strlit("Religion");
    reveal_strlit("Mythology");
    reveal_strlit("Philosophy");
    reveal_strlit("Social Science");
    reveal_strlit("Current Events");
    lemma_lower_ne("Geography"@, "Literature"@, 0);
    lemma_lower_ne("Geography"@, "History"@, 0);
    lemma_lower_ne("Geography"@, "Science"@, 0);
    lemma_lower_ne("Geography"@, "Fine Arts"@, 0);
    lemma_lower_ne("Geography"@, "Religion"@, 0);
    lemma_lower_ne("Geography"@, "Mythology"@, 0);
    lemma_lower_ne("Geography"@, "Philosophy"@, 0);
    lemma_lower_ne("Geography"@, "Social Science"@, 0);
    lemma_lower_ne("Geography"@, "Current Events"@, 0);
    assert(fe_in(lower(spec_taxonomy()[9].name), main_names(), 0) == 9);
}

proof fn main_tok_other_academic()
    ensures
        main_resolves_exactly(10),
{
    reveal_with_fuel(fe_in, 15);
    reveal_strlit("Other Academic");
    reveal_strlit("Literature");
    reveal_strlit("History");
    reveal_strlit("Science");
    reveal_strlit("Fine Arts");
    reveal_strlit("Religion");
    reveal_strlit("Mythology");
    reveal_strlit("Philosophy");
    reveal_strlit("Social Science");
    reveal_strlit("Current Events");
    reveal_strlit("Geography");
    lemma_lower_ne("Other Academic"@, "Literature"@, 0);
    lemma_lower_ne("Other Academic"@, "History"@, 0);
    lemma_lower_ne("Other Academic"@, "Science"@, 0);
    lemma_lower_ne("Other Academic"@, "Fine Arts"@, 0);
    lemma_lower_ne("Other Academic"@, "Religion"@, 0);
    lemma_lower_ne("Other Academic"@, "Mythology"@, 0);
    lemma_lower_ne("Other Academic"@, "Philosophy"@, 0);
    lemma_lower_ne("Other Academic"@, "Social Science"@, 0);
    lemma_lower_ne("Other Academic"@, "Current Events"@, 0);
    lemma_lower_ne("Other Academic"@, "Geography"@, 0);
    assert(fe_in(lower(spec_taxonomy()[10].name), main_names(), 0) == 10);
}

proof fn main_tok_pop_culture()
    ensures
        main_resolves_exactly(11),
{
    reveal_with_fuel(fe_in, 15);
    reveal_strlit("Pop Culture");
    reveal_strlit("Literature");
    reveal_strlit("History");
    reveal_strlit("Science");
    reveal_strlit("Fine Arts");
    reveal_strlit("Religion");
    reveal_strlit("Mythology");
    reveal_strlit("Philosophy");
    reveal_strlit("Social Science");
    reveal_strlit("Current Events");
    reveal_strlit("Geography");
    reveal_strlit("Other Academic");
    lemma_lower_ne("Pop Culture"@, "Literature"@, 0);
    lemma_lower_ne("Pop Culture"@, "History"@, 0);
    lemma_lower_ne("Pop Culture"@, "Science"@, 0);
    lemma_lower_ne("Pop Culture"@, "Fine Arts"@, 0);
    lemma_lower_ne("Pop Culture"@, "Religion"@, 0);
    lemma_lower_ne("Pop Culture"@, "Mythology"@, 0);
    lemma_lower_ne("Pop Culture"@, "Philosophy"@, 0);
    lemma_lower_ne("Pop Culture"@, "Social Science"@, 0);
    lemma_lower_ne("Pop Culture"@, "Current Events"@, 0);
    lemma_lower_ne("Pop Culture"@, "Geography"@, 0);
    lemma_lower_ne("Pop Culture"@, "Other Academic"@, 0);
    assert(fe_in(lower(spec_taxonomy()[11].name), main_names(), 0) == 11);
}

proof fn sub_tok_american_literature()
    ensures
        sub_resolves_exactly(0, 0),
{
    reveal_with_fuel(fe_in, 15);
    reveal_with_fuel(fe_sub, 14);
    reveal_strlit("American Literature");
    reveal_strlit("Literature");
    reveal_strlit("History");
    reveal_strlit("Science");
    reveal_strlit("Fine Arts");
    reveal_strlit("Religion");
    reveal_strlit("Mythology");
    reveal_strlit("Philosophy");
    reveal_strlit("Social Science");
    reveal_strlit("Current Events");
    reveal_strlit("Geography");
    reveal_strlit("Other Academic");
    reveal_strlit("Pop Culture");
    lemma_lower_ne("American Literature"@, "Literature"@, 0);
    lemma_lower_ne("American Literature"@, "History"@, 0);
    lemma_lower_ne("American Literature"@, "Science"@, 0);
    lemma_lower_ne("American Literature"@, "Fine Arts"@, 0);
    lemma_lower_ne("American Literature"@, "Religion"@, 0);
    lemma_lower_ne("American Literature"@, "Mythology"@, 0);
    lemma_lower_ne("American Literature"@, "Philosophy"@, 0);
    lemma_lower_ne("American Literature"@, "Social Science"@, 0);
    lemma_lower_ne("American Literature"@, "Current Events"@, 0);
    lemma_lower_ne("American Literature"@, "Geography"@, 0);
    lemma_lower_ne("American Literature"@, "Other Academic"@, 0);
    lemma_lower_ne("American Literature"@, "Pop Culture"@, 0);
    assert(fe_in(lower(spec_taxonomy()[0].subs[0]), main_names(), 0) == -1);
    assert(fe_in(lower(spec_taxonomy()[0].subs[0]), spec_taxonomy()[0].subs, 0) == 0);
    assert(fe_sub(lower(spec_taxonomy()[0].subs[0]), 0) == Some((0int, 0int)));
}

proof fn sub_tok_british_literature()
    ensures
        sub_resolves_exactly(0, 1),
{
    reveal_with_fuel(fe_in, 15);
    reveal_with_fuel(fe_sub, 14);
    reveal_strlit("British Literature");
    reveal_strlit("Literature");
    reveal_strlit("History");
    reveal_strlit("Science");
    reveal_strlit("Fine Arts");
    reveal_strlit("Religion");
    reveal_strlit("Mythology");
    reveal_strlit("Philosophy");
    reveal_strlit("Social Science");
    reveal_strlit("Current Events");
    reveal_strlit("Geography");
    reveal_strlit("Other Academic");
    reveal_strlit("Pop Culture");
    reveal_strlit("American Literature");
    lemma_lower_ne("British Literature"@, "Literature"@, 0);
    lemma_lower_ne("British Literature"@, "History"@, 0);
    lemma_lower_ne("British Literature"@, "Science"@, 0);
    lemma_lower_ne("British Literature"@, "Fine Arts"@, 0);
    lemma_lower_ne("British Literature"@, "Religion"@, 0);
    lemma_lower_ne("British Literature"@, "Mythology"@, 0);
    lemma_lower_ne("British Literature"@, "Philosophy"@, 0);
    lemma_lower_ne("British Literature"@, "Social Science"@, 0);
    lemma_lower_ne("British Literature"@, "Current Events"@, 0);
    lemma_lower_ne("British Literature"@, "Geography"@, 0);
    lemma_lower_ne("British Literature"@, "Other Academic"@, 0);
    lemma_lower_ne("British Literature"@, "Pop Culture"@, 0);
    assert(fe_in(lower(spec_taxonomy()[0].subs[1]), main_names(), 0) == -1);
    lemma_lower_ne("British Literature"@, "American Literature"@, 0);
    assert(fe_in(lower(spec_taxonomy()[0].subs[1]), spec_taxonomy()[0].subs, 0) == 1);
    assert(fe_sub(lower(spec_taxonomy()[0].subs[1]), 0) == Some((0int, 1int)));
}

proof fn sub_tok_classical_literature()
    ensures
        sub_resolves_exactly(0, 2),
{
    reveal_with_fuel(fe_in, 15);
    reveal_with_fuel(fe_sub, 14);
    reveal_strlit("Classical Literature");
    reveal_strlit("Literature");
    reveal_strlit("History");
    reveal_strlit("Science");
    reveal_strlit("Fine Arts");
    reveal_strlit("Religion");
    reveal_strlit("Mythology");
    reveal_strlit("Philosophy");
    reveal_strlit("Social Science");
    reveal_strlit("Current Events");
    reveal_strlit("Geography");
    reveal_strlit("Other Academic");
    reveal_strlit("Pop Culture");
    reveal_strlit("American Literature");
    reveal_strlit("British Literature");
    lemma_lower_ne("Classical Literature"@, "Literature"@, 0);
    lemma_lower_ne("Classical Literature"@, "History"@, 0);
    lemma_lower_ne("Classical Literature"@, "Science"@, 0);
    lemma_lower_ne("Classical Literature"@, "Fine Arts"@, 0);
    lemma_lower_ne("Classical Literature"@, "Religion"@, 0);
    lemma_lower_ne("Classical Literature"@, "Mythology"@, 0);
    lemma_lower_ne("Classical Literature"@, "Philosophy"@, 0);
    lemma_lower_ne("Classical Literature"@, "Social Science"@, 0);
    lemma_lower_ne("Classical Literature"@, "Current Events"@, 0);
    lemma_lower_ne("Classical Literature"@, "Geography"@, 0);
    lemma_lower_ne("Classical Literature"@, "Other Academic"@, 0);
    lemma_lower_ne("Classical Literature"@, "Pop Culture"@, 0);
    assert(fe_in(lower(spec_taxonomy()[0].subs[2]), main_names(), 0) == -1);
    lemma_lower_ne("Classical Literature"@, "American Literature"@, 0);
    lemma_lower_ne("Classical Literature"@, "British Literature"@, 0);
    assert(fe_in(lower(spec_taxonomy()[0].subs[2]), spec_taxonomy()[0].subs, 0) == 2);
    assert(fe_sub(lower(spec_taxonomy()[0].subs[2]), 0) == Some((0int, 2int)));
}

proof fn sub_tok_european_literature()
    ensures
        sub_resolves_exactly(0, 3),
{
    reveal_with_fuel(fe_in, 15);
    reveal_with_fuel(fe_sub, 14);
    reveal_strlit("European Literature");
    reveal_strlit("Literature");
    reveal_strlit("History");
    reveal_strlit("Science");
    reveal_strlit("Fine Arts");
    reveal_strlit("Religion");
    reveal_strlit("Mythology");
    reveal_strlit("Philosophy");
    reveal_strlit("Social Science");
    reveal_strlit("Current Events");
    reveal_strlit("Geography");
    reveal_strlit("Other Academic");
    reveal_strlit("Pop Culture");
    reveal_strlit("American Literature");
    reveal_strlit("British Literature");
    reveal_strlit("Classical Literature");
    lemma_lower_ne("European Literature"@, "Literature"@, 0);
    lemma_lower_ne("European Literature"@, "History"@, 0);
    lemma_lower_ne("European Literature"@, "Science"@, 0);
    lemma_lower_ne("European Literature"@, "Fine Arts"@, 0);
    lemma_lower_ne("European Literature"@, "Religion"@, 0);
    lemma_lower_ne("European Literature"@, "Mythology"@, 0);
    lemma_lower_ne("European Literature"@, "Philosophy"@, 0);
    lemma_lower_ne("European Literature"@, "Social Science"@, 0);
    lemma_lower_ne("European Literature"@, "Current Events"@, 0);
    lemma_lower_ne("European Literature"@, "Geography"@, 0);
    lemma_lower_ne("European Literature"@, "Other Academic"@, 0);
    lemma_lower_ne("European Literature"@, "Pop Culture"@, 0);
    assert(fe_in(lower(spec_taxonomy()[0].subs[3]), main_names(), 0) == -1);
    lemma_lower_ne("European Literature"@, "American Literature"@, 0);
    lemma_lower_ne("European Literature"@, "British Literature"@, 0);
    lemma_lower_ne("European Literature"@, "Classical Literature"@, 0);
    assert(fe_in(lower(spec_taxonomy()[0].subs[3]), spec_taxonomy()[0].subs, 0) == 3);
    assert(fe_sub(lower(spec_taxonomy()[0].subs[3]), 0) == Some((0int, 3int)));
}

proof fn sub_tok_world_literature()
    ensures
        sub_resolves_exactly(0, 4),
{
    reveal_with_fuel(fe_in, 15);
    reveal_with_fuel(fe_sub, 14);
    reveal_strlit("World Literature");
    reveal_strlit("Literature");
    reveal_strlit("History");
    reveal_strlit("Science");
    reveal_strlit("Fine Arts");
    reveal_strlit("Religion");
    reveal_strlit("Mythology");
    reveal_strlit("Philosophy");
    reveal_strlit("Social Science");
    reveal_strlit("Current Events");
    reveal_strlit("Geography");
    reveal_strlit("Other Academic");
    reveal_strlit("Pop Culture");
    reveal_strlit("American Literature");
    reveal_strlit("British Literature");
    reveal_strlit("Classical Literature");
    reveal_strlit("European Literature");
    lemma_lower_ne("World Literature"@, "Literature"@, 0);
    lemma_lower_ne("World Literature"@, "History"@, 0);
    lemma_lower_ne("World Literature"@, "Science"@, 0);
    lemma_lower_ne("World Literature"@, "Fine Arts"@, 0);
    lemma_lower_ne("World Literature"@, "Religion"@, 0);
    lemma_lower_ne("World Literature"@, "Mythology"@, 0);
    lemma_lower_ne("World Literature"@, "Philosophy"@, 0);
    lemma_lower_ne("World Literature"@, "Social Science"@, 0);
    lemma_lower_ne("World Literature"@, "Current Events"@, 0);
    lemma_lower_ne("World Literature"@, "Geography"@, 0);
    lemma_lower_ne("World Literature"@, "Other Academic"@, 0);
    lemma_lower_ne("World Literature"@, "Pop Culture"@, 0);
    assert(fe_in(lower(spec_taxonomy()[0].subs[4]), main_names(), 0) == -1);
    lemma_lower_ne("World Literature"@, "American Literature"@, 0);
    lemma_lower_ne("World Literature"@, "British Literature"@, 0);
    lemma_lower_ne("World Literature"@, "Classical Literature"@, 0);
    lemma_lower_ne("World Literature"@, "European Literature"@, 0);
    assert(fe_in(lower(spec_taxonomy()[0].subs[4]), spec_taxonomy()[0].subs, 0) == 4);
    assert(fe_sub(lower(spec_taxonomy()[0].subs[4]), 0) == Some((0int, 4int)));
}

proof fn sub_tok_other_literature()
    ensures
        sub_resolves_exactly(0, 5),
{
    reveal_with_fuel(fe_in, 15);
    reveal_with_fuel(fe_sub, 14);
    reveal_strlit("Other Literature");
    reveal_strlit("Literature");
    reveal_strlit("History");
    reveal_strlit("Science");
    reveal_strlit("Fine Arts");
    reveal_strlit("Religion");
    reveal_strlit("Mythology");
    reveal_strlit("Philosophy");
    reveal_strlit("Social Science");
    reveal_strlit("Current Events");
    reveal_strlit("Geography");
    reveal_strlit("Other Academic");
    reveal_strlit("Pop Culture");
    reveal_strlit("American Literature");
    reveal_strlit("British Literature");
    reveal_strlit("Classical Literature");
    reveal_strlit("European Literature");
    reveal_strlit("World Literature");
    lemma_lower_ne("Other Literature"@, "Literature"@, 0);
    lemma_lower_ne("Other Literature"@, "History"@, 0);
    lemma_lower_ne("Other Literature"@, "Science"@, 0);
    lemma_lower_ne("Other Literature"@, "Fine Arts"@, 0);
    lemma_lower_ne("Other Literature"@, "Religion"@, 0);
    lemma_lower_ne("Other Literature"@, "Mythology"@, 0);
    lemma_lower_ne("Other Literature"@, "Philosophy"@, 0);
    lemma_lower_ne("Other Literature"@, "Social Science"@, 0);
    lemma_lower_ne("Other Literature"@, "Current Events"@, 0);
    lemma_lower_ne("Other Literature"@, "Geography"@, 0);
    lemma_lower_ne("Other Literature"@, "Other Academic"@, 0);
    lemma_lower_ne("Other Literature"@, "Pop Culture"@, 0);
    assert(fe_in(lower(spec_taxonomy()[0].subs[5]), main_names(), 0) == -1);
    lemma_lower_ne("Other Literature"@, "American Literature"@, 0);
    lemma_lower_ne("Other Literature"@, "British Literature"@, 0);
    lemma_lower_ne("Other Literature"@, "Classical Literature"@, 0);
    lemma_lower_ne("Other Literature"@, "European Literature"@, 0);
    lemma_lower_ne("Other Literature"@, "World Literature"@, 0);
    assert(fe_in(lower(spec_taxonomy()[0].subs[5]), spec_taxonomy()[0].subs, 0) == 5);
    assert(fe_sub(lower(spec_taxonomy()[0].subs[5]), 0) == Some((0int, 5int)));
}

proof fn sub_tok_american_history()
    ensures
        sub_resolves_exactly(1, 0),
{
    reveal_with_fuel(fe_in, 15);
    reveal_with_fuel(fe_sub, 14);
    reveal_strlit("American History");
    reveal_strlit("Literature");
    reveal_strlit("History");
    reveal_strlit("Science");
    reveal_strlit("Fine Arts");
    reveal_strlit("Religion");
    reveal_strlit("Mythology");
    reveal_strlit("Philosophy");
    reveal_strlit("Social Science");
    reveal_strlit("Current Events");
    reveal_strlit("Geography");
    reveal_strlit("Other Academic");
    reveal_strlit("Pop Culture");
    reveal_strlit("American Literature");
    reveal_strlit("British Literature");
    reveal_strlit("Classical Literature");
    reveal_strlit("European Literature");
    reveal_strlit("World Literature");
    reveal_strlit("Other Literature");
    lemma_lower_ne("American History"@, "Literature"@, 0);
    lemma_lower_ne("American History"@, "History"@, 0);
    lemma_lower_ne("American History"@, "Science"@, 0);
    lemma_lower_ne("American History"@, "Fine Arts"@, 0);
    lemma_lower_ne("American History"@, "Religion"@, 0);
    lemma_lower_ne("American History"@, "Mythology"@, 0);
    lemma_lower_ne("American History"@, "Philosophy"@, 0);
    lemma_lower_ne("American History"@, "Social Science"@, 0);
    lemma_lower_ne("American History"@, "Current Events"@, 0);
    lemma_lower_ne("American History"@, "Geography"@, 0);
    lemma_lower_ne("American History"@, "Other Academic"@, 0);
    lemma_lower_ne("American History"@, "Pop Culture"@, 0);
    assert(fe_in(lower(spec_taxonomy()[1].subs[0]), main_names(), 0) == -1);
    lemma_lower_ne("American History"@, "American Literature"@, 0);
    lemma_lower_ne("American History"@, "British Literature"@, 0);
    lemma_lower_ne("American History"@, "Classical Literature"@, 0);
    lemma_lower_ne("American History"@, "European Literature"@, 0);
    lemma_lower_ne("American History"@, "World Literature"@, 0);
    lemma_lower_ne("American History"@, "Other Literature"@, 0);
    assert(fe_in(lower(spec_taxonomy()[1].subs[0]), spec_taxonomy()[0].subs, 0) == -1);
    assert(fe_in(lower(spec_taxonomy()[1].subs[0]), spec_taxonomy()[1].subs, 0) == 0);
    assert(fe_sub(lower(spec_taxonomy()[1].subs[0]), 0) == Some((1int, 0int)));
}

proof fn sub_tok_ancient_history()
    ensures
        sub_resolves_exactly(1, 1),
{
    reveal_with_fuel(fe_in, 15);
    reveal_with_fuel(fe_sub, 14);
    reveal_strlit("Ancient History");
    reveal_strlit("Literature");
    reveal_strlit("History");
    reveal_strlit("Science");
    reveal_strlit("Fine Arts");
    reveal_strlit("Religion");
    reveal_strlit("Mythology");
    reveal_strlit("Philosophy");
    reveal_strlit("Social Science");
    reveal_strlit("Current Events");
    reveal_strlit("Geography");
    reveal_strlit("Other Academic");
    reveal_strlit("Pop Culture");
    reveal_strlit("American Literature");
    reveal_strlit("British Literature");
    reveal_strlit("Classical Literature");
    reveal_strlit("European Literature");
    reveal_strlit("World Literature");
    reveal_strlit("Other Literature");
    reveal_strlit("American History");
    lemma_lower_ne("Ancient History"@, "Literature"@, 0);
    lemma_lower_ne("Ancient History"@, "History"@, 0);
    lemma_lower_ne("Ancient History"@, "Science"@, 0);
    lemma_lower_ne("Ancient History"@, "Fine Arts"@, 0);
    lemma_lower_ne("Ancient History"@, "Religion"@, 0);
    lemma_lower_ne("Ancient History"@, "Mythology"@, 0);
    lemma_lower_ne("Ancient History"@, "Philosophy"@, 0);
    lemma_lower_ne("Ancient History"@, "Social Science"@, 0);
    lemma_lower_ne("Ancient History"@, "Current Events"@, 0);
    lemma_lower_ne("Ancient History"@, "Geography"@, 0);
    lemma_lower_ne("Ancient History"@, "Other Academic"@, 0);
    lemma_lower_ne("Ancient History"@, "Pop Culture"@, 0);
    assert(fe_in(lower(spec_taxonomy()[1].subs[1]), main_names(), 0) == -1);
    lemma_lower_ne("Ancient History"@, "American Literature"@, 0);
    lemma_lower_ne("Ancient History"@, "British Literature"@, 0);
    lemma_lower_ne("Ancient History"@, "Classical Literature"@, 0);
    lemma_lower_ne("Ancient History"@, "European Literature"@, 0);
    lemma_lower_ne("Ancient History"@, "World Literature"@, 0);
    lemma_lower_ne("Ancient History"@, "Other Literature"@, 0);
    assert(fe_in(lower(spec_taxonomy()[1].subs[1]), spec_taxonomy()[0].subs, 0) == -1);
    lemma_lower_ne("Ancient History"@, "American History"@, 0);
    assert(fe_in(lower(spec_taxonomy()[1].subs[1]), spec_taxonomy()[1].subs, 0) == 1);
    assert(fe_sub(lower(spec_taxonomy()[1].subs[1]), 0) == Some((1int, 1int)));
}

proof fn sub_tok_european_history()
    ensures
        sub_resolves_exactly(1, 2),
{
    reveal_with_fuel(fe_in, 15);
    reveal_with_fuel(fe_sub, 14);
    reveal_strlit("European History");
    reveal_strlit("Literature");
    reveal_strlit("History");
    reveal_strlit("Science");
    reveal_strlit("Fine Arts");
    reveal_strlit("Religion");
    reveal_strlit("Mythology");
    reveal_strlit("Philosophy");
    reveal_strlit("Social Science");
    reveal_strlit("Current Events");
    reveal_strlit("Geography");
    reveal_strlit("Other Academic");
    reveal_strlit("Pop Culture");
    reveal_strlit("American Literature");
    reveal_strlit("British Literature");
    reveal_strlit("Classical Literature");
    reveal_strlit("European Literature");
    reveal_strlit("World Literature");
    reveal_strlit("Other Literature");
    reveal_strlit("American History");
    reveal_strlit("Ancient History");
    lemma_lower_ne("European History"@, "Literature"@, 0);
    lemma_lower_ne("European History"@, "History"@, 0);
    lemma_lower_ne("European History"@, "Science"@, 0);
    lemma_lower_ne("European History"@, "Fine Arts"@, 0);
    lemma_lower_ne("European History"@, "Religion"@, 0);
    lemma_lower_ne("European History"@, "Mythology"@, 0);
    lemma_lower_ne("European History"@, "Philosophy"@, 0);
    lemma_lower_ne("European History"@, "Social Science"@, 0);
    lemma_lower_ne("European History"@, "Current Events"@, 0);
    lemma_lower_ne("European History"@, "Geography"@, 0);
    lemma_lower_ne("European History"@, "Other Academic"@, 0);
    lemma_lower_ne("European History"@, "Pop Culture"@, 0);
    assert(fe_in(lower(spec_taxonomy()[1].subs[2]), main_names(), 0) == -1);
    lemma_lower_ne("European History"@, "American Literature"@, 0);
    lemma_lower_ne("European History"@, "British Literature"@, 0);
    lemma_lower_ne("European History"@, "Classical Literature"@, 0);
    lemma_lower_ne("European History"@, "European Literature"@, 0);
    lemma_lower_ne("European History"@, "World Literature"@, 0);
    lemma_lower_ne("European History"@, "Other Literature"@, 0);
    assert(fe_in(lower(spec_taxonomy()[1].subs[2]), spec_taxonomy()[0].subs, 0) == -1);
    lemma_lower_ne("European History"@, "American History"@, 0);
    lemma_lower_ne("European History"@, "Ancient History"@, 0);
    assert(fe_in(lower(spec_taxonomy()[1].subs[2]), spec_taxonomy()[1].subs, 0) == 2);
    assert(fe_sub(lower(spec_taxonomy()[1].subs[2]), 0) == Some((1int, 2int)));
}

proof fn sub_tok_world_history()
    ensures
        sub_resolves_exactly(1, 3),
{
    reveal_with_fuel(fe_in, 15);
    reveal_with_fuel(fe_sub, 14);
    reveal_strlit("World History");
    reveal_strlit("Literature");
    reveal_strlit("History");
    reveal_strlit("Science");
    reveal_strlit("Fine Arts");
    reveal_strlit("Religion");
    reveal_strlit("Mythology");
    reveal_strlit("Philosophy");
    reveal_strlit("Social Science");
    reveal_strlit("Current Events");
    reveal_strlit("Geography");
    reveal_strlit("Other Academic");
    reveal_strlit("Pop Culture");
    reveal_strlit("American Literature");
    reveal_strlit("British Literature");
    reveal_strlit("Classical Literature");
    reveal_strlit("European Literature");
    reveal_strlit("World Literature");
    reveal_strlit("Other Literature");
    reveal_strlit("American History");
    reveal_strlit("Ancient History");
    reveal_strlit("European History");
    lemma_lower_ne("World History"@, "Literature"@, 0);
    lemma_lower_ne("World History"@, "History"@, 0);
    lemma_lower_ne("World History"@, "Science"@, 0);
    lemma_lower_ne("World History"@, "Fine Arts"@, 0);
    lemma_lower_ne("World History"@, "Religion"@, 0);
    lemma_lower_ne("World History"@, "Mythology"@, 0);
    lemma_lower_ne("World History"@, "Philosophy"@, 0);
    lemma_lower_ne("World History"@, "Social Science"@, 0);
    lemma_lower_ne("World History"@, "Current Events"@, 0);
    lemma_lower_ne("World History"@, "Geography"@, 0);
    lemma_lower_ne("World History"@, "Other Academic"@, 0);
    lemma_lower_ne("World History"@, "Pop Culture"@, 0);
    assert(fe_in(lower(spec_taxonomy()[1].subs[3]), main_names(), 0) == -1);
    lemma_lower_ne("World History"@, "American Literature"@, 0);
    lemma_lower_ne("World History"@, "British Literature"@, 0);
    lemma_lower_ne("World History"@, "Classical Literature"@, 0);
    lemma_lower_ne("World History"@, "European Literature"@, 0);
    lemma_lower_ne("World History"@, "World Literature"@, 0);
    lemma_lower_ne("World History"@, "Other Literature"@, 0);
    assert(fe_in(lower(spec_taxonomy()[1].subs[3]), spec_taxonomy()[0].subs, 0) == -1);
    lemma_lower_ne("World History"@, "American History"@, 0);
    lemma_lower_ne("World History"@, "Ancient History"@, 0);
    lemma_lower_ne("World History"@, "European History"@, 0);
    assert(fe_in(lower(spec_taxonomy()[1].subs[3]), spec_taxonomy()[1].subs, 0) == 3);
    assert(fe_sub(lower(spec_taxonomy()[1].subs[3]), 0) == Some((1int, 3int)));
}

proof fn sub_tok_other_history()
    ensures
        sub_resolves_exactly(1, 4),
{
    reveal_with_fuel(fe_in, 15);
    reveal_with_fuel(fe_sub, 14);
    reveal_strlit("Other History");
    reveal_strlit("Literature");
    reveal_strlit("History");
    reveal_strlit("Science");
    reveal_strlit("Fine Arts");
    reveal_strlit("Religion");
    reveal_strlit("Mythology");
    reveal_strlit("Philosophy");
    reveal_strlit("Social Science");
    reveal_strlit("Current Events");
    reveal_strlit("Geography");
    reveal_strlit("Other Academic");
    reveal_strlit("Pop Culture");
    reveal_strlit("American Literature");
    reveal_strlit("British Literature");
    reveal_strlit("Classical Literature");
    reveal_strlit("European Literature");
    reveal_strlit("World Literature");
    reveal_strlit("Other Literature");
    reveal_strlit("American History");
    reveal_strlit("Ancient History");
    reveal_strlit("European History");
    reveal_strlit("World History");
    lemma_lower_ne("Other History"@, "Literature"@, 0);
    lemma_lower_ne("Other History"@, "History"@, 0);
    lemma_lower_ne("Other History"@, "Science"@, 0);
    lemma_lower_ne("Other History"@, "Fine Arts"@, 0);
    lemma_lower_ne("Other History"@, "Religion"@, 0);
    lemma_lower_ne("Other History"@, "Mythology"@, 0);
    lemma_lower_ne("Other History"@, "Philosophy"@, 0);
    lemma_lower_ne("Other History"@, "Social Science"@, 0);
    lemma_lower_ne("Other History"@, "Current Events"@, 0);
    lemma_lower_ne("Other History"@, "Geography"@, 0);
    lemma_lower_ne("Other History"@, "Other Academic"@, 0);
    lemma_lower_ne("Other History"@, "Pop Culture"@, 0);
    assert(fe_in(lower(spec_taxonomy()[1].subs[4]), main_names(), 0) == -1);
    lemma_lower_ne("Other History"@, "American Literature"@, 0);
    lemma_lower_ne("Other History"@, "British Literature"@, 0);
    lemma_lower_ne("Other History"@, "Classical Literature"@, 0);
    lemma_lower_ne("Other History"@, "European Literature"@, 0);
    lemma_lower_ne("Other History"@, "World Literature"@, 0);
    lemma_lower_ne("Other History"@, "Other Literature"@, 0);
    assert(fe_in(lower(spec_taxonomy()[1].subs[4]), spec_taxonomy()[0].subs, 0) == -1);
    lemma_lower_ne("Other History"@, "American History"@, 0);
    lemma_lower_ne("Other History"@, "Ancient History"@, 0);
    lemma_lower_ne("Other History"@, "European History"@, 0);
    lemma_lower_ne("Other History"@, "World History"@, 0);
    assert(fe_in(lower(spec_taxonomy()[1].subs[4]), spec_taxonomy()[1].subs, 0) == 4);
    assert(fe_sub(lower(spec_taxonomy()[1].subs[4]), 0) == Some((1int, 4int)));
}

proof fn sub_tok_biology()
    ensures
        sub_resolves_exactly(2, 0),
{
    reveal_with_fuel(fe_in, 15);
    reveal_with_fuel(fe_sub, 14);
    reveal_strlit("Biology");
    reveal_strlit("Literature");
    reveal_strlit("History");
    reveal_strlit("Science");
    reveal_strlit("Fine Arts");
    reveal_strlit("Religion");
    reveal_strlit("Mythology");
    reveal_strlit("Philosophy");
    reveal_strlit("Social Science");
    reveal_strlit("Current Events");
    reveal_strlit("Geography");
    reveal_strlit("Other Academic");
    reveal_strlit("Pop Culture");
    reveal_strlit("American Literature");
    reveal_strlit("British Literature");
    reveal_strlit("Classical Literature");
    reveal_strlit("European Literature");
    reveal_strlit("World Literature");
    reveal_strlit("Other Literature");
    reveal_strlit("American History");
    reveal_strlit("Ancient History");
    reveal_strlit("European History");
    reveal_strlit("World History");
    reveal_strlit("Other History");
    lemma_lower_ne("Biology"@, "Literature"@, 0);
    lemma_lower_ne("Biology"@, "History"@, 0);
    lemma_lower_ne("Biology"@, "Science"@, 0);
    lemma_lower_ne("Biology"@, "Fine Arts"@, 0);
    lemma_lower_ne("Biology"@, "Religion"@, 0);
    lemma_lower_ne("Biology"@, "Mythology"@, 0);
    lemma_lower_ne("Biology"@, "Philosophy"@, 0);
    lemma_lower_ne("Biology"@, "Social Science"@, 0);
    lemma_lower_ne("Biology"@, "Current Events"@, 0);
    lemma_lower_ne("Biology"@, "Geography"@, 0);
    lemma_lower_ne("Biology"@, "Other Academic"@, 0);
    lemma_lower_ne("Biology"@, "Pop Culture"@, 0);
    assert(fe_in(lower(spec_taxonomy()[2].subs[0]), main_names(), 0) == -1);
    lemma_lower_ne("Biology"@, "American Literature"@, 0);
    lemma_lower_ne("Biology"@, "British Literature"@, 0);
    lemma_lower_ne("Biology"@, "Classical Literature"@, 0);
    lemma_lower_ne("Biology"@, "European Literature"@, 0);
    lemma_lower_ne("Biology"@, "World Literature"@, 0);
    lemma_lower_ne("Biology"@, "Other Literature"@, 0);
    assert(fe_in(lower(spec_taxonomy()[2].subs[0]), spec_taxonomy()[0].subs, 0) == -1);
    lemma_lower_ne("Biology"@, "American History"@, 0);
    lemma_lower_ne("Biology"@, "Ancient History"@, 0);
    lemma_lower_ne("Biology"@, "European History"@, 0);
    lemma_lower_ne("Biology"@, "World History"@, 0);
    lemma_lower_ne("Biology"@, "Other History"@, 0);
    assert(fe_in(lower(spec_taxonomy()[2].subs[0]), spec_taxonomy()[1].subs, 0) == -1);
    assert(fe_in(lower(spec_taxonomy()[2].subs[0]), spec_taxonomy()[2].subs, 0) == 0);
    assert(fe_sub(lower(spec_taxonomy()[2].subs[0]), 0) == Some((2int, 0int)));
}

proof fn sub_tok_chemistry()
    ensures
        sub_resolves_exactly(2, 1),
{
    reveal_with_fuel(fe_in, 15);
    reveal_with_fuel(fe_sub, 14);
    reveal_strlit("Chemistry");
    reveal_strlit("Literature");
    reveal_strlit("History");
    reveal_strlit("Science");
    reveal_strlit("Fine Arts");
    reveal_strlit("Religion");
    reveal_strlit("Mythology");
    reveal_strlit("Philosophy");
    reveal_strlit("Social Science");
    reveal_strlit("Current Events");
    reveal_strlit("Geography");
    reveal_strlit("Other Academic");
    reveal_strlit("Pop Culture");
    reveal_strlit("American Literature");
    reveal_strlit("British Literature");
    reveal_strlit("Classical Literature");
    reveal_strlit("European Literature");
    reveal_strlit("World Literature");
    reveal_strlit("Other Literature");
    reveal_strlit("American History");
    reveal_strlit("Ancient History");
    reveal_strlit("European History");
    reveal_strlit("World History");
    reveal_strlit("Other History");
    reveal_strlit("Biology");
    lemma_lower_ne("Chemistry"@, "Literature"@, 0);
    lemma_lower_ne("Chemistry"@, "History"@, 0);
    lemma_lower_ne("Chemistry"@, "Science"@, 0);
    lemma_lower_ne("Chemistry"@, "Fine Arts"@, 0);
    lemma_lower_ne("Chemistry"@, "Religion"@, 0);
    lemma_lower_ne("Chemistry"@, "Mythology"@, 0);
    lemma_lower_ne("Chemistry"@, "Philosophy"@, 0);
    lemma_lower_ne("Chemistry"@, "Social Science"@, 0);
    lemma_lower_ne("Chemistry"@, "Current Events"@, 0);
    lemma_lower_ne("Chemistry"@, "Geography"@, 0);
    lemma_lower_ne("Chemistry"@, "Other Academic"@, 0);
    lemma_lower_ne("Chemistry"@, "Pop Culture"@, 0);
    assert(fe_in(lower(spec_taxonomy()[2].subs[1]), main_names(), 0) == -1);
    lemma_lower_ne("Chemistry"@, "American Literature"@, 0);
    lemma_lower_ne("Chemistry"@, "British Literature"@, 0);
    lemma_lower_ne("Chemistry"@, "Classical Literature"@, 0);
    lemma_lower_ne("Chemistry"@, "European Literature"@, 0);
    lemma_lower_ne("Chemistry"@, "World Literature"@, 0);
    lemma_lower_ne("Chemistry"@, "Other Literature"@, 0);
    assert(fe_in(lower(spec_taxonomy()[2].subs[1]), spec_taxonomy()[0].subs, 0) == -1);
    lemma_lower_ne("Chemistry"@, "American History"@, 0);
    lemma_lower_ne("Chemistry"@, "Ancient History"@, 0);
    lemma_lower_ne("Chemistry"@, "European History"@, 0);
    lemma_lower_ne("Chemistry"@, "World History"@, 0);
    lemma_lower_ne("Chemistry"@, "Other History"@, 0);
    assert(fe_in(lower(spec_taxonomy()[2].subs[1]), spec_taxonomy()[1].subs, 0) == -1);
    lemma_lower_ne("Chemistry"@, "Biology"@, 0);
    assert(fe_in(lower(spec_taxonomy()[2].subs[1]), spec_taxonomy()[2].subs, 0) == 1);
    assert(fe_sub(lower(spec_taxonomy()[2].subs[1]), 0) == Some((2int, 1int)));
}

proof fn sub_tok_physics()
    ensures
        sub_resolves_exactly(2, 2),
{
    reveal_with_fuel(fe_in, 15);
    reveal_with_fuel(fe_sub, 14);
    reveal_strlit("Physics");
    reveal_strlit("Literature");
    reveal_strlit("History");
    reveal_strlit("Science");
    reveal_strlit("Fine Arts");
    reveal_strlit("Religion");
    reveal_strlit("Mythology");
    reveal_strlit("Philosophy");
    reveal_strlit("Social Science");
    reveal_strlit("Current Events");
    reveal_strlit("Geography");
    reveal_strlit("Other Academic");
    reveal_strlit("Pop Culture");
    reveal_strlit("American Literature");
    reveal_strlit("British Literature");
    reveal_strlit("Classical Literature");
    reveal_strlit("European Literature");
    reveal_strlit("World Literature");
    reveal_strlit("Other Literature");
    reveal_strlit("American History");
    reveal_strlit("Ancient History");
    reveal_strlit("European History");
    reveal_strlit("World History");
    reveal_strlit("Other History");
    reveal_strlit("Biology");
    reveal_strlit("Chemistry");
    lemma_lower_ne("Physics"@, "Literature"@, 0);
    lemma_lower_ne("Physics"@, "History"@, 0);
    lemma_lower_ne("Physics"@, "Science"@, 0);
    lemma_lower_ne("Physics"@, "Fine Arts"@, 0);
    lemma_lower_ne("Physics"@, "Religion"@, 0);
    lemma_lower_ne("Physics"@, "Mythology"@, 0);
    lemma_lower_ne("Physics"@, "Philosophy"@, 0);
    lemma_lower_ne("Physics"@, "Social Science"@, 0);
    lemma_lower_ne("Physics"@, "Current Events"@, 0);
    lemma_lower_ne("Physics"@, "Geography"@, 0);
    lemma_lower_ne("Physics"@, "Other Academic"@, 0);
    lemma_lower_ne("Physics"@, "Pop Culture"@, 0);
    assert(fe_in(lower(spec_taxonomy()[2].subs[2]), main_names(), 0) == -1);
    lemma_lower_ne("Physics"@, "American Literature"@, 0);
    lemma_lower_ne("Physics"@, "British Literature"@, 0);
    lemma_lower_ne("Physics"@, "Classical Literature"@, 0);
    lemma_lower_ne("Physics"@, "European Literature"@, 0);
    lemma_lower_ne("Physics"@, "World Literature"@, 0);
    lemma_lower_ne("Physics"@, "Other Literature"@, 0);
    assert(fe_in(lower(spec_taxonomy()[2].subs[2]), spec_taxonomy()[0].subs, 0) == -1);
    lemma_lower_ne("Physics"@, "American History"@, 0);
    lemma_lower_ne("Physics"@, "Ancient History"@, 0);
    lemma_lower_ne("Physics"@, "European History"@, 0);
    lemma_lower_ne("Physics"@, "World History"@, 0);
    lemma_lower_ne("Physics"@, "Other History"@, 0);
    assert(fe_in(lower(spec_taxonomy()[2].subs[2]), spec_taxonomy()[1].subs, 0) == -1);
    lemma_lower_ne("Physics"@, "Biology"@, 0);
    lemma_lower_ne("Physics"@, "Chemistry"@, 0);
    assert(fe_in(lower(spec_taxonomy()[2].subs[2]), spec_taxonomy()[2].subs, 0) == 2);
    assert(fe_sub(lower(spec_taxonomy()[2].subs[2]), 0) == Some((2int, 2int)));
}

proof fn sub_tok_other_science()
    ensures
        sub_resolves_exactly(2, 3),
{
    reveal_with_fuel(fe_in, 15);
    reveal_with_fuel(fe_sub, 14);
    reveal_strlit("Other Science");
    reveal_strlit("Literature");
    reveal_strlit("History");
    reveal_strlit("Science");
    reveal_strlit("Fine Arts");
    reveal_strlit("Religion");
    reveal_strlit("Mythology");
    reveal_strlit("Philosophy");
    reveal_strlit("Social Science");
    reveal_strlit("Current Events");
    reveal_strlit("Geography");
    reveal_strlit("Other Academic");
    reveal_strlit("Pop Culture");
    reveal_strlit("American Literature");
    reveal_strlit("British Literature");
    reveal_strlit("Classical Literature");
    reveal_strlit("European Literature");
    reveal_strlit("World Literature");
    reveal_strlit("Other Literature");
    reveal_strlit("American History");
    reveal_strlit("Ancient History");
    reveal_strlit("European History");
    reveal_strlit("World History");
    reveal_strlit("Other History");
    reveal_strlit("Biology");
    reveal_strlit("Chemistry");
    reveal_strlit("Physics");
    lemma_lower_ne("Other Science"@, "Literature"@, 0);
    lemma_lower_ne("Other Science"@, "History"@, 0);
    lemma_lower_ne("Other Science"@, "Science"@, 0);
    lemma_lower_ne("Other Science"@, "Fine Arts"@, 0);
    lemma_lower_ne("Other Science"@, "Religion"@, 0);
    lemma_lower_ne("Other Science"@, "Mythology"@, 0);
    lemma_lower_ne("Other Science"@, "Philosophy"@, 0);
    lemma_lower_ne("Other Science"@, "Social Science"@, 0);
    lemma_lower_ne("Other Science"@, "Current Events"@, 0);
    lemma_lower_ne("Other Science"@, "Geography"@, 0);
    lemma_lower_ne("Other Science"@, "Other Academic"@, 0);
    lemma_lower_ne("Other Science"@, "Pop Culture"@, 0);
    assert(fe_in(lower(spec_taxonomy()[2].subs[3]), main_names(), 0) == -1);
    lemma_lower_ne("Other Science"@, "American Literature"@, 0);
    lemma_lower_ne("Other Science"@, "British Literature"@, 0);
    lemma_lower_ne("Other Science"@, "Classical Literature"@, 0);
    lemma_lower_ne("Other Science"@, "European Literature"@, 0);
    lemma_lower_ne("Other Science"@, "World Literature"@, 0);
    lemma_lower_ne("Other Science"@, "Other Literature"@, 0);
    assert(fe_in(lower(spec_taxonomy()[2].subs[3]), spec_taxonomy()[0].subs, 0) == -1);
    lemma_lower_ne("Other Science"@, "American History"@, 0);
    lemma_lower_ne("Other Science"@, "Ancient History"@, 0);
    lemma_lower_ne("Other Science"@, "European History"@, 0);
    lemma_lower_ne("Other Science"@, "World History"@, 0);
    lemma_lower_ne("Other Science"@, "Other History"@, 6);
    assert(fe_in(lower(spec_taxonomy()[2].subs[3]), spec_taxonomy()[1].subs, 0) == -1);
    lemma_lower_ne("Other Science"@, "Biology"@, 0);
    lemma_lower_ne("Other Science"@, "Chemistry"@, 0);
    lemma_lower_ne("Other Science"@, "Physics"@, 0);
    assert(fe_in(lower(spec_taxonomy()[2].subs[3]), spec_taxonomy()[2].subs, 0) == 3);
    assert(fe_sub(lower(spec_taxonomy()[2].subs[3]), 0) == Some((2int, 3int)));
}

proof fn sub_tok_visual_fine_arts()
    ensures
        sub_resolves_exactly(3, 0),
{
    reveal_with_fuel(fe_in, 15);
    reveal_with_fuel(fe_sub, 14);
    reveal_strlit("Visual Fine Arts");
    reveal_strlit("Literature");
    reveal_strlit("History");
    reveal_strlit("Science");
    reveal_strlit("Fine Arts");
    reveal_strlit("Religion");
    reveal_strlit("Mythology");
    reveal_strlit("Philosophy");
    reveal_strlit("Social Science");
    reveal_strlit("Current Events");
    reveal_strlit("Geography");
    reveal_strlit("Other Academic");
    reveal_strlit("Pop Culture");
    reveal_strlit("American Literature");
    reveal_strlit("British Literature");
    reveal_strlit("Classical Literature");
    reveal_strlit("European Literature");
    reveal_strlit("World Literature");
    reveal_strlit("Other Literature");
    reveal_strlit("American History");
    reveal_strlit("Ancient History");
    reveal_strlit("European History");
    reveal_strlit("World History");
    reveal_strlit("Other History");
    reveal_strlit("Biology");
    reveal_strlit("Chemistry");
    reveal_strlit("Physics");
    reveal_strlit("Other Science");
    lemma_lower_ne("Visual Fine Arts"@, "Literature"@, 0);
    lemma_lower_ne("Visual Fine Arts"@, "History"@, 0);
    lemma_lower_ne("Visual Fine Arts"@, "Science"@, 0);
    lemma_lower_ne("Visual Fine Arts"@, "Fine Arts"@, 0);
    lemma_lower_ne("Visual Fine Arts"@, "Religion"@, 0);
    lemma_lower_ne("Visual Fine Arts"@, "Mythology"@, 0);
    lemma_lower_ne("Visual Fine Arts"@, "Philosophy"@, 0);
    lemma_lower_ne("Visual Fine Arts"@, "Social Science"@, 0);
    lemma_lower_ne("Visual Fine Arts"@, "Current Events"@, 0);
    lemma_lower_ne("Visual Fine Arts"@, "Geography"@, 0);
    lemma_lower_ne("Visual Fine Arts"@, "Other Academic"@, 0);
    lemma_lower_ne("Visual Fine Arts"@, "Pop Culture"@, 0);
    assert(fe_in(lower(spec_taxonomy()[3].subs[0]), main_names(), 0) == -1);
    lemma_lower_ne("Visual Fine Arts"@, "American Literature"@, 0);
    lemma_lower_ne("Visual Fine Arts"@, "British Literature"@, 0);
    lemma_lower_ne("Visual Fine Arts"@, "Classical Literature"@, 0);
    lemma_lower_ne("Visual Fine Arts"@, "European Literature"@, 0);
    lemma_lower_ne("Visual Fine Arts"@, "World Literature"@, 0);
    lemma_lower_ne("Visual Fine Arts"@, "Other Literature"@, 0);
    assert(fe_in(lower(spec_taxonomy()[3].subs[0]), spec_taxonomy()[0].subs, 0) == -1);
    lemma_lower_ne("Visual Fine Arts"@, "American History"@, 0);
    lemma_lower_ne("Visual Fine Arts"@, "Ancient History"@, 0);
    lemma_lower_ne("Visual Fine Arts"@, "European History"@, 0);
    lemma_lower_ne("Visual Fine Arts"@, "World History"@, 0);
    lemma_lower_ne("Visual Fine Arts"@, "Other History"@, 0);
    assert(fe_in(lower(spec_taxonomy()[3].subs[0]), spec_taxonomy()[1].subs, 0) == -1);
    lemma_lower_ne("Visual Fine Arts"@, "Biology"@, 0);
    lemma_lower_ne("Visual Fine Arts"@, "Chemistry"@, 0);
    lemma_lower_ne("Visual Fine Arts"@, "Physics"@, 0);
    lemma_lower_ne("Visual Fine Arts"@, "Other Science"@, 0);
    assert(fe_in(lower(spec_taxonomy()[3].subs[0]), spec_taxonomy()[2].subs, 0) == -1);
    assert(fe_in(lower(spec_taxonomy()[3].subs[0]), spec_taxonomy()[3].subs, 0) == 0);
    assert(fe_sub(lower(spec_taxonomy()[3].subs[0]), 0) == Some((3int, 0int)));
}

proof fn sub_tok_auditory_fine_arts()
    ensures
        sub_resolves_exactly(3, 1),
{
    reveal_with_fuel(fe_in, 15);
    reveal_with_fuel(fe_sub, 14);
    reveal_strlit("Auditory Fine Arts");
    reveal_strlit("Literature");
    reveal_strlit("History");
    reveal_strlit("Science");
    reveal_strlit("Fine Arts");
    reveal_strlit("Religion");
    reveal_strlit("Mythology");
    reveal_strlit("Philosophy");
    reveal_strlit("Social Science");
    reveal_strlit("Current Events");
    reveal_strlit("Geography");
    reveal_strlit("Other Academic");
    reveal_strlit("Pop Culture");
    reveal_strlit("American Literature");
    reveal_strlit("British Literature");
    reveal_strlit("Classical Literature");
    reveal_strlit("European Literature");
    reveal_strlit("World Literature");
    reveal_strlit("Other Literature");
    reveal_strlit("American History");
    reveal_strlit("Ancient History");
    reveal_strlit("European History");
    reveal_strlit("World History");
    reveal_strlit("Other History");
    reveal_strlit("Biology");
    reveal_strlit("Chemistry");
    reveal_strlit("Physics");
    reveal_strlit("Other Science");
    reveal_strlit("Visual Fine Arts");
    lemma_lower_ne("Auditory Fine Arts"@, "Literature"@, 0);
    lemma_lower_ne("Auditory Fine Arts"@, "History"@, 0);
    lemma_lower_ne("Auditory Fine Arts"@, "Science"@, 0);
    lemma_lower_ne("Auditory Fine Arts"@, "Fine Arts"@, 0);
    lemma_lower_ne("Auditory Fine Arts"@, "Religion"@, 0);
    lemma_lower_ne("Auditory Fine Arts"@, "Mythology"@, 0);
    lemma_lower_ne("Auditory Fine Arts"@, "Philosophy"@, 0);
    lemma_lower_ne("Auditory Fine Arts"@, "Social Science"@, 0);
    lemma_lower_ne("Auditory Fine Arts"@, "Current Events"@, 0);
    lemma_lower_ne("Auditory Fine Arts"@, "Geography"@, 0);
    lemma_lower_ne("Auditory Fine Arts"@, "Other Academic"@, 0);
    lemma_lower_ne("Auditory Fine Arts"@, "Pop Culture"@, 0);
    assert(fe_in(lower(spec_taxonomy()[3].subs[1]), main_names(), 0) == -1);
    lemma_lower_ne("Auditory Fine Arts"@, "American Literature"@, 0);
    lemma_lower_ne("Auditory Fine Arts"@, "British Literature"@, 0);
    lemma_lower_ne("Auditory Fine Arts"@, "Classical Literature"@, 0);
    lemma_lower_ne("Auditory Fine Arts"@, "European Literature"@, 0);
    lemma_lower_ne("Auditory Fine Arts"@, "World Literature"@, 0);
    lemma_lower_ne("Auditory Fine Arts"@, "Other Literature"@, 0);
    assert(fe_in(lower(spec_taxonomy()[3].subs[1]), spec_taxonomy()[0].subs, 0) == -1);
    lemma_lower_ne("Auditory Fine Arts"@, "American History"@, 0);
    lemma_lower_ne("Auditory Fine Arts"@, "Ancient History"@, 0);
    lemma_lower_ne("Auditory Fine Arts"@, "European History"@, 0);
    lemma_lower_ne("Auditory Fine Arts"@, "World History"@, 0);
    lemma_lower_ne("Auditory Fine Arts"@, "Other History"@, 0);
    assert(fe_in(lower(spec_taxonomy()[3].subs[1]), spec_taxonomy()[1].subs, 0) == -1);
    lemma_lower_ne("Auditory Fine Arts"@, "Biology"@, 0);
    lemma_lower_ne("Auditory Fine Arts"@, "Chemistry"@, 0);
    lemma_lower_ne("Auditory Fine Arts"@, "Physics"@, 0);
    lemma_lower_ne("Auditory Fine Arts"@, "Other Science"@, 0);
    assert(fe_in(lower(spec_taxonomy()[3].subs[1]), spec_taxonomy()[2].subs, 0) == -1);
    lemma_lower_ne("Auditory Fine Arts"@, "Visual Fine Arts"@, 0);
    assert(fe_in(lower(spec_taxonomy()[3].subs[1]), spec_taxonomy()[3].subs, 0) == 1);
    assert(fe_sub(lower(spec_taxonomy()[3].subs[1]), 0) == Some((3int, 1int)));
}

proof fn sub_tok_other_fine_arts()
    ensures
        sub_resolves_exactly(3, 2),
{
    reveal_with_fuel(fe_in, 15);
    reveal_with_fuel(fe_sub, 14);
    reveal_strlit("Other Fine Arts");
    reveal_strlit("Literature");
    reveal_strlit("History");
    reveal_strlit("Science");
    reveal_strlit("Fine Arts");
    reveal_strlit("Religion");
    reveal_strlit("Mythology");
    reveal_strlit("Philosophy");
    reveal_strlit("Social Science");
    reveal_strlit("Current Events");
    reveal_strlit("Geography");
    reveal_strlit("Other Academic");
    reveal_strlit("Pop Culture");
    reveal_strlit("American Literature");
    reveal_strlit("British Literature");
    reveal_strlit("Classical Literature");
    reveal_strlit("European Literature");
    reveal_strlit("World Literature");
    reveal_strlit("Other Literature");
    reveal_strlit("American History");
    reveal_strlit("Ancient History");
    reveal_strlit("European History");
    reveal_strlit("World History");
    reveal_strlit("Other History");
    reveal_strlit("Biology");
    reveal_strlit("Chemistry");
    reveal_strlit("Physics");
    reveal_strlit("Other Science");
    reveal_strlit("Visual Fine Arts");
    reveal_strlit("Auditory Fine Arts");
    lemma_lower_ne("Other Fine Arts"@, "Literature"@, 0);
    lemma_lower_ne("Other Fine Arts"@, "History"@, 0);
    lemma_lower_ne("Other Fine Arts"@, "Science"@, 0);
    lemma_lower_ne("Other Fine Arts"@, "Fine Arts"@, 0);
    lemma_lower_ne("Other Fine Arts"@, "Religion"@, 0);
    lemma_lower_ne("Other Fine Arts"@, "Mythology"@, 0);
    lemma_lower_ne("Other Fine Arts"@, "Philosophy"@, 0);
    lemma_lower_ne("Other Fine Arts"@, "Social Science"@, 0);
    lemma_lower_ne("Other Fine Arts"@, "Current Events"@, 0);
    lemma_lower_ne("Other Fine Arts"@, "Geography"@, 0);
    lemma_lower_ne("Other Fine Arts"@, "Other Academic"@, 0);
    lemma_lower_ne("Other Fine Arts"@, "Pop Culture"@, 0);
    assert(fe_in(lower(spec_taxonomy()[3].subs[2]), main_names(), 0) == -1);
    lemma_lower_ne("Other Fine Arts"@, "American Literature"@, 0);
    lemma_lower_ne("Other Fine Arts"@, "British Literature"@, 0);
    lemma_lower_ne("Other Fine Arts"@, "Classical Literature"@, 0);
    lemma_lower_ne("Other Fine Arts"@, "European Literature"@, 0);
    lemma_lower_ne("Other Fine Arts"@, "World Literature"@, 0);
    lemma_lower_ne("Other Fine Arts"@, "Other Literature"@, 0);
    assert(fe_in(lower(spec_taxonomy()[3].subs[2]), spec_taxonomy()[0].subs, 0) == -1);
    lemma_lower_ne("Other Fine Arts"@, "American History"@, 0);
    lemma_lower_ne("Other Fine Arts"@, "Ancient History"@, 0);
    lemma_lower_ne("Other Fine Arts"@, "European History"@, 0);
    lemma_lower_ne("Other Fine Arts"@, "World History"@, 0);
    lemma_lower_ne("Other Fine Arts"@, "Other History"@, 0);
    assert(fe_in(lower(spec_taxonomy()[3].subs[2]), spec_taxonomy()[1].subs, 0) == -1);
    lemma_lower_ne("Other Fine Arts"@, "Biology"@, 0);
    lemma_lower_ne("Other Fine Arts"@, "Chemistry"@, 0);
    lemma_lower_ne("Other Fine Arts"@, "Physics"@, 0);
    lemma_lower_ne("Other Fine Arts"@, "Other Science"@, 0);
    assert(fe_in(lower(spec_taxonomy()[3].subs[2]), spec_taxonomy()[2].subs, 0) == -1);
    lemma_lower_ne("Other Fine Arts"@, "Visual Fine Arts"@, 0);
    lemma_lower_ne("Other Fine Arts"@, "Auditory Fine Arts"@, 0);
    assert(fe_in(lower(spec_taxonomy()[3].subs[2]), spec_taxonomy()[3].subs, 0) == 2);
    assert(fe_sub(lower(spec_taxonomy()[3].subs[2]), 0) == Some((3int, 2int)));
}

proof fn sub_tok_other_social_science()
    ensures
        sub_resolves_exactly(7, 0),
{
    reveal_with_fuel(fe_in, 15);
    reveal_with_fuel(fe_sub, 14);
    reveal_strlit("Other Social Science");
    reveal_strlit("Literature");
    reveal_strlit("History");
    reveal_strlit("Science");
    reveal_strlit("Fine Arts");
    reveal_strlit("Religion");
    reveal_strlit("Mythology");
    reveal_strlit("Philosophy");
    reveal_strlit("Social Science");
    reveal_strlit("Current Events");
    reveal_strlit("Geography");
    reveal_strlit("Other Academic");
    reveal_strlit("Pop Culture");
    reveal_strlit("American Literature");
    reveal_strlit("British Literature");
    reveal_strlit("Classical Literature");
    reveal_strlit("European Literature");
    reveal_strlit("World Literature");
    reveal_strlit("Other Literature");
    reveal_strlit("American History");
    reveal_strlit("Ancient History");
    reveal_strlit("European History");
    reveal_strlit("World History");
    reveal_strlit("Other History");
    reveal_strlit("Biology");
    reveal_strlit("Chemistry");
    reveal_strlit("Physics");
    reveal_strlit("Other Science");
    reveal_strlit("Visual Fine Arts");
    reveal_strlit("Auditory Fine Arts");
    reveal_strlit("Other Fine Arts");
    lemma_lower_ne("Other Social Science"@, "Literature"@, 0);
    lemma_lower_ne("Other Social Science"@, "History"@, 0);
    lemma_lower_ne("Other Social Science"@, "Science"@, 0);
    lemma_lower_ne("Other Social Science"@, "Fine Arts"@, 0);
    lemma_lower_ne("Other Social Science"@, "Religion"@, 0);
    lemma_lower_ne("Other Social Science"@, "Mythology"@, 0);
    lemma_lower_ne("Other Social Science"@, "Philosophy"@, 0);
    lemma_lower_ne("Other Social Science"@, "Social Science"@, 0);
    lemma_lower_ne("Other Social Science"@, "Current Events"@, 0);
    lemma_lower_ne("Other Social Science"@, "Geography"@, 0);
    lemma_lower_ne("Other Social Science"@, "Other Academic"@, 0);
    lemma_lower_ne("Other Social Science"@, "Pop Culture"@, 0);
    assert(fe_in(lower(spec_taxonomy()[7].subs[0]), main_names(), 0) == -1);
    lemma_lower_ne("Other Social Science"@, "American Literature"@, 0);
    lemma_lower_ne("Other Social Science"@, "British Literature"@, 0);
    lemma_lower_ne("Other Social Science"@, "Classical Literature"@, 0);
    lemma_lower_ne("Other Social Science"@, "European Literature"@, 0);
    lemma_lower_ne("Other Social Science"@, "World Literature"@, 0);
    lemma_lower_ne("Other Social Science"@, "Other Literature"@, 0);
    assert(fe_in(lower(spec_taxonomy()[7].subs[0]), spec_taxonomy()[0].subs, 0) == -1);
    lemma_lower_ne("Other Social Science"@, "American History"@, 0);
    lemma_lower_ne("Other Social Science"@, "Ancient History"@, 0);
    lemma_lower_ne("Other Social Science"@, "European History"@, 0);
    lemma_lower_ne("Other Social Science"@, "World History"@, 0);
    lemma_lower_ne("Other Social Science"@, "Other History"@, 0);
    assert(fe_in(lower(spec_taxonomy()[7].subs[0]), spec_taxonomy()[1].subs, 0) == -1);
    lemma_lower_ne("Other Social Science"@, "Biology"@, 0);
    lemma_lower_ne("Other Social Science"@, "Chemistry"@, 0);
    lemma_lower_ne("Other Social Science"@, "Physics"@, 0);
    lemma_lower_ne("Other Social Science"@, "Other Science"@, 0);
    assert(fe_in(lower(spec_taxonomy()[7].subs[0]), spec_taxonomy()[2].subs, 0) == -1);
    lemma_lower_ne("Other Social Science"@, "Visual Fine Arts"@, 0);
    lemma_lower_ne("Other Social Science"@, "Auditory Fine Arts"@, 0);
    lemma_lower_ne("Other Social Science"@, "Other Fine Arts"@, 0);
    assert(fe_in(lower(spec_taxonomy()[7].subs[0]), spec_taxonomy()[3].subs, 0) == -1);
    assert(fe_in(lower(spec_taxonomy()[7].subs[0]), spec_taxonomy()[4].subs, 0) == -1);
    assert(fe_in(lower(spec_taxonomy()[7].subs[0]), spec_taxonomy()[5].subs, 0) == -1);
    assert(fe_in(lower(spec_taxonomy()[7].subs[0]), spec_taxonomy()[6].subs, 0) == -1);
    assert(fe_in(lower(spec_taxonomy()[7].subs[0]), spec_taxonomy()[7].subs, 0) == 0);
    assert(fe_sub(lower(spec_taxonomy()[7].subs[0]), 0) == Some((7int, 0int)));
}

proof fn sub_tok_movies()
    ensures
        sub_resolves_exactly(11, 0),
{
    reveal_with_fuel(fe_in, 15);
    reveal_with_fuel(fe_sub, 14);
    reveal_strlit("Movies");
    reveal_strlit("Literature");
    reveal_strlit("History");
    reveal_strlit("Science");
    reveal_strlit("Fine Arts");
    reveal_strlit("Religion");
    reveal_strlit("Mythology");
    reveal_strlit("Philosophy");
    reveal_strlit("Social Science");
    reveal_strlit("Current Events");
    reveal_strlit("Geography");
    reveal_strlit("Other Academic");
    reveal_strlit("Pop Culture");
    reveal_strlit("American Literature");
    reveal_strlit("British Literature");
    reveal_strlit("Classical Literature");
    reveal_strlit("European Literature");
    reveal_strlit("World Literature");
    reveal_strlit("Other Literature");
    reveal_strlit("American History");
    reveal_strlit("Ancient History");
    reveal_strlit("European History");
    reveal_strlit("World History");
    reveal_strlit("Other History");
    reveal_strlit("Biology");
    reveal_strlit("Chemistry");
    reveal_strlit("Physics");
    reveal_strlit("Other Science");
    reveal_strlit("Visual Fine Arts");
    reveal_strlit("Auditory Fine Arts");
    reveal_strlit("Other Fine Arts");
    reveal_strlit("Other Social Science");
    lemma_lower_ne("Movies"@, "Literature"@, 0);
    lemma_lower_ne("Movies"@, "History"@, 0);
    lemma_lower_ne("Movies"@, "Science"@, 0);
    lemma_lower_ne("Movies"@, "Fine Arts"@, 0);
    lemma_lower_ne("Movies"@, "Religion"@, 0);
    lemma_lower_ne("Movies"@, "Mythology"@, 0);
    lemma_lower_ne("Movies"@, "Philosophy"@, 0);
    lemma_lower_ne("Movies"@, "Social Science"@, 0);
    lemma_lower_ne("Movies"@, "Current Events"@, 0);
    lemma_lower_ne("Movies"@, "Geography"@, 0);
    lemma_lower_ne("Movies"@, "Other Academic"@, 0);
    lemma_lower_ne("Movies"@, "Pop Culture"@, 0);
    assert(fe_in(lower(spec_taxonomy()[11].subs[0]), main_names(), 0) == -1);
    lemma_lower_ne("Movies"@, "American Literature"@, 0);
    lemma_lower_ne("Movies"@, "British Literature"@, 0);
    lemma_lower_ne("Movies"@, "Classical Literature"@, 0);
    lemma_lower_ne("Movies"@, "European Literature"@, 0);
    lemma_lower_ne("Movies"@, "World Literature"@, 0);
    lemma_lower_ne("Movies"@, "Other Literature"@, 0);
    assert(fe_in(lower(spec_taxonomy()[11].subs[0]), spec_taxonomy()[0].subs, 0) == -1);
    lemma_lower_ne("Movies"@, "American History"@, 0);
    lemma_lower_ne("Movies"@, "Ancient History"@, 0);
    lemma_lower_ne("Movies"@, "European History"@, 0);
    lemma_lower_ne("Movies"@, "World History"@, 0);
    lemma_lower_ne("Movies"@, "Other History"@, 0);
    assert(fe_in(lower(spec_taxonomy()[11].subs[0]), spec_taxonomy()[1].subs, 0) == -1);
    lemma_lower_ne("Movies"@, "Biology"@, 0);
    lemma_lower_ne("Movies"@, "Chemistry"@, 0);
    lemma_lower_ne("Movies"@, "Physics"@, 0);
    lemma_lower_ne("Movies"@, "Other Science"@, 0);
    assert(fe_in(lower(spec_taxonomy()[11].subs[0]), spec_taxonomy()[2].subs, 0) == -1);
    lemma_lower_ne("Movies"@, "Visual Fine Arts"@, 0);
    lemma_lower_ne("Movies"@, "Auditory Fine Arts"@, 0);
    lemma_lower_ne("Movies"@, "Other Fine Arts"@, 0);
    assert(fe_in(lower(spec_taxonomy()[11].subs[0]), spec_taxonomy()[3].subs, 0) == -1);
    assert(fe_in(lower(spec_taxonomy()[11].subs[0]), spec_taxonomy()[4].subs, 0) == -1);
    assert(fe_in(lower(spec_taxonomy()[11].subs[0]), spec_taxonomy()[5].subs, 0) == -1);
    assert(fe_in(lower(spec_taxonomy()[11].subs[0]), spec_taxonomy()[6].subs, 0) == -1);
    lemma_lower_ne("Movies"@, "Other Social Science"@, 0);
    assert(fe_in(lower(spec_taxonomy()[11].subs[0]), spec_taxonomy()[7].subs, 0) == -1);
    assert(fe_in(lower(spec_taxonomy()[11].subs[0]), spec_taxonomy()[8].subs, 0) == -1);
    assert(fe_in(lower(spec_taxonomy()[11].subs[0]), spec_taxonomy()[9].subs, 0) == -1);
    assert(fe_in(lower(spec_taxonomy()[11].subs[0]), spec_taxonomy()[10].subs, 0) == -1);
    assert(fe_in(lower(spec_taxonomy()[11].subs[0]), spec_taxonomy()[11].subs, 0) == 0);
    assert(fe_sub(lower(spec_taxonomy()[11].subs[0]), 0) == Some((11int, 0int)));
}

proof fn sub_tok_music()
    ensures
        sub_resolves_exactly(11, 1),
{
    reveal_with_fuel(fe_in, 15);
    reveal_with_fuel(fe_sub, 14);
    reveal_strlit("Music");
    reveal_strlit("Literature");
    reveal_strlit("History");
    reveal_strlit("Science");
    reveal_strlit("Fine Arts");
    reveal_strlit("Religion");
    reveal_strlit("Mythology");
    reveal_strlit("Philosophy");
    reveal_strlit("Social Science");
    reveal_strlit("Current Events");
    reveal_strlit("Geography");
    reveal_strlit("Other Academic");
    reveal_strlit("Pop Culture");
    reveal_strlit("American Literature");
    reveal_strlit("British Literature");
    reveal_strlit("Classical Literature");
    reveal_strlit("European Literature");
    reveal_strlit("World Literature");
    reveal_strlit("Other Literature");
    reveal_strlit("American History");
    reveal_strlit("Ancient History");
    reveal_strlit("European History");
    reveal_strlit("World History");
    reveal_strlit("Other History");
    reveal_strlit("Biology");
    reveal_strlit("Chemistry");
    reveal_strlit("Physics");
    reveal_strlit("Other Science");
    reveal_strlit("Visual Fine Arts");
    reveal_strlit("Auditory Fine Arts");
    reveal_strlit("Other Fine Arts");
    reveal_strlit("Other Social Science");
    reveal_strlit("Movies");
    lemma_lower_ne("Music"@, "Literature"@, 0);
    lemma_lower_ne("Music"@, "History"@, 0);
    lemma_lower_ne("Music"@, "Science"@, 0);
    lemma_lower_ne("Music"@, "Fine Arts"@, 0);
    lemma_lower_ne("Music"@, "Religion"@, 0);
    lemma_lower_ne("Music"@, "Mythology"@, 0);
    lemma_lower_ne("Music"@, "Philosophy"@, 0);
    lemma_lower_ne("Music"@, "Social Science"@, 0);
    lemma_lower_ne("Music"@, "Current Events"@, 0);
    lemma_lower_ne("Music"@, "Geography"@, 0);
    lemma_lower_ne("Music"@, "Other Academic"@, 0);
    lemma_lower_ne("Music"@, "Pop Culture"@, 0);
    assert(fe_in(lower(spec_taxonomy()[11].subs[1]), main_names(), 0) == -1);
    lemma_lower_ne("Music"@, "American Literature"@, 0);
    lemma_lower_ne("Music"@, "British Literature"@, 0);
    lemma_lower_ne("Music"@, "Classical Literature"@, 0);
    lemma_lower_ne("Music"@, "European Literature"@, 0);
    lemma_lower_ne("Music"@, "World Literature"@, 0);
    lemma_lower_ne("Music"@, "Other Literature"@, 0);
    assert(fe_in(lower(spec_taxonomy()[11].subs[1]), spec_taxonomy()[0].subs, 0) == -1);
    lemma_lower_ne("Music"@, "American History"@, 0);
    lemma_lower_ne("Music"@, "Ancient History"@, 0);
    lemma_lower_ne("Music"@, "European History"@, 0);
    lemma_lower_ne("Music"@, "World History"@, 0);
    lemma_lower_ne("Music"@, "Other History"@, 0);
    assert(fe_in(lower(spec_taxonomy()[11].subs[1]), spec_taxonomy()[1].subs, 0) == -1);
    lemma_lower_ne("Music"@, "Biology"@, 0);
    lemma_lower_ne("Music"@, "Chemistry"@, 0);
    lemma_lower_ne("Music"@, "Physics"@, 0);
    lemma_lower_ne("Music"@, "Other Science"@, 0);
    assert(fe_in(lower(spec_taxonomy()[11].subs[1]), spec_taxonomy()[2].subs, 0) == -1);
    lemma_lower_ne("Music"@, "Visual Fine Arts"@, 0);
    lemma_lower_ne("Music"@, "Auditory Fine Arts"@, 0);
    lemma_lower_ne("Music"@, "Other Fine Arts"@, 0);
    assert(fe_in(lower(spec_taxonomy()[11].subs[1]), spec_taxonomy()[3].subs, 0) == -1);
    assert(fe_in(lower(spec_taxonomy()[11].subs[1]), spec_taxonomy()[4].subs, 0) == -1);
    assert(fe_in(lower(spec_taxonomy()[11].subs[1]), spec_taxonomy()[5].subs, 0) == -1);
    assert(fe_in(lower(spec_taxonomy()[11].subs[1]), spec_taxonomy()[6].subs, 0) == -1);
    lemma_lower_ne("Music"@, "Other Social Science"@, 0);
    assert(fe_in(lower(spec_taxonomy()[11].subs[1]), spec_taxonomy()[7].subs, 0) == -1);
    assert(fe_in(lower(spec_taxonomy()[11].subs[1]), spec_taxonomy()[8].subs, 0) == -1);
    assert(fe_in(lower(spec_taxonomy()[11].subs[1]), spec_taxonomy()[9].subs, 0) == -1);
    assert(fe_in(lower(spec_taxonomy()[11].subs[1]), spec_taxonomy()[10].subs, 0) == -1);
    lemma_lower_ne("Music"@, "Movies"@, 0);
    assert(fe_in(lower(spec_taxonomy()[11].subs[1]), spec_taxonomy()[11].subs, 0) == 1);
    assert(fe_sub(lower(spec_taxonomy()[11].subs[1]), 0) == Some((11int, 1int)));
}

proof fn sub_tok_sports()
    ensures
        sub_resolves_exactly(11, 2),
{
    reveal_with_fuel(fe_in, 15);
    reveal_with_fuel(fe_sub, 14);
    reveal_strlit("Sports");
    reveal_strlit("Literature");
    reveal_strlit("History");
    reveal_strlit("Science");
    reveal_strlit("Fine Arts");
    reveal_strlit("Religion");
    reveal_strlit("Mythology");
    reveal_strlit("Philosophy");
    reveal_strlit("Social Science");
    reveal_strlit("Current Events");
    reveal_strlit("Geography");
    reveal_strlit("Other Academic");
    reveal_strlit("Pop Culture");
    reveal_strlit("American Literature");
    reveal_strlit("British Literature");
    reveal_strlit("Classical Literature");
    reveal_strlit("European Literature");
    reveal_strlit("World Literature");
    reveal_strlit("Other Literature");
    reveal_strlit("American History");
    reveal_strlit("Ancient History");
    reveal_strlit("European History");
    reveal_strlit("World History");
    reveal_strlit("Other History");
    reveal_strlit("Biology");
    reveal_strlit("Chemistry");
    reveal_strlit("Physics");
    reveal_strlit("Other Science");
    reveal_strlit("Visual Fine Arts");
    reveal_strlit("Auditory Fine Arts");
    reveal_strlit("Other Fine Arts");
    reveal_strlit("Other Social Science");
    reveal_strlit("Movies");
    reveal_strlit("Music");
    lemma_lower_ne("Sports"@, "Literature"@, 0);
    lemma_lower_ne("Sports"@, "History"@, 0);
    lemma_lower_ne("Sports"@, "Science"@, 0);
    lemma_lower_ne("Sports"@, "Fine Arts"@, 0);
    lemma_lower_ne("Sports"@, "Religion"@, 0);
    lemma_lower_ne("Sports"@, "Mythology"@, 0);
    lemma_lower_ne("Sports"@, "Philosophy"@, 0);
    lemma_lower_ne("Sports"@, "Social Science"@, 0);
    lemma_lower_ne("Sports"@, "Current Events"@, 0);
    lemma_lower_ne("Sports"@, "Geography"@, 0);
    lemma_lower_ne("Sports"@, "Other Academic"@, 0);
    lemma_lower_ne("Sports"@, "Pop Culture"@, 0);
    assert(fe_in(lower(spec_taxonomy()[11].subs[2]), main_names(), 0) == -1);
    lemma_lower_ne("Sports"@, "American Literature"@, 0);
    lemma_lower_ne("Sports"@, "British Literature"@, 0);
    lemma_lower_ne("Sports"@, "Classical Literature"@, 0);
    lemma_lower_ne("Sports"@, "European Literature"@, 0);
    lemma_lower_ne("Sports"@, "World Literature"@, 0);
    lemma_lower_ne("Sports"@, "Other Literature"@, 0);
    assert(fe_in(lower(spec_taxonomy()[11].subs[2]), spec_taxonomy()[0].subs, 0) == -1);
    lemma_lower_ne("Sports"@, "American History"@, 0);
    lemma_lower_ne("Sports"@, "Ancient History"@, 0);
    lemma_lower_ne("Sports"@, "European History"@, 0);
    lemma_lower_ne("Sports"@, "World History"@, 0);
    lemma_lower_ne("Sports"@, "Other History"@, 0);
    assert(fe_in(lower(spec_taxonomy()[11].subs[2]), spec_taxonomy()[1].subs, 0) == -1);
    lemma_lower_ne("Sports"@, "Biology"@, 0);
    lemma_lower_ne("Sports"@, "Chemistry"@, 0);
    lemma_lower_ne("Sports"@, "Physics"@, 0);
    lemma_lower_ne("Sports"@, "Other Science"@, 0);
    assert(fe_in(lower(spec_taxonomy()[11].subs[2]), spec_taxonomy()[2].subs, 0) == -1);
    lemma_lower_ne("Sports"@, "Visual Fine Arts"@, 0);
    lemma_lower_ne("Sports"@, "Auditory Fine Arts"@, 0);
    lemma_lower_ne("Sports"@, "Other Fine Arts"@, 0);
    assert(fe_in(lower(spec_taxonomy()[11].subs[2]), spec_taxonomy()[3].subs, 0) == -1);
    assert(fe_in(lower(spec_taxonomy()[11].subs[2]), spec_taxonomy()[4].subs, 0) == -1);
    assert(fe_in(lower(spec_taxonomy()[11].subs[2]), spec_taxonomy()[5].subs, 0) == -1);
    assert(fe_in(lower(spec_taxonomy()[11].subs[2]), spec_taxonomy()[6].subs, 0) == -1);
    lemma_lower_ne("Sports"@, "Other Social Science"@, 0);
    assert(fe_in(lower(spec_taxonomy()[11].subs[2]), spec_taxonomy()[7].subs, 0) == -1);
    assert(fe_in(lower(spec_taxonomy()[11].subs[2]), spec_taxonomy()[8].subs, 0) == -1);
    assert(fe_in(lower(spec_taxonomy()[11].subs[2]), spec_taxonomy()[9].subs, 0) == -1);
    assert(fe_in(lower(spec_taxonomy()[11].subs[2]), spec_taxonomy()[10].subs, 0) == -1);
    lemma_lower_ne("Sports"@, "Movies"@, 0);
    lemma_lower_ne("Sports"@, "Music"@, 0);
    assert(fe_in(lower(spec_taxonomy()[11].subs[2]), spec_taxonomy()[11].subs, 0) == 2);
    assert(fe_sub(lower(spec_taxonomy()[11].subs[2]), 0) == Some((11int, 2int)));
}

proof fn sub_tok_television()
    ensures
        sub_resolves_exactly(11, 3),
{
    reveal_with_fuel(fe_in, 15);
    reveal_with_fuel(fe_sub, 14);
    reveal_strlit("Television");
    reveal_strlit("Literature");
    reveal_strlit("History");
    reveal_strlit("Science");
    reveal_strlit("Fine Arts");
    reveal_strlit("Religion");
    reveal_strlit("Mythology");
    reveal_strlit("Philosophy");
    reveal_strlit("Social Science");
    reveal_strlit("Current Events");
    reveal_strlit("Geography");
    reveal_strlit("Other Academic");
    reveal_strlit("Pop Culture");
    reveal_strlit("American Literature");
    reveal_strlit("British Literature");
    reveal_strlit("Classical Literature");
    reveal_strlit("European Literature");
    reveal_strlit("World Literature");
    reveal_strlit("Other Literature");
    reveal_strlit("American History");
    reveal_strlit("Ancient History");
    reveal_strlit("European History");
    reveal_strlit("World History");
    reveal_strlit("Other History");
    reveal_strlit("Biology");
    reveal_strlit("Chemistry");
    reveal_strlit("Physics");
    reveal_strlit("Other Science");
    reveal_strlit("Visual Fine Arts");
    reveal_strlit("Auditory Fine Arts");
    reveal_strlit("Other Fine Arts");
    reveal_strlit("Other Social Science");
    reveal_strlit("Movies");
    reveal_strlit("Music");
    reveal_strlit("Sports");
    lemma_lower_ne("Television"@, "Literature"@, 0);
    lemma_lower_ne("Television"@, "History"@, 0);
    lemma_lower_ne("Television"@, "Science"@, 0);
    lemma_lower_ne("Television"@, "Fine Arts"@, 0);
    lemma_lower_ne("Television"@, "Religion"@, 0);
    lemma_lower_ne("Television"@, "Mythology"@, 0);
    lemma_lower_ne("Television"@, "Philosophy"@, 0);
    lemma_lower_ne("Television"@, "Social Science"@, 0);
    lemma_lower_ne("Television"@, "Current Events"@, 0);
    lemma_lower_ne("Television"@, "Geography"@, 0);
    lemma_lower_ne("Television"@, "Other Academic"@, 0);
    lemma_lower_ne("Television"@, "Pop Culture"@, 0);
    assert(fe_in(lower(spec_taxonomy()[11].subs[3]), main_names(), 0) == -1);
    lemma_lower_ne("Television"@, "American Literature"@, 0);
    lemma_lower_ne("Television"@, "British Literature"@, 0);
    lemma_lower_ne("Television"@, "Classical Literature"@, 0);
    lemma_lower_ne("Television"@, "European Literature"@, 0);
    lemma_lower_ne("Television"@, "World Literature"@, 0);
    lemma_lower_ne("Television"@, "Other Literature"@, 0);
    assert(fe_in(lower(spec_taxonomy()[11].subs[3]), spec_taxonomy()[0].subs, 0) == -1);
    lemma_lower_ne("Television"@, "American History"@, 0);
    lemma_lower_ne("Television"@, "Ancient History"@, 0);
    lemma_lower_ne("Television"@, "European History"@, 0);
    lemma_lower_ne("Television"@, "World History"@, 0);
    lemma_lower_ne("Television"@, "Other History"@, 0);
    assert(fe_in(lower(spec_taxonomy()[11].subs[3]), spec_taxonomy()[1].subs, 0) == -1);
    lemma_lower_ne("Television"@, "Biology"@, 0);
    lemma_lower_ne("Television"@, "Chemistry"@, 0);
    lemma_lower_ne("Television"@, "Physics"@, 0);
    lemma_lower_ne("Television"@, "Other Science"@, 0);
    assert(fe_in(lower(spec_taxonomy()[11].subs[3]), spec_taxonomy()[2].subs, 0) == -1);
    lemma_lower_ne("Television"@, "Visual Fine Arts"@, 0);
    lemma_lower_ne("Television"@, "Auditory Fine Arts"@, 0);
    lemma_lower_ne("Television"@, "Other Fine Arts"@, 0);
    assert(fe_in(lower(spec_taxonomy()[11].subs[3]), spec_taxonomy()[3].subs, 0) == -1);
    assert(fe_in(lower(spec_taxonomy()[11].subs[3]), spec_taxonomy()[4].subs, 0) == -1);
    assert(fe_in(lower(spec_taxonomy()[11].subs[3]), spec_taxonomy()[5].subs, 0) == -1);
    assert(fe_in(lower(spec_taxonomy()[11].subs[3]), spec_taxonomy()[6].subs, 0) == -1);
    lemma_lower_ne("Television"@, "Other Social Science"@, 0);
    assert(fe_in(lower(spec_taxonomy()[11].subs[3]), spec_taxonomy()[7].subs, 0) == -1);
    assert(fe_in(lower(spec_taxonomy()[11].subs[3]), spec_taxonomy()[8].subs, 0) == -1);
    assert(fe_in(lower(spec_taxonomy()[11].subs[3]), spec_taxonomy()[9].subs, 0) == -1);
    assert(fe_in(lower(spec_taxonomy()[11].subs[3]), spec_taxonomy()[10].subs, 0) == -1);
    lemma_lower_ne("Television"@, "Movies"@, 0);
    lemma_lower_ne("Television"@, "Music"@, 0);
    lemma_lower_ne("Television"@, "Sports"@, 0);
    assert(fe_in(lower(spec_taxonomy()[11].subs[3]), spec_taxonomy()[11].subs, 0) == 3);
    assert(fe_sub(lower(spec_taxonomy()[11].subs[3]), 0) == Some((11int, 3int)));
}

proof fn sub_tok_video_games()
    ensures
        sub_resolves_exactly(11, 4),
{
    reveal_with_fuel(fe_in, 15);
    reveal_with_fuel(fe_sub, 14);
    reveal_strlit("Video Games");
    reveal_strlit("Literature");
    reveal_strlit("History");
    reveal_strlit("Science");
    reveal_strlit("Fine Arts");
    reveal_strlit("Religion");
    reveal_strlit("Mythology");
    reveal_strlit("Philosophy");
    reveal_strlit("Social Science");
    reveal_strlit("Current Events");
    reveal_strlit("Geography");
    reveal_strlit("Other Academic");
    reveal_strlit("Pop Culture");
    reveal_strlit("American Literature");
    reveal_strlit("British Literature");
    reveal_strlit("Classical Literature");
    reveal_strlit("European Literature");
    reveal_strlit("World Literature");
    reveal_strlit("Other Literature");
    reveal_strlit("American History");
    reveal_strlit("Ancient History");
    reveal_strlit("European History");
    reveal_strlit("World History");
    reveal_strlit("Other History");
    reveal_strlit("Biology");
    reveal_strlit("Chemistry");
    reveal_strlit("Physics");
    reveal_strlit("Other Science");
    reveal_strlit("Visual Fine Arts");
    reveal_strlit("Auditory Fine Arts");
    reveal_strlit("Other Fine Arts");
    reveal_strlit("Other Social Science");
    reveal_strlit("Movies");
    reveal_strlit("Music");
    reveal_strlit("Sports");
    reveal_strlit("Television");
    lemma_lower_ne("Video Games"@, "Literature"@, 0);
    lemma_lower_ne("Video Games"@, "History"@, 0);
    lemma_lower_ne("Video Games"@, "Science"@, 0);
    lemma_lower_ne("Video Games"@, "Fine Arts"@, 0);
    lemma_lower_ne("Video Games"@, "Religion"@, 0);
    lemma_lower_ne("Video Games"@, "Mythology"@, 0);
    lemma_lower_ne("Video Games"@, "Philosophy"@, 0);
    lemma_lower_ne("Video Games"@, "Social Science"@, 0);
    lemma_lower_ne("Video Games"@, "Current Events"@, 0);
    lemma_lower_ne("Video Games"@, "Geography"@, 0);
    lemma_lower_ne("Video Games"@, "Other Academic"@, 0);
    lemma_lower_ne("Video Games"@, "Pop Culture"@, 0);
    assert(fe_in(lower(spec_taxonomy()[11].subs[4]), main_names(), 0) == -1);
    lemma_lower_ne("Video Games"@, "American Literature"@, 0);
    lemma_lower_ne("Video Games"@, "British Literature"@, 0);
    lemma_lower_ne("Video Games"@, "Classical Literature"@, 0);
    lemma_lower_ne("Video Games"@, "European Literature"@, 0);
    lemma_lower_ne("Video Games"@, "World Literature"@, 0);
    lemma_lower_ne("Video Games"@, "Other Literature"@, 0);
    assert(fe_in(lower(spec_taxonomy()[11].subs[4]), spec_taxonomy()[0].subs, 0) == -1);
    lemma_lower_ne("Video Games"@, "American History"@, 0);
    lemma_lower_ne("Video Games"@, "Ancient History"@, 0);
    lemma_lower_ne("Video Games"@, "European History"@, 0);
    lemma_lower_ne("Video Games"@, "World History"@, 0);
    lemma_lower_ne("Video Games"@, "Other History"@, 0);
    assert(fe_in(lower(spec_taxonomy()[11].subs[4]), spec_taxonomy()[1].subs, 0) == -1);
    lemma_lower_ne("Video Games"@, "Biology"@, 0);
    lemma_lower_ne("Video Games"@, "Chemistry"@, 0);
    lemma_lower_ne("Video Games"@, "Physics"@, 0);
    lemma_lower_ne("Video Games"@, "Other Science"@, 0);
    assert(fe_in(lower(spec_taxonomy()[11].subs[4]), spec_taxonomy()[2].subs, 0) == -1);
    lemma_lower_ne("Video Games"@, "Visual Fine Arts"@, 0);
    lemma_lower_ne("Video Games"@, "Auditory Fine Arts"@, 0);
    lemma_lower_ne("Video Games"@, "Other Fine Arts"@, 0);
    assert(fe_in(lower(spec_taxonomy()[11].subs[4]), spec_taxonomy()[3].subs, 0) == -1);
    assert(fe_in(lower(spec_taxonomy()[11].subs[4]), spec_taxonomy()[4].subs, 0) == -1);
    assert(fe_in(lower(spec_taxonomy()[11].subs[4]), spec_taxonomy()[5].subs, 0) == -1);
    assert(fe_in(lower(spec_taxonomy()[11].subs[4]), spec_taxonomy()[6].subs, 0) == -1);
    lemma_lower_ne("Video Games"@, "Other Social Science"@, 0);
    assert(fe_in(lower(spec_taxonomy()[11].subs[4]), spec_taxonomy()[7].subs, 0) == -1);
    assert(fe_in(lower(spec_taxonomy()[11].subs[4]), spec_taxonomy()[8].subs, 0) == -1);
    assert(fe_in(lower(spec_taxonomy()[11].subs[4]), spec_taxonomy()[9].subs, 0) == -1);
    assert(fe_in(lower(spec_taxonomy()[11].subs[4]), spec_taxonomy()[10].subs, 0) == -1);
    lemma_lower_ne("Video Games"@, "Movies"@, 0);
    lemma_lower_ne("Video Games"@, "Music"@, 0);
    lemma_lower_ne("Video Games"@, "Sports"@, 0);
    lemma_lower_ne("Video Games"@, "Television"@, 0);
    assert(fe_in(lower(spec_taxonomy()[11].subs[4]), spec_taxonomy()[11].subs, 0) == 4);
    assert(fe_sub(lower(spec_taxonomy()[11].subs[4]), 0) == Some((11int, 4int)));
}

proof fn sub_tok_other_pop_culture()
    ensures
        sub_resolves_exactly(11, 5),
{
    reveal_with_fuel(fe_in, 15);
    reveal_with_fuel(fe_sub, 14);
    reveal_strlit("Other Pop Culture");
    reveal_strlit("Literature");
    reveal_strlit("History");
    reveal_strlit("Science");
    reveal_strlit("Fine Arts");
    reveal_strlit("Religion");
    reveal_strlit("Mythology");
    reveal_strlit("Philosophy");
    reveal_strlit("Social Science");
    reveal_strlit("Current Events");
    reveal_strlit("Geography");
    reveal_strlit("Other Academic");
    reveal_strlit("Pop Culture");
    reveal_strlit("American Literature");
    reveal_strlit("British Literature");
    reveal_strlit("Classical Literature");
    reveal_strlit("European Literature");
    reveal_strlit("World Literature");
    reveal_strlit("Other Literature");
    reveal_strlit("American History");
    reveal_strlit("Ancient History");
    reveal_strlit("European History");
    reveal_strlit("World History");
    reveal_strlit("Other History");
    reveal_strlit("Biology");
    reveal_strlit("Chemistry");
    reveal_strlit("Physics");
    reveal_strlit("Other Science");
    reveal_strlit("Visual Fine Arts");
    reveal_strlit("Auditory Fine Arts");
    reveal_strlit("Other Fine Arts");
    reveal_strlit("Other Social Science");
    reveal_strlit("Movies");
    reveal_strlit("Music");
    reveal_strlit("Sports");
    reveal_strlit("Television");
    reveal_strlit("Video Games");
    lemma_lower_ne("Other Pop Culture"@, "Literature"@, 0);
    lemma_lower_ne("Other Pop Culture"@, "History"@, 0);
    lemma_lower_ne("Other Pop Culture"@, "Science"@, 0);
    lemma_lower_ne("Other Pop Culture"@, "Fine Arts"@, 0);
    lemma_lower_ne("Other Pop Culture"@, "Religion"@, 0);
    lemma_lower_ne("Other Pop Culture"@, "Mythology"@, 0);
    lemma_lower_ne("Other Pop Culture"@, "Philosophy"@, 0);
    lemma_lower_ne("Other Pop Culture"@, "Social Science"@, 0);
    lemma_lower_ne("Other Pop Culture"@, "Current Events"@, 0);
    lemma_lower_ne("Other Pop Culture"@, "Geography"@, 0);
    lemma_lower_ne("Other Pop Culture"@, "Other Academic"@, 0);
    lemma_lower_ne("Other Pop Culture"@, "Pop Culture"@, 0);
    assert(fe_in(lower(spec_taxonomy()[11].subs[5]), main_names(), 0) == -1);
    lemma_lower_ne("Other Pop Culture"@, "American Literature"@, 0);
    lemma_lower_ne("Other Pop Culture"@, "British Literature"@, 0);
    lemma_lower_ne("Other Pop Culture"@, "Classical Literature"@, 0);
    lemma_lower_ne("Other Pop Culture"@, "European Literature"@, 0);
    lemma_lower_ne("Other Pop Culture"@, "World Literature"@, 0);
    lemma_lower_ne("Other Pop Culture"@, "Other Literature"@, 0);
    assert(fe_in(lower(spec_taxonomy()[11].subs[5]), spec_taxonomy()[0].subs, 0) == -1);
    lemma_lower_ne("Other Pop Culture"@, "American History"@, 0);
    lemma_lower_ne("Other Pop Culture"@, "Ancient History"@, 0);
    lemma_lower_ne("Other Pop Culture"@, "European History"@, 0);
    lemma_lower_ne("Other Pop Culture"@, "World History"@, 0);
    lemma_lower_ne("Other Pop Culture"@, "Other History"@, 0);
    assert(fe_in(lower(spec_taxonomy()[11].subs[5]), spec_taxonomy()[1].subs, 0) == -1);
    lemma_lower_ne("Other Pop Culture"@, "Biology"@, 0);
    lemma_lower_ne("Other Pop Culture"@, "Chemistry"@, 0);
    lemma_lower_ne("Other Pop Culture"@, "Physics"@, 0);
    lemma_lower_ne("Other Pop Culture"@, "Other Science"@, 0);
    assert(fe_in(lower(spec_taxonomy()[11].subs[5]), spec_taxonomy()[2].subs, 0) == -1);
    lemma_lower_ne("Other Pop Culture"@, "Visual Fine Arts"@, 0);
    lemma_lower_ne("Other Pop Culture"@, "Auditory Fine Arts"@, 0);
    lemma_lower_ne("Other Pop Culture"@, "Other Fine Arts"@, 0);
    assert(fe_in(lower(spec_taxonomy()[11].subs[5]), spec_taxonomy()[3].subs, 0) == -1);
    assert(fe_in(lower(spec_taxonomy()[11].subs[5]), spec_taxonomy()[4].subs, 0) == -1);
    assert(fe_in(lower(spec_taxonomy()[11].subs[5]), spec_taxonomy()[5].subs, 0) == -1);
    assert(fe_in(lower(spec_taxonomy()[11].subs[5]), spec_taxonomy()[6].subs, 0) == -1);
    lemma_lower_ne("Other Pop Culture"@, "Other Social Science"@, 0);
    assert(fe_in(lower(spec_taxonomy()[11].subs[5]), spec_taxonomy()[7].subs, 0) == -1);
    assert(fe_in(lower(spec_taxonomy()[11].subs[5]), spec_taxonomy()[8].subs, 0) == -1);
    assert(fe_in(lower(spec_taxonomy()[11].subs[5]), spec_taxonomy()[9].subs, 0) == -1);
    assert(fe_in(lower(spec_taxonomy()[11].subs[5]), spec_taxonomy()[10].subs, 0) == -1);
    lemma_lower_ne("Other Pop Culture"@, "Movies"@, 0);
    lemma_lower_ne("Other Pop Culture"@, "Music"@, 0);
    lemma_lower_ne("Other Pop Culture"@, "Sports"@, 0);
    lemma_lower_ne("Other Pop Culture"@, "Television"@, 0);
    lemma_lower_ne("Other Pop Culture"@, "Video Games"@, 0);
    assert(fe_in(lower(spec_taxonomy()[11].subs[5]), spec_taxonomy()[11].subs, 0) == 5);
    assert(fe_sub(lower(spec_taxonomy()[11].subs[5]), 0) == Some((11int, 5int)));
}

proof fn alt_tok_drama()
    ensures
        alt_resolves_exactly(0, 0),
{
    reveal_with_fuel(fe_in, 15);
    reveal_with_fuel(fe_sub, 14);
    reveal_with_fuel(crate::query::fe_alt, 14);
    reveal_strlit("Drama");
    reveal_strlit("Literature");
    reveal_strlit("History");
    reveal_strlit("Science");
    reveal_strlit("Fine Arts");
    reveal_strlit("Religion");
    reveal_strlit("Mythology");
    reveal_strlit("Philosophy");
    reveal_strlit("Social Science");
    reveal_strlit("Current Events");
    reveal_strlit("Geography");
    reveal_strlit("Other Academic");
    reveal_strlit("Pop Culture");
    reveal_strlit("American Literature");
    reveal_strlit("British Literature");
    reveal_strlit("Classical Literature");
    reveal_strlit("European Literature");
    reveal_strlit("World Literature");
    reveal_strlit("Other Literature");
    reveal_strlit("American History");
    reveal_strlit("Ancient History");
    reveal_strlit("European History");
    reveal_strlit("World History");
    reveal_strlit("Other History");
    reveal_strlit("Biology");
    reveal_strlit("Chemistry");
    reveal_strlit("Physics");
    reveal_strlit("Other Science");
    reveal_strlit("Visual Fine Arts");
    reveal_strlit("Auditory Fine Arts");
    reveal_strlit("Other Fine Arts");
    reveal_strlit("Other Social Science");
    reveal_strlit("Movies");
    reveal_strlit("Music");
    reveal_strlit("Sports");
    reveal_strlit("Television");
    reveal_strlit("Video Games");
    reveal_strlit("Other Pop Culture");
    lemma_lower_ne("Drama"@, "Literature"@, 0);
    lemma_lower_ne("Drama"@, "History"@, 0);
    lemma_lower_ne("Drama"@, "Science"@, 0);
    lemma_lower_ne("Drama"@, "Fine Arts"@, 0);
    lemma_lower_ne("Drama"@, "Religion"@, 0);
    lemma_lower_ne("Drama"@, "Mythology"@, 0);
    lemma_lower_ne("Drama"@, "Philosophy"@, 0);
    lemma_lower_ne("Drama"@, "Social Science"@, 0);
    lemma_lower_ne("Drama"@, "Current Events"@, 0);
    lemma_lower_ne("Drama"@, "Geography"@, 0);
    lemma_lower_ne("Drama"@, "Other Academic"@, 0);
    lemma_lower_ne("Drama"@, "Pop Culture"@, 0);
    assert(fe_in(lower(spec_taxonomy()[0].alts[0]), main_names(), 0) == -1);
    lemma_lower_ne("Drama"@, "American Literature"@, 0);
    lemma_lower_ne("Drama"@, "British Literature"@, 0);
    lemma_lower_ne("Drama"@, "Classical Literature"@, 0);
    lemma_lower_ne("Drama"@, "European Literature"@, 0);
    lemma_lower_ne("Drama"@, "World Literature"@, 0);
    lemma_lower_ne("Drama"@, "Other Literature"@, 0);
    assert(fe_in(lower(spec_taxonomy()[0].alts[0]), spec_taxonomy()[0].subs, 0) == -1);
    lemma_lower_ne("Drama"@, "American History"@, 0);
    lemma_lower_ne("Drama"@, "Ancient History"@, 0);
    lemma_lower_ne("Drama"@, "European History"@, 0);
    lemma_lower_ne("Drama"@, "World History"@, 0);
    lemma_lower_ne("Drama"@, "Other History"@, 0);
    assert(fe_in(lower(spec_taxonomy()[0].alts[0]), spec_taxonomy()[1].subs, 0) == -1);
    lemma_lower_ne("Drama"@, "Biology"@, 0);
    lemma_lower_ne("Drama"@, "Chemistry"@, 0);
    lemma_lower_ne("Drama"@, "Physics"@, 0);
    lemma_lower_ne("Drama"@, "Other Science"@, 0);
    assert(fe_in(lower(spec_taxonomy()[0].alts[0]), spec_taxonomy()[2].subs, 0) == -1);
    lemma_lower_ne("Drama"@, "Visual Fine Arts"@, 0);
    lemma_lower_ne("Drama"@, "Auditory Fine Arts"@, 0);
    lemma_lower_ne("Drama"@, "Other Fine Arts"@, 0);
    assert(fe_in(lower(spec_taxonomy()[0].alts[0]), spec_taxonomy()[3].subs, 0) == -1);
    assert(fe_in(lower(spec_taxonomy()[0].alts[0]), spec_taxonomy()[4].subs, 0) == -1);
    assert(fe_in(lower(spec_taxonomy()[0].alts[0]), spec_taxonomy()[5].subs, 0) == -1);
    assert(fe_in(lower(spec_taxonomy()[0].alts[0]), spec_taxonomy()[6].subs, 0) == -1);
    lemma_lower_ne("Drama"@, "Other Social Science"@, 0);
    assert(fe_in(lower(spec_taxonomy()[0].alts[0]), spec_taxonomy()[7].subs, 0) == -1);
    assert(fe_in(lower(spec_taxonomy()[0].alts[0]), spec_taxonomy()[8].subs, 0) == -1);
    assert(fe_in(lower(spec_taxonomy()[0].alts[0]), spec_taxonomy()[9].subs, 0) == -1);
    assert(fe_in(lower(spec_taxonomy()[0].alts[0]), spec_taxonomy()[10].subs, 0) == -1);
    lemma_lower_ne("Drama"@, "Movies"@, 0);
    lemma_lower_ne("Drama"@, "Music"@, 0);
    lemma_lower_ne("Drama"@, "Sports"@, 0);
    lemma_lower_ne("Drama"@, "Television"@, 0);
    lemma_lower_ne("Drama"@, "Video Games"@, 0);
    lemma_lower_ne("Drama"@, "Other Pop Culture"@, 0);
    assert(fe_in(lower(spec_taxonomy()[0].alts[0]), spec_taxonomy()[11].subs, 0) == -1);
    assert(fe_sub(lower(spec_taxonomy()[0].alts[0]), 0) == None::<(int, int)>);
    assert(fe_in(lower(spec_taxonomy()[0].alts[0]), spec_taxonomy()[0].alts, 0) == 0);
    assert(crate::query::fe_alt(lower(spec_taxonomy()[0].alts[0]), 0) == Some((0int, 0int)));
}

proof fn alt_tok_long_fiction()
    ensures
        alt_resolves_exactly(0, 1),
{
    reveal_with_fuel(fe_in, 15);
    reveal_with_fuel(fe_sub, 14);
    reveal_with_fuel(crate::query::fe_alt, 14);
    reveal_strlit("Long Fiction");
    reveal_strlit("Literature");
    reveal_strlit("History");
    reveal_strlit("Science");
    reveal_strlit("Fine Arts");
    reveal_strlit("Religion");
    reveal_strlit("Mythology");
    reveal_strlit("Philosophy");
    reveal_strlit("Social Science");
    reveal_strlit("Current Events");
    reveal_strlit("Geography");
    reveal_strlit("Other Academic");
    reveal_strlit("Pop Culture");
    reveal_strlit("American Literature");
    reveal_strlit("British Literature");
    reveal_strlit("Classical Literature");
    reveal_strlit("European Literature");
    reveal_strlit("World Literature");
    reveal_strlit("Other Literature");
    reveal_strlit("American History");
    reveal_strlit("Ancient History");
    reveal_strlit("European History");
    reveal_strlit("World History");
    reveal_strlit("Other History");
    reveal_strlit("Biology");
    reveal_strlit("Chemistry");
    reveal_strlit("Physics");
    reveal_strlit("Other Science");
    reveal_strlit("Visual Fine Arts");
    reveal_strlit("Auditory Fine Arts");
    reveal_strlit("Other Fine Arts");
    reveal_strlit("Other Social Science");
    reveal_strlit("Movies");
    reveal_strlit("Music");
    reveal_strlit("Sports");
    reveal_strlit("Television");
    reveal_strlit("Video Games");
    reveal_strlit("Other Pop Culture");
    reveal_strlit("Drama");
    lemma_lower_ne("Long Fiction"@, "Literature"@, 0);
    lemma_lower_ne("Long Fiction"@, "History"@, 0);
    lemma_lower_ne("Long Fiction"@, "Science"@, 0);
    lemma_lower_ne("Long Fiction"@, "Fine Arts"@, 0);
    lemma_lower_ne("Long Fiction"@, "Religion"@, 0);
    lemma_lower_ne("Long Fiction"@, "Mythology"@, 0);
    lemma_lower_ne("Long Fiction"@, "Philosophy"@, 0);
    lemma_lower_ne("Long Fiction"@, "Social Science"@, 0);
    lemma_lower_ne("Long Fiction"@, "Current Events"@, 0);
    lemma_lower_ne("Long Fiction"@, "Geography"@, 0);
    lemma_lower_ne("Long Fiction"@, "Other Academic"@, 0);
    lemma_lower_ne("Long Fiction"@, "Pop Culture"@, 0);
    assert(fe_in(lower(spec_taxonomy()[0].alts[1]), main_names(), 0) == -1);
    lemma_lower_ne("Long Fiction"@, "American Literature"@, 0);
    lemma_lower_ne("Long Fiction"@, "British Literature"@, 0);
    lemma_lower_ne("Long Fiction"@, "Classical Literature"@, 0);
    lemma_lower_ne("Long Fiction"@, "European Literature"@, 0);
    lemma_lower_ne("Long Fiction"@, "World Literature"@, 0);
    lemma_lower_ne("Long Fiction"@, "Other Literature"@, 0);
    assert(fe_in(lower(spec_taxonomy()[0].alts[1]), spec_taxonomy()[0].subs, 0) == -1);
    lemma_lower_ne("Long Fiction"@, "American History"@, 0);
    lemma_lower_ne("Long Fiction"@, "Ancient History"@, 0);
    lemma_lower_ne("Long Fiction"@, "European History"@, 0);
    lemma_lower_ne("Long Fiction"@, "World History"@, 0);
    lemma_lower_ne("Long Fiction"@, "Other History"@, 0);
    assert(fe_in(lower(spec_taxonomy()[0].alts[1]), spec_taxonomy()[1].subs, 0) == -1);
    lemma_lower_ne("Long Fiction"@, "Biology"@, 0);
    lemma_lower_ne("Long Fiction"@, "Chemistry"@, 0);
    lemma_lower_ne("Long Fiction"@, "Physics"@, 0);
    lemma_lower_ne("Long Fiction"@, "Other Science"@, 0);
    assert(fe_in(lower(spec_taxonomy()[0].alts[1]), spec_taxonomy()[2].subs, 0) == -1);
    lemma_lower_ne("Long Fiction"@, "Visual Fine Arts"@, 0);
    lemma_lower_ne("Long Fiction"@, "Auditory Fine Arts"@, 0);
    lemma_lower_ne("Long Fiction"@, "Other Fine Arts"@, 0);
    assert(fe_in(lower(spec_taxonomy()[0].alts[1]), spec_taxonomy()[3].subs, 0) == -1);
    assert(fe_in(lower(spec_taxonomy()[0].alts[1]), spec_taxonomy()[4].subs, 0) == -1);
    assert(fe_in(lower(spec_taxonomy()[0].alts[1]), spec_taxonomy()[5].subs, 0) == -1);
    assert(fe_in(lower(spec_taxonomy()[0].alts[1]), spec_taxonomy()[6].subs, 0) == -1);
    lemma_lower_ne("Long Fiction"@, "Other Social Science"@, 0);
    assert(fe_in(lower(spec_taxonomy()[0].alts[1]), spec_taxonomy()[7].subs, 0) == -1);
    assert(fe_in(lower(spec_taxonomy()[0].alts[1]), spec_taxonomy()[8].subs, 0) == -1);
    assert(fe_in(lower(spec_taxonomy()[0].alts[1]), spec_taxonomy()[9].subs, 0) == -1);
    assert(fe_in(lower(spec_taxonomy()[0].alts[1]), spec_taxonomy()[10].subs, 0) == -1);
    lemma_lower_ne("Long Fiction"@, "Movies"@, 0);
    lemma_lower_ne("Long Fiction"@, "Music"@, 0);
    lemma_lower_ne("Long Fiction"@, "Sports"@, 0);
    lemma_lower_ne("Long Fiction"@, "Television"@, 0);
    lemma_lower_ne("Long Fiction"@, "Video Games"@, 0);
    lemma_lower_ne("Long Fiction"@, "Other Pop Culture"@, 0);
    assert(fe_in(lower(spec_taxonomy()[0].alts[1]), spec_taxonomy()[11].subs, 0) == -1);
    assert(fe_sub(lower(spec_taxonomy()[0].alts[1]), 0) == None::<(int, int)>);
    lemma_lower_ne("Long Fiction"@, "Drama"@, 0);
    assert(fe_in(lower(spec_taxonomy()[0].alts[1]), spec_taxonomy()[0].alts, 0) == 1);
    assert(crate::query::fe_alt(lower(spec_taxonomy()[0].alts[1]), 0) == Some((0int, 1int)));
}

proof fn alt_tok_poetry()
    ensures
        alt_resolves_exactly(0, 2),
{
    reveal_with_fuel(fe_in, 15);
    reveal_with_fuel(fe_sub, 14);
    reveal_with_fuel(crate::query::fe_alt, 14);
    reveal_strlit("Poetry");
    reveal_strlit("Literature");
    reveal_strlit("History");
    reveal_strlit("Science");
    reveal_strlit("Fine Arts");
    reveal_strlit("Religion");
    reveal_strlit("Mythology");
    reveal_strlit("Philosophy");
    reveal_strlit("Social Science");
    reveal_strlit("Current Events");
    reveal_strlit("Geography");
    reveal_strlit("Other Academic");
    reveal_strlit("Pop Culture");
    reveal_strlit("American Literature");
    reveal_strlit("British Literature");
    reveal_strlit("Classical Literature");
    reveal_strlit("European Literature");
    reveal_strlit("World Literature");
    reveal_strlit("Other Literature");
    reveal_strlit("American History");
    reveal_strlit("Ancient History");
    reveal_strlit("European History");
    reveal_strlit("World History");
    reveal_strlit("Other History");
    reveal_strlit("Biology");
    reveal_strlit("Chemistry");
    reveal_strlit("Physics");
    reveal_strlit("Other Science");
    reveal_strlit("Visual Fine Arts");
    reveal_strlit("Auditory Fine Arts");
    reveal_strlit("Other Fine Arts");
    reveal_strlit("Other Social Science");
    reveal_strlit("Movies");
    reveal_strlit("Music");
    reveal_strlit("Sports");
    reveal_strlit("Television");
    reveal_strlit("Video Games");
    reveal_strlit("Other Pop Culture");
    reveal_strlit("Drama");
    reveal_strlit("Long Fiction");
    lemma_lower_ne("Poetry"@, "Literature"@, 0);
    lemma_lower_ne("Poetry"@, "History"@, 0);
    lemma_lower_ne("Poetry"@, "Science"@, 0);
    lemma_lower_ne("Poetry"@, "Fine Arts"@, 0);
    lemma_lower_ne("Poetry"@, "Religion"@, 0);
    lemma_lower_ne("Poetry"@, "Mythology"@, 0);
    lemma_lower_ne("Poetry"@, "Philosophy"@, 0);
    lemma_lower_ne("Poetry"@, "Social Science"@, 0);
    lemma_lower_ne("Poetry"@, "Current Events"@, 0);
    lemma_lower_ne("Poetry"@, "Geography"@, 0);
    lemma_lower_ne("Poetry"@, "Other Academic"@, 0);
    lemma_lower_ne("Poetry"@, "Pop Culture"@, 0);
    assert(fe_in(lower(spec_taxonomy()[0].alts[2]), main_names(), 0) == -1);
    lemma_lower_ne("Poetry"@, "American Literature"@, 0);
    lemma_lower_ne("Poetry"@, "British Literature"@, 0);
    lemma_lower_ne("Poetry"@, "Classical Literature"@, 0);
    lemma_lower_ne("Poetry"@, "European Literature"@, 0);
    lemma_lower_ne("Poetry"@, "World Literature"@, 0);
    lemma_lower_ne("Poetry"@, "Other Literature"@, 0);
    assert(fe_in(lower(spec_taxonomy()[0].alts[2]), spec_taxonomy()[0].subs, 0) == -1);
    lemma_lower_ne("Poetry"@, "American History"@, 0);
    lemma_lower_ne("Poetry"@, "Ancient History"@, 0);
    lemma_lower_ne("Poetry"@, "European History"@, 0);
    lemma_lower_ne("Poetry"@, "World History"@, 0);
    lemma_lower_ne("Poetry"@, "Other History"@, 0);
    assert(fe_in(lower(spec_taxonomy()[0].alts[2]), spec_taxonomy()[1].subs, 0) == -1);
    lemma_lower_ne("Poetry"@, "Biology"@, 0);
    lemma_lower_ne("Poetry"@, "Chemistry"@, 0);
    lemma_lower_ne("Poetry"@, "Physics"@, 0);
    lemma_lower_ne("Poetry"@, "Other Science"@, 0);
    assert(fe_in(lower(spec_taxonomy()[0].alts[2]), spec_taxonomy()[2].subs, 0) == -1);
    lemma_lower_ne("Poetry"@, "Visual Fine Arts"@, 0);
    lemma_lower_ne("Poetry"@, "Auditory Fine Arts"@, 0);
    lemma_lower_ne("Poetry"@, "Other Fine Arts"@, 0);
    assert(fe_in(lower(spec_taxonomy()[0].alts[2]), spec_taxonomy()[3].subs, 0) == -1);
    assert(fe_in(lower(spec_taxonomy()[0].alts[2]), spec_taxonomy()[4].subs, 0) == -1);
    assert(fe_in(lower(spec_taxonomy()[0].alts[2]), spec_taxonomy()[5].subs, 0) == -1);
    assert(fe_in(lower(spec_taxonomy()[0].alts[2]), spec_taxonomy()[6].subs, 0) == -1);
    lemma_lower_ne("Poetry"@, "Other Social Science"@, 0);
    assert(fe_in(lower(spec_taxonomy()[0].alts[2]), spec_taxonomy()[7].subs, 0) == -1);
    assert(fe_in(lower(spec_taxonomy()[0].alts[2]), spec_taxonomy()[8].subs, 0) == -1);
    assert(fe_in(lower(spec_taxonomy()[0].alts[2]), spec_taxonomy()[9].subs, 0) == -1);
    assert(fe_in(lower(spec_taxonomy()[0].alts[2]), spec_taxonomy()[10].subs, 0) == -1);
    lemma_lower_ne("Poetry"@, "Movies"@, 0);
    lemma_lower_ne("Poetry"@, "Music"@, 0);
    lemma_lower_ne("Poetry"@, "Sports"@, 0);
    lemma_lower_ne("Poetry"@, "Television"@, 0);
    lemma_lower_ne("Poetry"@, "Video Games"@, 0);
    lemma_lower_ne("Poetry"@, "Other Pop Culture"@, 0);
    assert(fe_in(lower(spec_taxonomy()[0].alts[2]), spec_taxonomy()[11].subs, 0) == -1);
    assert(fe_sub(lower(spec_taxonomy()[0].alts[2]), 0) == None::<(int, int)>);
    lemma_lower_ne("Poetry"@, "Drama"@, 0);
    lemma_lower_ne("Poetry"@, "Long Fiction"@, 0);
    assert(fe_in(lower(spec_taxonomy()[0].alts[2]), spec_taxonomy()[0].alts, 0) == 2);
    assert(crate::query::fe_alt(lower(spec_taxonomy()[0].alts[2]), 0) == Some((0int, 2int)));
}

proof fn alt_tok_short_fiction()
    ensures
        alt_resolves_exactly(0, 3),
{
    reveal_with_fuel(fe_in, 15);
    reveal_with_fuel(fe_sub, 14);
    reveal_with_fuel(crate::query::fe_alt, 14);
    reveal_strlit("Short Fiction");
    reveal_strlit("Literature");
    reveal_strlit("History");
    reveal_strlit("Science");
    reveal_strlit("Fine Arts");
    reveal_strlit("Religion");
    reveal_strlit("Mythology");
    reveal_strlit("Philosophy");
    reveal_strlit("Social Science");
    reveal_strlit("Current Events");
    reveal_strlit("Geography");
    reveal_strlit("Other Academic");
    reveal_strlit("Pop Culture");
    reveal_strlit("American Literature");
    reveal_strlit("British Literature");
    reveal_strlit("Classical Literature");
    reveal_strlit("European Literature");
    reveal_strlit("World Literature");
    reveal_strlit("Other Literature");
    reveal_strlit("American History");
    reveal_strlit("Ancient History");
    reveal_strlit("European History");
    reveal_strlit("World History");
    reveal_strlit("Other History");
    reveal_strlit("Biology");
    reveal_strlit("Chemistry");
    reveal_strlit("Physics");
    reveal_strlit("Other Science");
    reveal_strlit("Visual Fine Arts");
    reveal_strlit("Auditory Fine Arts");
    reveal_strlit("Other Fine Arts");
    reveal_strlit("Other Social Science");
    reveal_strlit("Movies");
    reveal_strlit("Music");
    reveal_strlit("Sports");
    reveal_strlit("Television");
    reveal_strlit("Video Games");
    reveal_strlit("Other Pop Culture");
    reveal_strlit("Drama");
    reveal_strlit("Long Fiction");
    reveal_strlit("Poetry");
    lemma_lower_ne("Short Fiction"@, "Literature"@, 0);
    lemma_lower_ne("Short Fiction"@, "History"@, 0);
    lemma_lower_ne("Short Fiction"@, "Science"@, 0);
    lemma_lower_ne("Short Fiction"@, "Fine Arts"@, 0);
    lemma_lower_ne("Short Fiction"@, "Religion"@, 0);
    lemma_lower_ne("Short Fiction"@, "Mythology"@, 0);
    lemma_lower_ne("Short Fiction"@, "Philosophy"@, 0);
    lemma_lower_ne("Short Fiction"@, "Social Science"@, 0);
    lemma_lower_ne("Short Fiction"@, "Current Events"@, 0);
    lemma_lower_ne("Short Fiction"@, "Geography"@, 0);
    lemma_lower_ne("Short Fiction"@, "Other Academic"@, 0);
    lemma_lower_ne("Short Fiction"@, "Pop Culture"@, 0);
    assert(fe_in(lower(spec_taxonomy()[0].alts[3]), main_names(), 0) == -1);
    lemma_lower_ne("Short Fiction"@, "American Literature"@, 0);
    lemma_lower_ne("Short Fiction"@, "British Literature"@, 0);
    lemma_lower_ne("Short Fiction"@, "Classical Literature"@, 0);
    lemma_lower_ne("Short Fiction"@, "European Literature"@, 0);
    lemma_lower_ne("Short Fiction"@, "World Literature"@, 0);
    lemma_lower_ne("Short Fiction"@, "Other Literature"@, 0);
    assert(fe_in(lower(spec_taxonomy()[0].alts[3]), spec_taxonomy()[0].subs, 0) == -1);
    lemma_lower_ne("Short Fiction"@, "American History"@, 0);
    lemma_lower_ne("Short Fiction"@, "Ancient History"@, 0);
    lemma_lower_ne("Short Fiction"@, "European History"@, 0);
    lemma_lower_ne("Short Fiction"@, "World History"@, 0);
    lemma_lower_ne("Short Fiction"@, "Other History"@, 0);
    assert(fe_in(lower(spec_taxonomy()[0].alts[3]), spec_taxonomy()[1].subs, 0) == -1);
    lemma_lower_ne("Short Fiction"@, "Biology"@, 0);
    lemma_lower_ne("Short Fiction"@, "Chemistry"@, 0);
    lemma_lower_ne("Short Fiction"@, "Physics"@, 0);
    lemma_lower_ne("Short Fiction"@, "Other Science"@, 0);
    assert(fe_in(lower(spec_taxonomy()[0].alts[3]), spec_taxonomy()[2].subs, 0) == -1);
    lemma_lower_ne("Short Fiction"@, "Visual Fine Arts"@, 0);
    lemma_lower_ne("Short Fiction"@, "Auditory Fine Arts"@, 0);
    lemma_lower_ne("Short Fiction"@, "Other Fine Arts"@, 0);
    assert(fe_in(lower(spec_taxonomy()[0].alts[3]), spec_taxonomy()[3].subs, 0) == -1);
    assert(fe_in(lower(spec_taxonomy()[0].alts[3]), spec_taxonomy()[4].subs, 0) == -1);
    assert(fe_in(lower(spec_taxonomy()[0].alts[3]), spec_taxonomy()[5].subs, 0) == -1);
    assert(fe_in(lower(spec_taxonomy()[0].alts[3]), spec_taxonomy()[6].subs, 0) == -1);
    lemma_lower_ne("Short Fiction"@, "Other Social Science"@, 0);
    assert(fe_in(lower(spec_taxonomy()[0].alts[3]), spec_taxonomy()[7].subs, 0) == -1);
    assert(fe_in(lower(spec_taxonomy()[0].alts[3]), spec_taxonomy()[8].subs, 0) == -1);
    assert(fe_in(lower(spec_taxonomy()[0].alts[3]), spec_taxonomy()[9].subs, 0) == -1);
    assert(fe_in(lower(spec_taxonomy()[0].alts[3]), spec_taxonomy()[10].subs, 0) == -1);
    lemma_lower_ne("Short Fiction"@, "Movies"@, 0);
    lemma_lower_ne("Short Fiction"@, "Music"@, 0);
    lemma_lower_ne("Short Fiction"@, "Sports"@, 0);
    lemma_lower_ne("Short Fiction"@, "Television"@, 0);
    lemma_lower_ne("Short Fiction"@, "Video Games"@, 0);
    lemma_lower_ne("Short Fiction"@, "Other Pop Culture"@, 0);
    assert(fe_in(lower(spec_taxonomy()[0].alts[3]), spec_taxonomy()[11].subs, 0) == -1);
    assert(fe_sub(lower(spec_taxonomy()[0].alts[3]), 0) == None::<(int, int)>);
    lemma_lower_ne("Short Fiction"@, "Drama"@, 0);
    lemma_lower_ne("Short Fiction"@, "Long Fiction"@, 0);
    lemma_lower_ne("Short Fiction"@, "Poetry"@, 0);
    assert(fe_in(lower(spec_taxonomy()[0].alts[3]), spec_taxonomy()[0].alts, 0) == 3);
    assert(crate::query::fe_alt(lower(spec_taxonomy()[0].alts[3]), 0) == Some((0int, 3int)));
}

proof fn alt_tok_misc_literature()
    ensures
        alt_resolves_exactly(0, 4),
{
    reveal_with_fuel(fe_in, 15);
    reveal_with_fuel(fe_sub, 14);
    reveal_with_fuel(crate::query::fe_alt, 14);
    reveal_strlit("Misc Literature");
    reveal_strlit("Literature");
    reveal_strlit("History");
    reveal_strlit("Science");
    reveal_strlit("Fine Arts");
    reveal_strlit("Religion");
    reveal_strlit("Mythology");
    reveal_strlit("Philosophy");
    reveal_strlit("Social Science");
    reveal_strlit("Current Events");
    reveal_strlit("Geography");
    reveal_strlit("Other Academic");
    reveal_strlit("Pop Culture");
    reveal_strlit("American Literature");
    reveal_strlit("British Literature");
    reveal_strlit("Classical Literature");
    reveal_strlit("European Literature");
    reveal_strlit("World Literature");
    reveal_strlit("Other Literature");
    reveal_strlit("American History");
    reveal_strlit("Ancient History");
    reveal_strlit("European History");
    reveal_strlit("World History");
    reveal_strlit("Other History");
    reveal_strlit("Biology");
    reveal_strlit("Chemistry");
    reveal_strlit("Physics");
    reveal_strlit("Other Science");
    reveal_strlit("Visual Fine Arts");
    reveal_strlit("Auditory Fine Arts");
    reveal_strlit("Other Fine Arts");
    reveal_strlit("Other Social Science");
    reveal_strlit("Movies");
    reveal_strlit("Music");
    reveal_strlit("Sports");
    reveal_strlit("Television");
    reveal_strlit("Video Games");
    reveal_strlit("Other Pop Culture");
    reveal_strlit("Drama");
    reveal_strlit("Long Fiction");
    reveal_strlit("Poetry");
    reveal_strlit("Short Fiction");
    lemma_lower_ne("Misc Literature"@, "Literature"@, 0);
    lemma_lower_ne("Misc Literature"@, "History"@, 0);
    lemma_lower_ne("Misc Literature"@, "Science"@, 0);
    lemma_lower_ne("Misc Literature"@, "Fine Arts"@, 0);
    lemma_lower_ne("Misc Literature"@, "Religion"@, 0);
    lemma_lower_ne("Misc Literature"@, "Mythology"@, 0);
    lemma_lower_ne("Misc Literature"@, "Philosophy"@, 0);
    lemma_lower_ne("Misc Literature"@, "Social Science"@, 0);
    lemma_lower_ne("Misc Literature"@, "Current Events"@, 0);
    lemma_lower_ne("Misc Literature"@, "Geography"@, 0);
    lemma_lower_ne("Misc Literature"@, "Other Academic"@, 0);
    lemma_lower_ne("Misc Literature"@, "Pop Culture"@, 0);
    assert(fe_in(lower(spec_taxonomy()[0].alts[4]), main_names(), 0) == -1);
    lemma_lower_ne("Misc Literature"@, "American Literature"@, 0);
    lemma_lower_ne("Misc Literature"@, "British Literature"@, 0);
    lemma_lower_ne("Misc Literature"@, "Classical Literature"@, 0);
    lemma_lower_ne("Misc Literature"@, "European Literature"@, 0);
    lemma_lower_ne("Misc Literature"@, "World Literature"@, 0);
    lemma_lower_ne("Misc Literature"@, "Other Literature"@, 0);
    assert(fe_in(lower(spec_taxonomy()[0].alts[4]), spec_taxonomy()[0].subs, 0) == -1);
    lemma_lower_ne("Misc Literature"@, "American History"@, 0);
    lemma_lower_ne("Misc Literature"@, "Ancient History"@, 0);
    lemma_lower_ne("Misc Literature"@, "European History"@, 0);
    lemma_lower_ne("Misc Literature"@, "World History"@, 0);
    lemma_lower_ne("Misc Literature"@, "Other History"@, 0);
    assert(fe_in(lower(spec_taxonomy()[0].alts[4]), spec_taxonomy()[1].subs, 0) == -1);
    lemma_lower_ne("Misc Literature"@, "Biology"@, 0);
    lemma_lower_ne("Misc Literature"@, "Chemistry"@, 0);
    lemma_lower_ne("Misc Literature"@, "Physics"@, 0);
    lemma_lower_ne("Misc Literature"@, "Other Science"@, 0);
    assert(fe_in(lower(spec_taxonomy()[0].alts[4]), spec_taxonomy()[2].subs, 0) == -1);
    lemma_lower_ne("Misc Literature"@, "Visual Fine Arts"@, 0);
    lemma_lower_ne("Misc Literature"@, "Auditory Fine Arts"@, 0);
    lemma_lower_ne("Misc Literature"@, "Other Fine Arts"@, 0);
    assert(fe_in(lower(spec_taxonomy()[0].alts[4]), spec_taxonomy()[3].subs, 0) == -1);
    assert(fe_in(lower(spec_taxonomy()[0].alts[4]), spec_taxonomy()[4].subs, 0) == -1);
    assert(fe_in(lower(spec_taxonomy()[0].alts[4]), spec_taxonomy()[5].subs, 0) == -1);
    assert(fe_in(lower(spec_taxonomy()[0].alts[4]), spec_taxonomy()[6].subs, 0) == -1);
    lemma_lower_ne("Misc Literature"@, "Other Social Science"@, 0);
    assert(fe_in(lower(spec_taxonomy()[0].alts[4]), spec_taxonomy()[7].subs, 0) == -1);
    assert(fe_in(lower(spec_taxonomy()[0].alts[4]), spec_taxonomy()[8].subs, 0) == -1);
    assert(fe_in(lower(spec_taxonomy()[0].alts[4]), spec_taxonomy()[9].subs, 0) == -1);
    assert(fe_in(lower(spec_taxonomy()[0].alts[4]), spec_taxonomy()[10].subs, 0) == -1);
    lemma_lower_ne("Misc Literature"@, "Movies"@, 0);
    lemma_lower_ne("Misc Literature"@, "Music"@, 0);
    lemma_lower_ne("Misc Literature"@, "Sports"@, 0);
    lemma_lower_ne("Misc Literature"@, "Television"@, 0);
    lemma_lower_ne("Misc Literature"@, "Video Games"@, 0);
    lemma_lower_ne("Misc Literature"@, "Other Pop Culture"@, 0);
    assert(fe_in(lower(spec_taxonomy()[0].alts[4]), spec_taxonomy()[11].subs, 0) == -1);
    assert(fe_sub(lower(spec_taxonomy()[0].alts[4]), 0) == None::<(int, int)>);
    lemma_lower_ne("Misc Literature"@, "Drama"@, 0);
    lemma_lower_ne("Misc Literature"@, "Long Fiction"@, 0);
    lemma_lower_ne("Misc Literature"@, "Poetry"@, 0);
    lemma_lower_ne("Misc Literature"@, "Short Fiction"@, 0);
    assert(fe_in(lower(spec_taxonomy()[0].alts[4]), spec_taxonomy()[0].alts, 0) == 4);
    assert(crate::query::fe_alt(lower(spec_taxonomy()[0].alts[4]), 0) == Some((0int, 4int)));
}

proof fn alt_tok_math()
    ensures
        alt_resolves_exactly(2, 0),
{
    reveal_with_fuel(fe_in, 15);
    reveal_with_fuel(fe_sub, 14);
    reveal_with_fuel(crate::query::fe_alt, 14);
    reveal_strlit("Math");
    reveal_strlit("Literature");
    reveal_strlit("History");
    reveal_strlit("Science");
    reveal_strlit("Fine Arts");
    reveal_strlit("Religion");
    reveal_strlit("Mythology");
    reveal_strlit("Philosophy");
    reveal_strlit("Social Science");
    reveal_strlit("Current Events");
    reveal_strlit("Geography");
    reveal_strlit("Other Academic");
    reveal_strlit("Pop Culture");
    reveal_strlit("American Literature");
    reveal_strlit("British Literature");
    reveal_strlit("Classical Literature");
    reveal_strlit("European Literature");
    reveal_strlit("World Literature");
    reveal_strlit("Other Literature");
    reveal_strlit("American History");
    reveal_strlit("Ancient History");
    reveal_strlit("European History");
    reveal_strlit("World History");
    reveal_strlit("Other History");
    reveal_strlit("Biology");
    reveal_strlit("Chemistry");
    reveal_strlit("Physics");
    reveal_strlit("Other Science");
    reveal_strlit("Visual Fine Arts");
    reveal_strlit("Auditory Fine Arts");
    reveal_strlit("Other Fine Arts");
    reveal_strlit("Other Social Science");
    reveal_strlit("Movies");
    reveal_strlit("Music");
    reveal_strlit("Sports");
    reveal_strlit("Television");
    reveal_strlit("Video Games");
    reveal_strlit("Other Pop Culture");
    reveal_strlit("Drama");
    reveal_strlit("Long Fiction");
    reveal_strlit("Poetry");
    reveal_strlit("Short Fiction");
    reveal_strlit("Misc Literature");
    lemma_lower_ne("Math"@, "Literature"@, 0);
    lemma_lower_ne("Math"@, "History"@, 0);
    lemma_lower_ne("Math"@, "Science"@, 0);
    lemma_lower_ne("Math"@, "Fine Arts"@, 0);
    lemma_lower_ne("Math"@, "Religion"@, 0);
    lemma_lower_ne("Math"@, "Mythology"@, 0);
    lemma_lower_ne("Math"@, "Philosophy"@, 0);
    lemma_lower_ne("Math"@, "Social Science"@, 0);
    lemma_lower_ne("Math"@, "Current Events"@, 0);
    lemma_lower_ne("Math"@, "Geography"@, 0);
    lemma_lower_ne("Math"@, "Other Academic"@, 0);
    lemma_lower_ne("Math"@, "Pop Culture"@, 0);
    assert(fe_in(lower(spec_taxonomy()[2].alts[0]), main_names(), 0) == -1);
    lemma_lower_ne("Math"@, "American Literature"@, 0);
    lemma_lower_ne("Math"@, "British Literature"@, 0);
    lemma_lower_ne("Math"@, "Classical Literature"@, 0);
    lemma_lower_ne("Math"@, "European Literature"@, 0);
    lemma_lower_ne("Math"@, "World Literature"@, 0);
    lemma_lower_ne("Math"@, "Other Literature"@, 0);
    assert(fe_in(lower(spec_taxonomy()[2].alts[0]), spec_taxonomy()[0].subs, 0) == -1);
    lemma_lower_ne("Math"@, "American History"@, 0);
    lemma_lower_ne("Math"@, "Ancient History"@, 0);
    lemma_lower_ne("Math"@, "European History"@, 0);
    lemma_lower_ne("Math"@, "World History"@, 0);
    lemma_lower_ne("Math"@, "Other History"@, 0);
    assert(fe_in(lower(spec_taxonomy()[2].alts[0]), spec_taxonomy()[1].subs, 0) == -1);
    lemma_lower_ne("Math"@, "Biology"@, 0);
    lemma_lower_ne("Math"@, "Chemistry"@, 0);
    lemma_lower_ne("Math"@, "Physics"@, 0);
    lemma_lower_ne("Math"@, "Other Science"@, 0);
    assert(fe_in(lower(spec_taxonomy()[2].alts[0]), spec_taxonomy()[2].subs, 0) == -1);
    lemma_lower_ne("Math"@, "Visual Fine Arts"@, 0);
    lemma_lower_ne("Math"@, "Auditory Fine Arts"@, 0);
    lemma_lower_ne("Math"@, "Other Fine Arts"@, 0);
    assert(fe_in(lower(spec_taxonomy()[2].alts[0]), spec_taxonomy()[3].subs, 0) == -1);
    assert(fe_in(lower(spec_taxonomy()[2].alts[0]), spec_taxonomy()[4].subs, 0) == -1);
    assert(fe_in(lower(spec_taxonomy()[2].alts[0]), spec_taxonomy()[5].subs, 0) == -1);
    assert(fe_in(lower(spec_taxonomy()[2].alts[0]), spec_taxonomy()[6].subs, 0) == -1);
    lemma_lower_ne("Math"@, "Other Social Science"@, 0);
    assert(fe_in(lower(spec_taxonomy()[2].alts[0]), spec_taxonomy()[7].subs, 0) == -1);
    assert(fe_in(lower(spec_taxonomy()[2].alts[0]), spec_taxonomy()[8].subs, 0) == -1);
    assert(fe_in(lower(spec_taxonomy()[2].alts[0]), spec_taxonomy()[9].subs, 0) == -1);
    assert(fe_in(lower(spec_taxonomy()[2].alts[0]), spec_taxonomy()[10].subs, 0) == -1);
    lemma_lower_ne("Math"@, "Movies"@, 0);
    lemma_lower_ne("Math"@, "Music"@, 0);
    lemma_lower_ne("Math"@, "Sports"@, 0);
    lemma_lower_ne("Math"@, "Television"@, 0);
    lemma_lower_ne("Math"@, "Video Games"@, 0);
    lemma_lower_ne("Math"@, "Other Pop Culture"@, 0);
    assert(fe_in(lower(spec_taxonomy()[2].alts[0]), spec_taxonomy()[11].subs, 0) == -1);
    assert(fe_sub(lower(spec_taxonomy()[2].alts[0]), 0) == None::<(int, int)>);
    lemma_lower_ne("Math"@, "Drama"@, 0);
    lemma_lower_ne("Math"@, "Long Fiction"@, 0);
    lemma_lower_ne("Math"@, "Poetry"@, 0);
    lemma_lower_ne("Math"@, "Short Fiction"@, 0);
    lemma_lower_ne("Math"@, "Misc Literature"@, 0);
    assert(fe_in(lower(spec_taxonomy()[2].alts[0]), spec_taxonomy()[0].alts, 0) == -1);
    assert(fe_in(lower(spec_taxonomy()[2].alts[0]), spec_taxonomy()[1].alts, 0) == -1);
    assert(fe_in(lower(spec_taxonomy()[2].alts[0]), spec_taxonomy()[2].alts, 0) == 0);
    assert(crate::query::fe_alt(lower(spec_taxonomy()[2].alts[0]), 0) == Some((2int, 0int)));
}

proof fn alt_tok_astronomy()
    ensures
        alt_resolves_exactly(2, 1),
{
    reveal_with_fuel(fe_in, 15);
    reveal_with_fuel(fe_sub, 14);
    reveal_with_fuel(crate::query::fe_alt, 14);
    reveal_strlit("Astronomy");
    reveal_strlit("Literature");
    reveal_strlit("History");
    reveal_strlit("Science");
    reveal_strlit("Fine Arts");
    reveal_strlit("Religion");
    reveal_strlit("Mythology");
    reveal_strlit("Philosophy");
    reveal_strlit("Social Science");
    reveal_strlit("Current Events");
    reveal_strlit("Geography");
    reveal_strlit("Other Academic");
    reveal_strlit("Pop Culture");
    reveal_strlit("American Literature");
    reveal_strlit("British Literature");
    reveal_strlit("Classical Literature");
    reveal_strlit("European Literature");
    reveal_strlit("World Literature");
    reveal_strlit("Other Literature");
    reveal_strlit("American History");
    reveal_strlit("Ancient History");
    reveal_strlit("European History");
    reveal_strlit("World History");
    reveal_strlit("Other History");
    reveal_strlit("Biology");
    reveal_strlit("Chemistry");
    reveal_strlit("Physics");
    reveal_strlit("Other Science");
    reveal_strlit("Visual Fine Arts");
    reveal_strlit("Auditory Fine Arts");
    reveal_strlit("Other Fine Arts");
    reveal_strlit("Other Social Science");
    reveal_strlit("Movies");
    reveal_strlit("Music");
    reveal_strlit("Sports");
    reveal_strlit("Television");
    reveal_strlit("Video Games");
    reveal_strlit("Other Pop Culture");
    reveal_strlit("Drama");
    reveal_strlit("Long Fiction");
    reveal_strlit("Poetry");
    reveal_strlit("Short Fiction");
    reveal_strlit("Misc Literature");
    reveal_strlit("Math");
    lemma_lower_ne("Astronomy"@, "Literature"@, 0);
    lemma_lower_ne("Astronomy"@, "History"@, 0);
    lemma_lower_ne("Astronomy"@, "Science"@, 0);
    lemma_lower_ne("Astronomy"@, "Fine Arts"@, 0);
    lemma_lower_ne("Astronomy"@, "Religion"@, 0);
    lemma_lower_ne("Astronomy"@, "Mythology"@, 0);
    lemma_lower_ne("Astronomy"@, "Philosophy"@, 0);
    lemma_lower_ne("Astronomy"@, "Social Science"@, 0);
    lemma_lower_ne("Astronomy"@, "Current Events"@, 0);
    lemma_lower_ne("Astronomy"@, "Geography"@, 0);
    lemma_lower_ne("Astronomy"@, "Other Academic"@, 0);
    lemma_lower_ne("Astronomy"@, "Pop Culture"@, 0);
    assert(fe_in(lower(spec_taxonomy()[2].alts[1]), main_names(), 0) == -1);
    lemma_lower_ne("Astronomy"@, "American Literature"@, 0);
    lemma_lower_ne("Astronomy"@, "British Literature"@, 0);
    lemma_lower_ne("Astronomy"@, "Classical Literature"@, 0);
    lemma_lower_ne("Astronomy"@, "European Literature"@, 0);
    lemma_lower_ne("Astronomy"@, "World Literature"@, 0);
    lemma_lower_ne("Astronomy"@, "Other Literature"@, 0);
    assert(fe_in(lower(spec_taxonomy()[2].alts[1]), spec_taxonomy()[0].subs, 0) == -1);
    lemma_lower_ne("Astronomy"@, "American History"@, 0);
    lemma_lower_ne("Astronomy"@, "Ancient History"@, 0);
    lemma_lower_ne("Astronomy"@, "European History"@, 0);
    lemma_lower_ne("Astronomy"@, "World History"@, 0);
    lemma_lower_ne("Astronomy"@, "Other History"@, 0);
    assert(fe_in(lower(spec_taxonomy()[2].alts[1]), spec_taxonomy()[1].subs, 0) == -1);
    lemma_lower_ne("Astronomy"@, "Biology"@, 0);
    lemma_lower_ne("Astronomy"@, "Chemistry"@, 0);
    lemma_lower_ne("Astronomy"@, "Physics"@, 0);
    lemma_lower_ne("Astronomy"@, "Other Science"@, 0);
    assert(fe_in(lower(spec_taxonomy()[2].alts[1]), spec_taxonomy()[2].subs, 0) == -1);
    lemma_lower_ne("Astronomy"@, "Visual Fine Arts"@, 0);
    lemma_lower_ne("Astronomy"@, "Auditory Fine Arts"@, 0);
    lemma_lower_ne("Astronomy"@, "Other Fine Arts"@, 0);
    assert(fe_in(lower(spec_taxonomy()[2].alts[1]), spec_taxonomy()[3].subs, 0) == -1);
    assert(fe_in(lower(spec_taxonomy()[2].alts[1]), spec_taxonomy()[4].subs, 0) == -1);
    assert(fe_in(lower(spec_taxonomy()[2].alts[1]), spec_taxonomy()[5].subs, 0) == -1);
    assert(fe_in(lower(spec_taxonomy()[2].alts[1]), spec_taxonomy()[6].subs, 0) == -1);
    lemma_lower_ne("Astronomy"@, "Other Social Science"@, 0);
    assert(fe_in(lower(spec_taxonomy()[2].alts[1]), spec_taxonomy()[7].subs, 0) == -1);
    assert(fe_in(lower(spec_taxonomy()[2].alts[1]), spec_taxonomy()[8].subs, 0) == -1);
    assert(fe_in(lower(spec_taxonomy()[2].alts[1]), spec_taxonomy()[9].subs, 0) == -1);
    assert(fe_in(lower(spec_taxonomy()[2].alts[1]), spec_taxonomy()[10].subs, 0) == -1);
    lemma_lower_ne("Astronomy"@, "Movies"@, 0);
    lemma_lower_ne("Astronomy"@, "Music"@, 0);
    lemma_lower_ne("Astronomy"@, "Sports"@, 0);
    lemma_lower_ne("Astronomy"@, "Television"@, 0);
    lemma_lower_ne("Astronomy"@, "Video Games"@, 0);
    lemma_lower_ne("Astronomy"@, "Other Pop Culture"@, 0);
    assert(fe_in(lower(spec_taxonomy()[2].alts[1]), spec_taxonomy()[11].subs, 0) == -1);
    assert(fe_sub(lower(spec_taxonomy()[2].alts[1]), 0) == None::<(int, int)>);
    lemma_lower_ne("Astronomy"@, "Drama"@, 0);
    lemma_lower_ne("Astronomy"@, "Long Fiction"@, 0);
    lemma_lower_ne("Astronomy"@, "Poetry"@, 0);
    lemma_lower_ne("Astronomy"@, "Short Fiction"@, 0);
    lemma_lower_ne("Astronomy"@, "Misc Literature"@, 0);
    assert(fe_in(lower(spec_taxonomy()[2].alts[1]), spec_taxonomy()[0].alts, 0) == -1);
    assert(fe_in(lower(spec_taxonomy()[2].alts[1]), spec_taxonomy()[1].alts, 0) == -1);
    lemma_lower_ne("Astronomy"@, "Math"@, 0);
    assert(fe_in(lower(spec_taxonomy()[2].alts[1]), spec_taxonomy()[2].alts, 0) == 1);
    assert(crate::query::fe_alt(lower(spec_taxonomy()[2].alts[1]), 0) == Some((2int, 1int)));
}

proof fn alt_tok_computer_science()
    ensures
        alt_resolves_exactly(2, 2),
{
    reveal_with_fuel(fe_in, 15);
    reveal_with_fuel(fe_sub, 14);
    reveal_with_fuel(crate::query::fe_alt, 14);
    reveal_strlit("Computer Science");
    reveal_strlit("Literature");
    reveal_strlit("History");
    reveal_strlit("Science");
    reveal_strlit("Fine Arts");
    reveal_strlit("Religion");
    reveal_strlit("Mythology");
    reveal_strlit("Philosophy");
    reveal_strlit("Social Science");
    reveal_strlit("Current Events");
    reveal_strlit("Geography");
    reveal_strlit("Other Academic");
    reveal_strlit("Pop Culture");
    reveal_strlit("American Literature");
    reveal_strlit("British Literature");
    reveal_strlit("Classical Literature");
    reveal_strlit("European Literature");
    reveal_strlit("World Literature");
    reveal_strlit("Other Literature");
    reveal_strlit("American History");
    reveal_strlit("Ancient History");
    reveal_strlit("European History");
    reveal_strlit("World History");
    reveal_strlit("Other History");
    reveal_strlit("Biology");
    reveal_strlit("Chemistry");
    reveal_strlit("Physics");
    reveal_strlit("Other Science");
    reveal_strlit("Visual Fine Arts");
    reveal_strlit("Auditory Fine Arts");
    reveal_strlit("Other Fine Arts");
    reveal_strlit("Other Social Science");
    reveal_strlit("Movies");
    reveal_strlit("Music");
    reveal_strlit("Sports");
    reveal_strlit("Television");
    reveal_strlit("Video Games");
    reveal_strlit("Other Pop Culture");
    reveal_strlit("Drama");
    reveal_strlit("Long Fiction");
    reveal_strlit("Poetry");
    reveal_strlit("Short Fiction");
    reveal_strlit("Misc Literature");
    reveal_strlit("Math");
    reveal_strlit("Astronomy");
    lemma_lower_ne("Computer Science"@, "Literature"@, 0);
    lemma_lower_ne("Computer Science"@, "History"@, 0);
    lemma_lower_ne("Computer Science"@, "Science"@, 0);
    lemma_lower_ne("Computer Science"@, "Fine Arts"@, 0);
    lemma_lower_ne("Computer Science"@, "Religion"@, 0);
    lemma_lower_ne("Computer Science"@, "Mythology"@, 0);
    lemma_lower_ne("Computer Science"@, "Philosophy"@, 0);
    lemma_lower_ne("Computer Science"@, "Social Science"@, 0);
    lemma_lower_ne("Computer Science"@, "Current Events"@, 0);
    lemma_lower_ne("Computer Science"@, "Geography"@, 0);
    lemma_lower_ne("Computer Science"@, "Other Academic"@, 0);
    lemma_lower_ne("Computer Science"@, "Pop Culture"@, 0);
    assert(fe_in(lower(spec_taxonomy()[2].alts[2]), main_names(), 0) == -1);
    lemma_lower_ne("Computer Science"@, "American Literature"@, 0);
    lemma_lower_ne("Computer Science"@, "British Literature"@, 0);
    lemma_lower_ne("Computer Science"@, "Classical Literature"@, 0);
    lemma_lower_ne("Computer Science"@, "European Literature"@, 0);
    lemma_lower_ne("Computer Science"@, "World Literature"@, 0);
    lemma_lower_ne("Computer Science"@, "Other Literature"@, 0);
    assert(fe_in(lower(spec_taxonomy()[2].alts[2]), spec_taxonomy()[0].subs, 0) == -1);
    lemma_lower_ne("Computer Science"@, "American History"@, 0);
    lemma_lower_ne("Computer Science"@, "Ancient History"@, 0);
    lemma_lower_ne("Computer Science"@, "European History"@, 0);
    lemma_lower_ne("Computer Science"@, "World History"@, 0);
    lemma_lower_ne("Computer Science"@, "Other History"@, 0);
    assert(fe_in(lower(spec_taxonomy()[2].alts[2]), spec_taxonomy()[1].subs, 0) == -1);
    lemma_lower_ne("Computer Science"@, "Biology"@, 0);
    lemma_lower_ne("Computer Science"@, "Chemistry"@, 0);
    lemma_lower_ne("Computer Science"@, "Physics"@, 0);
    lemma_lower_ne("Computer Science"@, "Other Science"@, 0);
    assert(fe_in(lower(spec_taxonomy()[2].alts[2]), spec_taxonomy()[2].subs, 0) == -1);
    lemma_lower_ne("Computer Science"@, "Visual Fine Arts"@, 0);
    lemma_lower_ne("Computer Science"@, "Auditory Fine Arts"@, 0);
    lemma_lower_ne("Computer Science"@, "Other Fine Arts"@, 0);
    assert(fe_in(lower(spec_taxonomy()[2].alts[2]), spec_taxonomy()[3].subs, 0) == -1);
    assert(fe_in(lower(spec_taxonomy()[2].alts[2]), spec_taxonomy()[4].subs, 0) == -1);
    assert(fe_in(lower(spec_taxonomy()[2].alts[2]), spec_taxonomy()[5].subs, 0) == -1);
    assert(fe_in(lower(spec_taxonomy()[2].alts[2]), spec_taxonomy()[6].subs, 0) == -1);
    lemma_lower_ne("Computer Science"@, "Other Social Science"@, 0);
    assert(fe_in(lower(spec_taxonomy()[2].alts[2]), spec_taxonomy()[7].subs, 0) == -1);
    assert(fe_in(lower(spec_taxonomy()[2].alts[2]), spec_taxonomy()[8].subs, 0) == -1);
    assert(fe_in(lower(spec_taxonomy()[2].alts[2]), spec_taxonomy()[9].subs, 0) == -1);
    assert(fe_in(lower(spec_taxonomy()[2].alts[2]), spec_taxonomy()[10].subs, 0) == -1);
    lemma_lower_ne("Computer Science"@, "Movies"@, 0);
    lemma_lower_ne("Computer Science"@, "Music"@, 0);
    lemma_lower_ne("Computer Science"@, "Sports"@, 0);
    lemma_lower_ne("Computer Science"@, "Television"@, 0);
    lemma_lower_ne("Computer Science"@, "Video Games"@, 0);
    lemma_lower_ne("Computer Science"@, "Other Pop Culture"@, 0);
    assert(fe_in(lower(spec_taxonomy()[2].alts[2]), spec_taxonomy()[11].subs, 0) == -1);
    assert(fe_sub(lower(spec_taxonomy()[2].alts[2]), 0) == None::<(int, int)>);
    lemma_lower_ne("Computer Science"@, "Drama"@, 0);
    lemma_lower_ne("Computer Science"@, "Long Fiction"@, 0);
    lemma_lower_ne("Computer Science"@, "Poetry"@, 0);
    lemma_lower_ne("Computer Science"@, "Short Fiction"@, 0);
    lemma_lower_ne("Computer Science"@, "Misc Literature"@, 0);
    assert(fe_in(lower(spec_taxonomy()[2].alts[2]), spec_taxonomy()[0].alts, 0) == -1);
    assert(fe_in(lower(spec_taxonomy()[2].alts[2]), spec_taxonomy()[1].alts, 0) == -1);
    lemma_lower_ne("Computer Science"@, "Math"@, 0);
    lemma_lower_ne("Computer Science"@, "Astronomy"@, 0);
    assert(fe_in(lower(spec_taxonomy()[2].alts[2]), spec_taxonomy()[2].alts, 0) == 2);
    assert(crate::query::fe_alt(lower(spec_taxonomy()[2].alts[2]), 0) == Some((2int, 2int)));
}

proof fn alt_tok_earth_science()
    ensures
        alt_resolves_exactly(2, 3),
{
    reveal_with_fuel(fe_in, 15);
    reveal_with_fuel(fe_sub, 14);
    reveal_with_fuel(crate::query::fe_alt, 14);
    reveal_strlit("Earth Science");
    reveal_strlit("Literature");
    reveal_strlit("History");
    reveal_strlit("Science");
    reveal_strlit("Fine Arts");
    reveal_strlit("Religion");
    reveal_strlit("Mythology");
    reveal_strlit("Philosophy");
    reveal_strlit("Social Science");
    reveal_strlit("Current Events");
    reveal_strlit("Geography");
    reveal_strlit("Other Academic");
    reveal_strlit("Pop Culture");
    reveal_strlit("American Literature");
    reveal_strlit("British Literature");
    reveal_strlit("Classical Literature");
    reveal_strlit("European Literature");
    reveal_strlit("World Literature");
    reveal_strlit("Other Literature");
    reveal_strlit("American History");
    reveal_strlit("Ancient History");
    reveal_strlit("European History");
    reveal_strlit("World History");
    reveal_strlit("Other History");
    reveal_strlit("Biology");
    reveal_strlit("Chemistry");
    reveal_strlit("Physics");
    reveal_strlit("Other Science");
    reveal_strlit("Visual Fine Arts");
    reveal_strlit("Auditory Fine Arts");
    reveal_strlit("Other Fine Arts");
    reveal_strlit("Other Social Science");
    reveal_strlit("Movies");
    reveal_strlit("Music");
    reveal_strlit("Sports");
    reveal_strlit("Television");
    reveal_strlit("Video Games");
    reveal_strlit("Other Pop Culture");
    reveal_strlit("Drama");
    reveal_strlit("Long Fiction");
    reveal_strlit("Poetry");
    reveal_strlit("Short Fiction");
    reveal_strlit("Misc Literature");
    reveal_strlit("Math");
    reveal_strlit("Astronomy");
    reveal_strlit("Computer Science");
    lemma_lower_ne("Earth Science"@, "Literature"@, 0);
    lemma_lower_ne("Earth Science"@, "History"@, 0);
    lemma_lower_ne("Earth Science"@, "Science"@, 0);
    lemma_lower_ne("Earth Science"@, "Fine Arts"@, 0);
    lemma_lower_ne("Earth Science"@, "Religion"@, 0);
    lemma_lower_ne("Earth Science"@, "Mythology"@, 0);
    lemma_lower_ne("Earth Science"@, "Philosophy"@, 0);
    lemma_lower_ne("Earth Science"@, "Social Science"@, 0);
    lemma_lower_ne("Earth Science"@, "Current Events"@, 0);
    lemma_lower_ne("Earth Science"@, "Geography"@, 0);
    lemma_lower_ne("Earth Science"@, "Other Academic"@, 0);
    lemma_lower_ne("Earth Science"@, "Pop Culture"@, 0);
    assert(fe_in(lower(spec_taxonomy()[2].alts[3]), main_names(), 0) == -1);
    lemma_lower_ne("Earth Science"@, "American Literature"@, 0);
    lemma_lower_ne("Earth Science"@, "British Literature"@, 0);
    lemma_lower_ne("Earth Science"@, "Classical Literature"@, 0);
    lemma_lower_ne("Earth Science"@, "European Literature"@, 0);
    lemma_lower_ne("Earth Science"@, "World Literature"@, 0);
    lemma_lower_ne("Earth Science"@, "Other Literature"@, 0);
    assert(fe_in(lower(spec_taxonomy()[2].alts[3]), spec_taxonomy()[0].subs, 0) == -1);
    lemma_lower_ne("Earth Science"@, "American History"@, 0);
    lemma_lower_ne("Earth Science"@, "Ancient History"@, 0);
    lemma_lower_ne("Earth Science"@, "European History"@, 0);
    lemma_lower_ne("Earth Science"@, "World History"@, 0);
    lemma_lower_ne("Earth Science"@, "Other History"@, 0);
    assert(fe_in(lower(spec_taxonomy()[2].alts[3]), spec_taxonomy()[1].subs, 0) == -1);
    lemma_lower_ne("Earth Science"@, "Biology"@, 0);
    lemma_lower_ne("Earth Science"@, "Chemistry"@, 0);
    lemma_lower_ne("Earth Science"@, "Physics"@, 0);
    lemma_lower_ne("Earth Science"@, "Other Science"@, 0);
    assert(fe_in(lower(spec_taxonomy()[2].alts[3]), spec_taxonomy()[2].subs, 0) == -1);
    lemma_lower_ne("Earth Science"@, "Visual Fine Arts"@, 0);
    lemma_lower_ne("Earth Science"@, "Auditory Fine Arts"@, 0);
    lemma_lower_ne("Earth Science"@, "Other Fine Arts"@, 0);
    assert(fe_in(lower(spec_taxonomy()[2].alts[3]), spec_taxonomy()[3].subs, 0) == -1);
    assert(fe_in(lower(spec_taxonomy()[2].alts[3]), spec_taxonomy()[4].subs, 0) == -1);
    assert(fe_in(lower(spec_taxonomy()[2].alts[3]), spec_taxonomy()[5].subs, 0) == -1);
    assert(fe_in(lower(spec_taxonomy()[2].alts[3]), spec_taxonomy()[6].subs, 0) == -1);
    lemma_lower_ne("Earth Science"@, "Other Social Science"@, 0);
    assert(fe_in(lower(spec_taxonomy()[2].alts[3]), spec_taxonomy()[7].subs, 0) == -1);
    assert(fe_in(lower(spec_taxonomy()[2].alts[3]), spec_taxonomy()[8].subs, 0) == -1);
    assert(fe_in(lower(spec_taxonomy()[2].alts[3]), spec_taxonomy()[9].subs, 0) == -1);
    assert(fe_in(lower(spec_taxonomy()[2].alts[3]), spec_taxonomy()[10].subs, 0) == -1);
    lemma_lower_ne("Earth Science"@, "Movies"@, 0);
    lemma_lower_ne("Earth Science"@, "Music"@, 0);
    lemma_lower_ne("Earth Science"@, "Sports"@, 0);
    lemma_lower_ne("Earth Science"@, "Television"@, 0);
    lemma_lower_ne("Earth Science"@, "Video Games"@, 0);
    lemma_lower_ne("Earth Science"@, "Other Pop Culture"@, 0);
    assert(fe_in(lower(spec_taxonomy()[2].alts[3]), spec_taxonomy()[11].subs, 0) == -1);
    assert(fe_sub(lower(spec_taxonomy()[2].alts[3]), 0) == None::<(int, int)>);
    lemma_lower_ne("Earth Science"@, "Drama"@, 0);
    lemma_lower_ne("Earth Science"@, "Long Fiction"@, 0);
    lemma_lower_ne("Earth Science"@, "Poetry"@, 0);
    lemma_lower_ne("Earth Science"@, "Short Fiction"@, 0);
    lemma_lower_ne("Earth Science"@, "Misc Literature"@, 0);
    assert(fe_in(lower(spec_taxonomy()[2].alts[3]), spec_taxonomy()[0].alts, 0) == -1);
    assert(fe_in(lower(spec_taxonomy()[2].alts[3]), spec_taxonomy()[1].alts, 0) == -1);
    lemma_lower_ne("Earth Science"@, "Math"@, 0);
    lemma_lower_ne("Earth Science"@, "Astronomy"@, 0);
    lemma_lower_ne("Earth Science"@, "Computer Science"@, 0);
    assert(fe_in(lower(spec_taxonomy()[2].alts[3]), spec_taxonomy()[2].alts, 0) == 3);
    assert(crate::query::fe_alt(lower(spec_taxonomy()[2].alts[3]), 0) == Some((2int, 3int)));
}

proof fn alt_tok_engineering()
    ensures
        alt_resolves_exactly(2, 4),
{
    reveal_with_fuel(fe_in, 15);
    reveal_with_fuel(fe_sub, 14);
    reveal_with_fuel(crate::query::fe_alt, 14);
    reveal_strlit("Engineering");
    reveal_strlit("Literature");
    reveal_strlit("History");
    reveal_strlit("Science");
    reveal_strlit("Fine Arts");
    reveal_strlit("Religion");
    reveal_strlit("Mythology");
    reveal_strlit("Philosophy");
    reveal_strlit("Social Science");
    reveal_strlit("Current Events");
    reveal_strlit("Geography");
    reveal_strlit("Other Academic");
    reveal_strlit("Pop Culture");
    reveal_strlit("American Literature");
    reveal_strlit("British Literature");
    reveal_strlit("Classical Literature");
    reveal_strlit("European Literature");
    reveal_strlit("World Literature");
    reveal_strlit("Other Literature");
    reveal_strlit("American History");
    reveal_strlit("Ancient History");
    reveal_strlit("European History");
    reveal_strlit("World History");
    reveal_strlit("Other History");
    reveal_strlit("Biology");
    reveal_strlit("Chemistry");
    reveal_strlit("Physics");
    reveal_strlit("Other Science");
    reveal_strlit("Visual Fine Arts");
    reveal_strlit("Auditory Fine Arts");
    reveal_strlit("Other Fine Arts");
    reveal_strlit("Other Social Science");
    reveal_strlit("Movies");
    reveal_strlit("Music");
    reveal_strlit("Sports");
    reveal_strlit("Television");
    reveal_strlit("Video Games");
    reveal_strlit("Other Pop Culture");
    reveal_strlit("Drama");
    reveal_strlit("Long Fiction");
    reveal_strlit("Poetry");
    reveal_strlit("Short Fiction");
    reveal_strlit("Misc Literature");
    reveal_strlit("Math");
    reveal_strlit("Astronomy");
    reveal_strlit("Computer Science");
    reveal_strlit("Earth Science");
    lemma_lower_ne("Engineering"@, "Literature"@, 0);
    lemma_lower_ne("Engineering"@, "History"@, 0);
    lemma_lower_ne("Engineering"@, "Science"@, 0);
    lemma_lower_ne("Engineering"@, "Fine Arts"@, 0);
    lemma_lower_ne("Engineering"@, "Religion"@, 0);
    lemma_lower_ne("Engineering"@, "Mythology"@, 0);
    lemma_lower_ne("Engineering"@, "Philosophy"@, 0);
    lemma_lower_ne("Engineering"@, "Social Science"@, 0);
    lemma_lower_ne("Engineering"@, "Current Events"@, 0);
    lemma_lower_ne("Engineering"@, "Geography"@, 0);
    lemma_lower_ne("Engineering"@, "Other Academic"@, 0);
    lemma_lower_ne("Engineering"@, "Pop Culture"@, 0);
    assert(fe_in(lower(spec_taxonomy()[2].alts[4]), main_names(), 0) == -1);
    lemma_lower_ne("Engineering"@, "American Literature"@, 0);
    lemma_lower_ne("Engineering"@, "British Literature"@, 0);
    lemma_lower_ne("Engineering"@, "Classical Literature"@, 0);
    lemma_lower_ne("Engineering"@, "European Literature"@, 0);
    lemma_lower_ne("Engineering"@, "World Literature"@, 0);
    lemma_lower_ne("Engineering"@, "Other Literature"@, 0);
    assert(fe_in(lower(spec_taxonomy()[2].alts[4]), spec_taxonomy()[0].subs, 0) == -1);
    lemma_lower_ne("Engineering"@, "American History"@, 0);
    lemma_lower_ne("Engineering"@, "Ancient History"@, 0);
    lemma_lower_ne("Engineering"@, "European History"@, 0);
    lemma_lower_ne("Engineering"@, "World History"@, 0);
    lemma_lower_ne("Engineering"@, "Other History"@, 0);
    assert(fe_in(lower(spec_taxonomy()[2].alts[4]), spec_taxonomy()[1].subs, 0) == -1);
    lemma_lower_ne("Engineering"@, "Biology"@, 0);
    lemma_lower_ne("Engineering"@, "Chemistry"@, 0);
    lemma_lower_ne("Engineering"@, "Physics"@, 0);
    lemma_lower_ne("Engineering"@, "Other Science"@, 0);
    assert(fe_in(lower(spec_taxonomy()[2].alts[4]), spec_taxonomy()[2].subs, 0) == -1);
    lemma_lower_ne("Engineering"@, "Visual Fine Arts"@, 0);
    lemma_lower_ne("Engineering"@, "Auditory Fine Arts"@, 0);
    lemma_lower_ne("Engineering"@, "Other Fine Arts"@, 0);
    assert(fe_in(lower(spec_taxonomy()[2].alts[4]), spec_taxonomy()[3].subs, 0) == -1);
    assert(fe_in(lower(spec_taxonomy()[2].alts[4]), spec_taxonomy()[4].subs, 0) == -1);
    assert(fe_in(lower(spec_taxonomy()[2].alts[4]), spec_taxonomy()[5].subs, 0) == -1);
    assert(fe_in(lower(spec_taxonomy()[2].alts[4]), spec_taxonomy()[6].subs, 0) == -1);
    lemma_lower_ne("Engineering"@, "Other Social Science"@, 0);
    assert(fe_in(lower(spec_taxonomy()[2].alts[4]), spec_taxonomy()[7].subs, 0) == -1);
    assert(fe_in(lower(spec_taxonomy()[2].alts[4]), spec_taxonomy()[8].subs, 0) == -1);
    assert(fe_in(lower(spec_taxonomy()[2].alts[4]), spec_taxonomy()[9].subs, 0) == -1);
    assert(fe_in(lower(spec_taxonomy()[2].alts[4]), spec_taxonomy()[10].subs, 0) == -1);
    lemma_lower_ne("Engineering"@, "Movies"@, 0);
    lemma_lower_ne("Engineering"@, "Music"@, 0);
    lemma_lower_ne("Engineering"@, "Sports"@, 0);
    lemma_lower_ne("Engineering"@, "Television"@, 0);
    lemma_lower_ne("Engineering"@, "Video Games"@, 0);
    lemma_lower_ne("Engineering"@, "Other Pop Culture"@, 0);
    assert(fe_in(lower(spec_taxonomy()[2].alts[4]), spec_taxonomy()[11].subs, 0) == -1);
    assert(fe_sub(lower(spec_taxonomy()[2].alts[4]), 0) == None::<(int, int)>);
    lemma_lower_ne("Engineering"@, "Drama"@, 0);
    lemma_lower_ne("Engineering"@, "Long Fiction"@, 0);
    lemma_lower_ne("Engineering"@, "Poetry"@, 0);
    lemma_lower_ne("Engineering"@, "Short Fiction"@, 0);
    lemma_lower_ne("Engineering"@, "Misc Literature"@, 0);
    assert(fe_in(lower(spec_taxonomy()[2].alts[4]), spec_taxonomy()[0].alts, 0) == -1);
    assert(fe_in(lower(spec_taxonomy()[2].alts[4]), spec_taxonomy()[1].alts, 0) == -1);
    lemma_lower_ne("Engineering"@, "Math"@, 0);
    lemma_lower_ne("Engineering"@, "Astronomy"@, 0);
    lemma_lower_ne("Engineering"@, "Computer Science"@, 0);
    lemma_lower_ne("Engineering"@, "Earth Science"@, 0);
    assert(fe_in(lower(spec_taxonomy()[2].alts[4]), spec_taxonomy()[2].alts, 0) == 4);
    assert(crate::query::fe_alt(lower(spec_taxonomy()[2].alts[4]), 0) == Some((2int, 4int)));
}

proof fn alt_tok_misc_science()
    ensures
        alt_resolves_exactly(2, 5),
{
    reveal_with_fuel(fe_in, 15);
    reveal_with_fuel(fe_sub, 14);
    reveal_with_fuel(crate::query::fe_alt, 14);
    reveal_strlit("Misc Science");
    reveal_strlit("Literature");
    reveal_strlit("History");
    reveal_strlit("Science");
    reveal_strlit("Fine Arts");
    reveal_strlit("Religion");
    reveal_strlit("Mythology");
    reveal_strlit("Philosophy");
    reveal_strlit("Social Science");
    reveal_strlit("Current Events");
    reveal_strlit("Geography");
    reveal_strlit("Other Academic");
    reveal_strlit("Pop Culture");
    reveal_strlit("American Literature");
    reveal_strlit("British Literature");
    reveal_strlit("Classical Literature");
    reveal_strlit("European Literature");
    reveal_strlit("World Literature");
    reveal_strlit("Other Literature");
    reveal_strlit("American History");
    reveal_strlit("Ancient History");
    reveal_strlit("European History");
    reveal_strlit("World History");
    reveal_strlit("Other History");
    reveal_strlit("Biology");
    reveal_strlit("Chemistry");
    reveal_strlit("Physics");
    reveal_strlit("Other Science");
    reveal_strlit("Visual Fine Arts");
    reveal_strlit("Auditory Fine Arts");
    reveal_strlit("Other Fine Arts");
    reveal_strlit("Other Social Science");
    reveal_strlit("Movies");
    reveal_strlit("Music");
    reveal_strlit("Sports");
    reveal_strlit("Television");
    reveal_strlit("Video Games");
    reveal_strlit("Other Pop Culture");
    reveal_strlit("Drama");
    reveal_strlit("Long Fiction");
    reveal_strlit("Poetry");
    reveal_strlit("Short Fiction");
    reveal_strlit("Misc Literature");
    reveal_strlit("Math");
    reveal_strlit("Astronomy");
    reveal_strlit("Computer Science");
    reveal_strlit("Earth Science");
    reveal_strlit("Engineering");
    lemma_lower_ne("Misc Science"@, "Literature"@, 0);
    lemma_lower_ne("Misc Science"@, "History"@, 0);
    lemma_lower_ne("Misc Science"@, "Science"@, 0);
    lemma_lower_ne("Misc Science"@, "Fine Arts"@, 0);
    lemma_lower_ne("Misc Science"@, "Religion"@, 0);
    lemma_lower_ne("Misc Science"@, "Mythology"@, 0);
    lemma_lower_ne("Misc Science"@, "Philosophy"@, 0);
    lemma_lower_ne("Misc Science"@, "Social Science"@, 0);
    lemma_lower_ne("Misc Science"@, "Current Events"@, 0);
    lemma_lower_ne("Misc Science"@, "Geography"@, 0);
    lemma_lower_ne("Misc Science"@, "Other Academic"@, 0);
    lemma_lower_ne("Misc Science"@, "Pop Culture"@, 0);
    assert(fe_in(lower(spec_taxonomy()[2].alts[5]), main_names(), 0) == -1);
    lemma_lower_ne("Misc Science"@, "American Literature"@, 0);
    lemma_lower_ne("Misc Science"@, "British Literature"@, 0);
    lemma_lower_ne("Misc Science"@, "Classical Literature"@, 0);
    lemma_lower_ne("Misc Science"@, "European Literature"@, 0);
    lemma_lower_ne("Misc Science"@, "World Literature"@, 0);
    lemma_lower_ne("Misc Science"@, "Other Literature"@, 0);
    assert(fe_in(lower(spec_taxonomy()[2].alts[5]), spec_taxonomy()[0].subs, 0) == -1);
    lemma_lower_ne("Misc Science"@, "American History"@, 0);
    lemma_lower_ne("Misc Science"@, "Ancient History"@, 0);
    lemma_lower_ne("Misc Science"@, "European History"@, 0);
    lemma_lower_ne("Misc Science"@, "World History"@, 0);
    lemma_lower_ne("Misc Science"@, "Other History"@, 0);
    assert(fe_in(lower(spec_taxonomy()[2].alts[5]), spec_taxonomy()[1].subs, 0) == -1);
    lemma_lower_ne("Misc Science"@, "Biology"@, 0);
    lemma_lower_ne("Misc Science"@, "Chemistry"@, 0);
    lemma_lower_ne("Misc Science"@, "Physics"@, 0);
    lemma_lower_ne("Misc Science"@, "Other Science"@, 0);
    assert(fe_in(lower(spec_taxonomy()[2].alts[5]), spec_taxonomy()[2].subs, 0) == -1);
    lemma_lower_ne("Misc Science"@, "Visual Fine Arts"@, 0);
    lemma_lower_ne("Misc Science"@, "Auditory Fine Arts"@, 0);
    lemma_lower_ne("Misc Science"@, "Other Fine Arts"@, 0);
    assert(fe_in(lower(spec_taxonomy()[2].alts[5]), spec_taxonomy()[3].subs, 0) == -1);
    assert(fe_in(lower(spec_taxonomy()[2].alts[5]), spec_taxonomy()[4].subs, 0) == -1);
    assert(fe_in(lower(spec_taxonomy()[2].alts[5]), spec_taxonomy()[5].subs, 0) == -1);
    assert(fe_in(lower(spec_taxonomy()[2].alts[5]), spec_taxonomy()[6].subs, 0) == -1);
    lemma_lower_ne("Misc Science"@, "Other Social Science"@, 0);
    assert(fe_in(lower(spec_taxonomy()[2].alts[5]), spec_taxonomy()[7].subs, 0) == -1);
    assert(fe_in(lower(spec_taxonomy()[2].alts[5]), spec_taxonomy()[8].subs, 0) == -1);
    assert(fe_in(lower(spec_taxonomy()[2].alts[5]), spec_taxonomy()[9].subs, 0) == -1);
    assert(fe_in(lower(spec_taxonomy()[2].alts[5]), spec_taxonomy()[10].subs, 0) == -1);
    lemma_lower_ne("Misc Science"@, "Movies"@, 0);
    lemma_lower_ne("Misc Science"@, "Music"@, 0);
    lemma_lower_ne("Misc Science"@, "Sports"@, 0);
    lemma_lower_ne("Misc Science"@, "Television"@, 0);
    lemma_lower_ne("Misc Science"@, "Video Games"@, 0);
    lemma_lower_ne("Misc Science"@, "Other Pop Culture"@, 0);
    assert(fe_in(lower(spec_taxonomy()[2].alts[5]), spec_taxonomy()[11].subs, 0) == -1);
    assert(fe_sub(lower(spec_taxonomy()[2].alts[5]), 0) == None::<(int, int)>);
    lemma_lower_ne("Misc Science"@, "Drama"@, 0);
    lemma_lower_ne("Misc Science"@, "Long Fiction"@, 0);
    lemma_lower_ne("Misc Science"@, "Poetry"@, 0);
    lemma_lower_ne("Misc Science"@, "Short Fiction"@, 0);
    lemma_lower_ne("Misc Science"@, "Misc Literature"@, 0);
    assert(fe_in(lower(spec_taxonomy()[2].alts[5]), spec_taxonomy()[0].alts, 0) == -1);
    assert(fe_in(lower(spec_taxonomy()[2].alts[5]), spec_taxonomy()[1].alts, 0) == -1);
    lemma_lower_ne("Misc Science"@, "Math"@, 0);
    lemma_lower_ne("Misc Science"@, "Astronomy"@, 0);
    lemma_lower_ne("Misc Science"@, "Computer Science"@, 0);
    lemma_lower_ne("Misc Science"@, "Earth Science"@, 0);
    lemma_lower_ne("Misc Science"@, "Engineering"@, 0);
    assert(fe_in(lower(spec_taxonomy()[2].alts[5]), spec_taxonomy()[2].alts, 0) == 5);
    assert(crate::query::fe_alt(lower(spec_taxonomy()[2].alts[5]), 0) == Some((2int, 5int)));
}

proof fn alt_tok_architecture()
    ensures
        alt_resolves_exactly(3, 0),
{
    reveal_with_fuel(fe_in, 15);
    reveal_with_fuel(fe_sub, 14);
    reveal_with_fuel(crate::query::fe_alt, 14);
    reveal_strlit("Architecture");
    reveal_strlit("Literature");
    reveal_strlit("History");
    reveal_strlit("Science");
    reveal_strlit("Fine Arts");
    reveal_strlit("Religion");
    reveal_strlit("Mythology");
    reveal_strlit("Philosophy");
    reveal_strlit("Social Science");
    reveal_strlit("Current Events");
    reveal_strlit("Geography");
    reveal_strlit("Other Academic");
    reveal_strlit("Pop Culture");
    reveal_strlit("American Literature");
    reveal_strlit("British Literature");
    reveal_strlit("Classical Literature");
    reveal_strlit("European Literature");
    reveal_strlit("World Literature");
    reveal_strlit("Other Literature");
    reveal_strlit("American History");
    reveal_strlit("Ancient History");
    reveal_strlit("European History");
    reveal_strlit("World History");
    reveal_strlit("Other History");
    reveal_strlit("Biology");
    reveal_strlit("Chemistry");
    reveal_strlit("Physics");
    reveal_strlit("Other Science");
    reveal_strlit("Visual Fine Arts");
    reveal_strlit("Auditory Fine Arts");
    reveal_strlit("Other Fine Arts");
    reveal_strlit("Other Social Science");
    reveal_strlit("Movies");
    reveal_strlit("Music");
    reveal_strlit("Sports");
    reveal_strlit("Television");
    reveal_strlit("Video Games");
    reveal_strlit("Other Pop Culture");
    reveal_strlit("Drama");
    reveal_strlit("Long Fiction");
    reveal_strlit("Poetry");
    reveal_strlit("Short Fiction");
    reveal_strlit("Misc Literature");
    reveal_strlit("Math");
    reveal_strlit("Astronomy");
    reveal_strlit("Computer Science");
    reveal_strlit("Earth Science");
    reveal_strlit("Engineering");
    reveal_strlit("Misc Science");
    lemma_lower_ne("Architecture"@, "Literature"@, 0);
    lemma_lower_ne("Architecture"@, "History"@, 0);
    lemma_lower_ne("Architecture"@, "Science"@, 0);
    lemma_lower_ne("Architecture"@, "Fine Arts"@, 0);
    lemma_lower_ne("Architecture"@, "Religion"@, 0);
    lemma_lower_ne("Architecture"@, "Mythology"@, 0);
    lemma_lower_ne("Architecture"@, "Philosophy"@, 0);
    lemma_lower_ne("Architecture"@, "Social Science"@, 0);
    lemma_lower_ne("Architecture"@, "Current Events"@, 0);
    lemma_lower_ne("Architecture"@, "Geography"@, 0);
    lemma_lower_ne("Architecture"@, "Other Academic"@, 0);
    lemma_lower_ne("Architecture"@, "Pop Culture"@, 0);
    assert(fe_in(lower(spec_taxonomy()[3].alts[0]), main_names(), 0) == -1);
    lemma_lower_ne("Architecture"@, "American Literature"@, 0);
    lemma_lower_ne("Architecture"@, "British Literature"@, 0);
    lemma_lower_ne("Architecture"@, "Classical Literature"@, 0);
    lemma_lower_ne("Architecture"@, "European Literature"@, 0);
    lemma_lower_ne("Architecture"@, "World Literature"@, 0);
    lemma_lower_ne("Architecture"@, "Other Literature"@, 0);
    assert(fe_in(lower(spec_taxonomy()[3].alts[0]), spec_taxonomy()[0].subs, 0) == -1);
    lemma_lower_ne("Architecture"@, "American History"@, 0);
    lemma_lower_ne("Architecture"@, "Ancient History"@, 0);
    lemma_lower_ne("Architecture"@, "European History"@, 0);
    lemma_lower_ne("Architecture"@, "World History"@, 0);
    lemma_lower_ne("Architecture"@, "Other History"@, 0);
    assert(fe_in(lower(spec_taxonomy()[3].alts[0]), spec_taxonomy()[1].subs, 0) == -1);
    lemma_lower_ne("Architecture"@, "Biology"@, 0);
    lemma_lower_ne("Architecture"@, "Chemistry"@, 0);
    lemma_lower_ne("Architecture"@, "Physics"@, 0);
    lemma_lower_ne("Architecture"@, "Other Science"@, 0);
    assert(fe_in(lower(spec_taxonomy()[3].alts[0]), spec_taxonomy()[2].subs, 0) == -1);
    lemma_lower_ne("Architecture"@, "Visual Fine Arts"@, 0);
    lemma_lower_ne("Architecture"@, "Auditory Fine Arts"@, 0);
    lemma_lower_ne("Architecture"@, "Other Fine Arts"@, 0);
    assert(fe_in(lower(spec_taxonomy()[3].alts[0]), spec_taxonomy()[3].subs, 0) == -1);
    assert(fe_in(lower(spec_taxonomy()[3].alts[0]), spec_taxonomy()[4].subs, 0) == -1);
    assert(fe_in(lower(spec_taxonomy()[3].alts[0]), spec_taxonomy()[5].subs, 0) == -1);
    assert(fe_in(lower(spec_taxonomy()[3].alts[0]), spec_taxonomy()[6].subs, 0) == -1);
    lemma_lower_ne("Architecture"@, "Other Social Science"@, 0);
    assert(fe_in(lower(spec_taxonomy()[3].alts[0]), spec_taxonomy()[7].subs, 0) == -1);
    assert(fe_in(lower(spec_taxonomy()[3].alts[0]), spec_taxonomy()[8].subs, 0) == -1);
    assert(fe_in(lower(spec_taxonomy()[3].alts[0]), spec_taxonomy()[9].subs, 0) == -1);
    assert(fe_in(lower(spec_taxonomy()[3].alts[0]), spec_taxonomy()[10].subs, 0) == -1);
    lemma_lower_ne("Architecture"@, "Movies"@, 0);
    lemma_lower_ne("Architecture"@, "Music"@, 0);
    lemma_lower_ne("Architecture"@, "Sports"@, 0);
    lemma_lower_ne("Architecture"@, "Television"@, 0);
    lemma_lower_ne("Architecture"@, "Video Games"@, 0);
    lemma_lower_ne("Architecture"@, "Other Pop Culture"@, 0);
    assert(fe_in(lower(spec_taxonomy()[3].alts[0]), spec_taxonomy()[11].subs, 0) == -1);
    assert(fe_sub(lower(spec_taxonomy()[3].alts[0]), 0) == None::<(int, int)>);
    lemma_lower_ne("Architecture"@, "Drama"@, 0);
    lemma_lower_ne("Architecture"@, "Long Fiction"@, 0);
    lemma_lower_ne("Architecture"@, "Poetry"@, 0);
    lemma_lower_ne("Architecture"@, "Short Fiction"@, 0);
    lemma_lower_ne("Architecture"@, "Misc Literature"@, 0);
    assert(fe_in(lower(spec_taxonomy()[3].alts[0]), spec_taxonomy()[0].alts, 0) == -1);
    assert(fe_in(lower(spec_taxonomy()[3].alts[0]), spec_taxonomy()[1].alts, 0) == -1);
    lemma_lower_ne("Architecture"@, "Math"@, 0);
    lemma_lower_ne("Architecture"@, "Astronomy"@, 0);
    lemma_lower_ne("Architecture"@, "Computer Science"@, 0);
    lemma_lower_ne("Architecture"@, "Earth Science"@, 0);
    lemma_lower_ne("Architecture"@, "Engineering"@, 0);
    lemma_lower_ne("Architecture"@, "Misc Science"@, 0);
    assert(fe_in(lower(spec_taxonomy()[3].alts[0]), spec_taxonomy()[2].alts, 0) == -1);
    assert(fe_in(lower(spec_taxonomy()[3].alts[0]), spec_taxonomy()[3].alts, 0) == 0);
    assert(crate::query::fe_alt(lower(spec_taxonomy()[3].alts[0]), 0) == Some((3int, 0int)));
}

proof fn alt_tok_dance()
    ensures
        alt_resolves_exactly(3, 1),
{
    reveal_with_fuel(fe_in, 15);
    reveal_with_fuel(fe_sub, 14);
    reveal_with_fuel(crate::query::fe_alt, 14);
    reveal_strlit("Dance");
    reveal_strlit("Literature");
    reveal_strlit("History");
    reveal_strlit("Science");
    reveal_strlit("Fine Arts");
    reveal_strlit("Religion");
    reveal_strlit("Mythology");
    reveal_strlit("Philosophy");
    reveal_strlit("Social Science");
    reveal_strlit("Current Events");
    reveal_strlit("Geography");
    reveal_strlit("Other Academic");
    reveal_strlit("Pop Culture");
    reveal_strlit("American Literature");
    reveal_strlit("British Literature");
    reveal_strlit("Classical Literature");
    reveal_strlit("European Literature");
    reveal_strlit("World Literature");
    reveal_strlit("Other Literature");
    reveal_strlit("American History");
    reveal_strlit("Ancient History");
    reveal_strlit("European History");
    reveal_strlit("World History");
    reveal_strlit("Other History");
    reveal_strlit("Biology");
    reveal_strlit("Chemistry");
    reveal_strlit("Physics");
    reveal_strlit("Other Science");
    reveal_strlit("Visual Fine Arts");
    reveal_strlit("Auditory Fine Arts");
    reveal_strlit("Other Fine Arts");
    reveal_strlit("Other Social Science");
    reveal_strlit("Movies");
    reveal_strlit("Music");
    reveal_strlit("Sports");
    reveal_strlit("Television");
    reveal_strlit("Video Games");
    reveal_strlit("Other Pop Culture");
    reveal_strlit("Drama");
    reveal_strlit("Long Fiction");
    reveal_strlit("Poetry");
    reveal_strlit("Short Fiction");
    reveal_strlit("Misc Literature");
    reveal_strlit("Math");
    reveal_strlit("Astronomy");
    reveal_strlit("Computer Science");
    reveal_strlit("Earth Science");
    reveal_strlit("Engineering");
    reveal_strlit("Misc Science");
    reveal_strlit("Architecture");
    lemma_lower_ne("Dance"@, "Literature"@, 0);
    lemma_lower_ne("Dance"@, "History"@, 0);
    lemma_lower_ne("Dance"@, "Science"@, 0);
    lemma_lower_ne("Dance"@, "Fine Arts"@, 0);
    lemma_lower_ne("Dance"@, "Religion"@, 0);
    lemma_lower_ne("Dance"@, "Mythology"@, 0);
    lemma_lower_ne("Dance"@, "Philosophy"@, 0);
    lemma_lower_ne("Dance"@, "Social Science"@, 0);
    lemma_lower_ne("Dance"@, "Current Events"@, 0);
    lemma_lower_ne("Dance"@, "Geography"@, 0);
    lemma_lower_ne("Dance"@, "Other Academic"@, 0);
    lemma_lower_ne("Dance"@, "Pop Culture"@, 0);
    assert(fe_in(lower(spec_taxonomy()[3].alts[1]), main_names(), 0) == -1);
    lemma_lower_ne("Dance"@, "American Literature"@, 0);
    lemma_lower_ne("Dance"@, "British Literature"@, 0);
    lemma_lower_ne("Dance"@, "Classical Literature"@, 0);
    lemma_lower_ne("Dance"@, "European Literature"@, 0);
    lemma_lower_ne("Dance"@, "World Literature"@, 0);
    lemma_lower_ne("Dance"@, "Other Literature"@, 0);
    assert(fe_in(lower(spec_taxonomy()[3].alts[1]), spec_taxonomy()[0].subs, 0) == -1);
    lemma_lower_ne("Dance"@, "American History"@, 0);
    lemma_lower_ne("Dance"@, "Ancient History"@, 0);
    lemma_lower_ne("Dance"@, "European History"@, 0);
    lemma_lower_ne("Dance"@, "World History"@, 0);
    lemma_lower_ne("Dance"@, "Other History"@, 0);
    assert(fe_in(lower(spec_taxonomy()[3].alts[1]), spec_taxonomy()[1].subs, 0) == -1);
    lemma_lower_ne("Dance"@, "Biology"@, 0);
    lemma_lower_ne("Dance"@, "Chemistry"@, 0);
    lemma_lower_ne("Dance"@, "Physics"@, 0);
    lemma_lower_ne("Dance"@, "Other Science"@, 0);
    assert(fe_in(lower(spec_taxonomy()[3].alts[1]), spec_taxonomy()[2].subs, 0) == -1);
    lemma_lower_ne("Dance"@, "Visual Fine Arts"@, 0);
    lemma_lower_ne("Dance"@, "Auditory Fine Arts"@, 0);
    lemma_lower_ne("Dance"@, "Other Fine Arts"@, 0);
    assert(fe_in(lower(spec_taxonomy()[3].alts[1]), spec_taxonomy()[3].subs, 0) == -1);
    assert(fe_in(lower(spec_taxonomy()[3].alts[1]), spec_taxonomy()[4].subs, 0) == -1);
    assert(fe_in(lower(spec_taxonomy()[3].alts[1]), spec_taxonomy()[5].subs, 0) == -1);
    assert(fe_in(lower(spec_taxonomy()[3].alts[1]), spec_taxonomy()[6].subs, 0) == -1);
    lemma_lower_ne("Dance"@, "Other Social Science"@, 0);
    assert(fe_in(lower(spec_taxonomy()[3].alts[1]), spec_taxonomy()[7].subs, 0) == -1);
    assert(fe_in(lower(spec_taxonomy()[3].alts[1]), spec_taxonomy()[8].subs, 0) == -1);
    assert(fe_in(lower(spec_taxonomy()[3].alts[1]), spec_taxonomy()[9].subs, 0) == -1);
    assert(fe_in(lower(spec_taxonomy()[3].alts[1]), spec_taxonomy()[10].subs, 0) == -1);
    lemma_lower_ne("Dance"@, "Movies"@, 0);
    lemma_lower_ne("Dance"@, "Music"@, 0);
    lemma_lower_ne("Dance"@, "Sports"@, 0);
    lemma_lower_ne("Dance"@, "Television"@, 0);
    lemma_lower_ne("Dance"@, "Video Games"@, 0);
    lemma_lower_ne("Dance"@, "Other Pop Culture"@, 0);
    assert(fe_in(lower(spec_taxonomy()[3].alts[1]), spec_taxonomy()[11].subs, 0) == -1);
    assert(fe_sub(lower(spec_taxonomy()[3].alts[1]), 0) == None::<(int, int)>);
    lemma_lower_ne("Dance"@, "Drama"@, 1);
    lemma_lower_ne("Dance"@, "Long Fiction"@, 0);
    lemma_lower_ne("Dance"@, "Poetry"@, 0);
    lemma_lower_ne("Dance"@, "Short Fiction"@, 0);
    lemma_lower_ne("Dance"@, "Misc Literature"@, 0);
    assert(fe_in(lower(spec_taxonomy()[3].alts[1]), spec_taxonomy()[0].alts, 0) == -1);
    assert(fe_in(lower(spec_taxonomy()[3].alts[1]), spec_taxonomy()[1].alts, 0) == -1);
    lemma_lower_ne("Dance"@, "Math"@, 0);
    lemma_lower_ne("Dance"@, "Astronomy"@, 0);
    lemma_lower_ne("Dance"@, "Computer Science"@, 0);
    lemma_lower_ne("Dance"@, "Earth Science"@, 0);
    lemma_lower_ne("Dance"@, "Engineering"@, 0);
    lemma_lower_ne("Dance"@, "Misc Science"@, 0);
    assert(fe_in(lower(spec_taxonomy()[3].alts[1]), spec_taxonomy()[2].alts, 0) == -1);
    lemma_lower_ne("Dance"@, "Architecture"@, 0);
    assert(fe_in(lower(spec_taxonomy()[3].alts[1]), spec_taxonomy()[3].alts, 0) == 1);
    assert(crate::query::fe_alt(lower(spec_taxonomy()[3].alts[1]), 0) == Some((3int, 1int)));
}

proof fn alt_tok_film()
    ensures
        alt_resolves_exactly(3, 2),
{
    reveal_with_fuel(fe_in, 15);
    reveal_with_fuel(fe_sub, 14);
    reveal_with_fuel(crate::query::fe_alt, 14);
    reveal_strlit("Film");
    reveal_strlit("Literature");
    reveal_strlit("History");
    reveal_strlit("Science");
    reveal_strlit("Fine Arts");
    reveal_strlit("Religion");
    reveal_strlit("Mythology");
    reveal_strlit("Philosophy");
    reveal_strlit("Social Science");
    reveal_strlit("Current Events");
    reveal_strlit("Geography");
    reveal_strlit("Other Academic");
    reveal_strlit("Pop Culture");
    reveal_strlit("American Literature");
    reveal_strlit("British Literature");
    reveal_strlit("Classical Literature");
    reveal_strlit("European Literature");
    reveal_strlit("World Literature");
    reveal_strlit("Other Literature");
    reveal_strlit("American History");
    reveal_strlit("Ancient History");
    reveal_strlit("European History");
    reveal_strlit("World History");
    reveal_strlit("Other History");
    reveal_strlit("Biology");
    reveal_strlit("Chemistry");
    reveal_strlit("Physics");
    reveal_strlit("Other Science");
    reveal_strlit("Visual Fine Arts");
    reveal_strlit("Auditory Fine Arts");
    reveal_strlit("Other Fine Arts");
    reveal_strlit("Other Social Science");
    reveal_strlit("Movies");
    reveal_strlit("Music");
    reveal_strlit("Sports");
    reveal_strlit("Television");
    reveal_strlit("Video Games");
    reveal_strlit("Other Pop Culture");
    reveal_strlit("Drama");
    reveal_strlit("Long Fiction");
    reveal_strlit("Poetry");
    reveal_strlit("Short Fiction");
    reveal_strlit("Misc Literature");
    reveal_strlit("Math");
    reveal_strlit("Astronomy");
    reveal_strlit("Computer Science");
    reveal_strlit("Earth Science");
    reveal_strlit("Engineering");
    reveal_strlit("Misc Science");
    reveal_strlit("Architecture");
    reveal_strlit("Dance");
    lemma_lower_ne("Film"@, "Literature"@, 0);
    lemma_lower_ne("Film"@, "History"@, 0);
    lemma_lower_ne("Film"@, "Science"@, 0);
    lemma_lower_ne("Film"@, "Fine Arts"@, 0);
    lemma_lower_ne("Film"@, "Religion"@, 0);
    lemma_lower_ne("Film"@, "Mythology"@, 0);
    lemma_lower_ne("Film"@, "Philosophy"@, 0);
    lemma_lower_ne("Film"@, "Social Science"@, 0);
    lemma_lower_ne("Film"@, "Current Events"@, 0);
    lemma_lower_ne("Film"@, "Geography"@, 0);
    lemma_lower_ne("Film"@, "Other Academic"@, 0);
    lemma_lower_ne("Film"@, "Pop Culture"@, 0);
    assert(fe_in(lower(spec_taxonomy()[3].alts[2]), main_names(), 0) == -1);
    lemma_lower_ne("Film"@, "American Literature"@, 0);
    lemma_lower_ne("Film"@, "British Literature"@, 0);
    lemma_lower_ne("Film"@, "Classical Literature"@, 0);
    lemma_lower_ne("Film"@, "European Literature"@, 0);
    lemma_lower_ne("Film"@, "World Literature"@, 0);
    lemma_lower_ne("Film"@, "Other Literature"@, 0);
    assert(fe_in(lower(spec_taxonomy()[3].alts[2]), spec_taxonomy()[0].subs, 0) == -1);
    lemma_lower_ne("Film"@, "American History"@, 0);
    lemma_lower_ne("Film"@, "Ancient History"@, 0);
    lemma_lower_ne("Film"@, "European History"@, 0);
    lemma_lower_ne("Film"@, "World History"@, 0);
    lemma_lower_ne("Film"@, "Other History"@, 0);
    assert(fe_in(lower(spec_taxonomy()[3].alts[2]), spec_taxonomy()[1].subs, 0) == -1);
    lemma_lower_ne("Film"@, "Biology"@, 0);
    lemma_lower_ne("Film"@, "Chemistry"@, 0);
    lemma_lower_ne("Film"@, "Physics"@, 0);
    lemma_lower_ne("Film"@, "Other Science"@, 0);
    assert(fe_in(lower(spec_taxonomy()[3].alts[2]), spec_taxonomy()[2].subs, 0) == -1);
    lemma_lower_ne("Film"@, "Visual Fine Arts"@, 0);
    lemma_lower_ne("Film"@, "Auditory Fine Arts"@, 0);
    lemma_lower_ne("Film"@, "Other Fine Arts"@, 0);
    assert(fe_in(lower(spec_taxonomy()[3].alts[2]), spec_taxonomy()[3].subs, 0) == -1);
    assert(fe_in(lower(spec_taxonomy()[3].alts[2]), spec_taxonomy()[4].subs, 0) == -1);
    assert(fe_in(lower(spec_taxonomy()[3].alts[2]), spec_taxonomy()[5].subs, 0) == -1);
    assert(fe_in(lower(spec_taxonomy()[3].alts[2]), spec_taxonomy()[6].subs, 0) == -1);
    lemma_lower_ne("Film"@, "Other Social Science"@, 0);
    assert(fe_in(lower(spec_taxonomy()[3].alts[2]), spec_taxonomy()[7].subs, 0) == -1);
    assert(fe_in(lower(spec_taxonomy()[3].alts[2]), spec_taxonomy()[8].subs, 0) == -1);
    assert(fe_in(lower(spec_taxonomy()[3].alts[2]), spec_taxonomy()[9].subs, 0) == -1);
    assert(fe_in(lower(spec_taxonomy()[3].alts[2]), spec_taxonomy()[10].subs, 0) == -1);
    lemma_lower_ne("Film"@, "Movies"@, 0);
    lemma_lower_ne("Film"@, "Music"@, 0);
    lemma_lower_ne("Film"@, "Sports"@, 0);
    lemma_lower_ne("Film"@, "Television"@, 0);
    lemma_lower_ne("Film"@, "Video Games"@, 0);
    lemma_lower_ne("Film"@, "Other Pop Culture"@, 0);
    assert(fe_in(lower(spec_taxonomy()[3].alts[2]), spec_taxonomy()[11].subs, 0) == -1);
    assert(fe_sub(lower(spec_taxonomy()[3].alts[2]), 0) == None::<(int, int)>);
    lemma_lower_ne("Film"@, "Drama"@, 0);
    lemma_lower_ne("Film"@, "Long Fiction"@, 0);
    lemma_lower_ne("Film"@, "Poetry"@, 0);
    lemma_lower_ne("Film"@, "Short Fiction"@, 0);
    lemma_lower_ne("Film"@, "Misc Literature"@, 0);
    assert(fe_in(lower(spec_taxonomy()[3].alts[2]), spec_taxonomy()[0].alts, 0) == -1);
    assert(fe_in(lower(spec_taxonomy()[3].alts[2]), spec_taxonomy()[1].alts, 0) == -1);
    lemma_lower_ne("Film"@, "Math"@, 0);
    lemma_lower_ne("Film"@, "Astronomy"@, 0);
    lemma_lower_ne("Film"@, "Computer Science"@, 0);
    lemma_lower_ne("Film"@, "Earth Science"@, 0);
    lemma_lower_ne("Film"@, "Engineering"@, 0);
    lemma_lower_ne("Film"@, "Misc Science"@, 0);
    assert(fe_in(lower(spec_taxonomy()[3].alts[2]), spec_taxonomy()[2].alts, 0) == -1);
    lemma_lower_ne("Film"@, "Architecture"@, 0);
    lemma_lower_ne("Film"@, "Dance"@, 0);
    assert(fe_in(lower(spec_taxonomy()[3].alts[2]), spec_taxonomy()[3].alts, 0) == 2);
    assert(crate::query::fe_alt(lower(spec_taxonomy()[3].alts[2]), 0) == Some((3int, 2int)));
}

proof fn alt_tok_jazz()
    ensures
        alt_resolves_exactly(3, 3),
{
    reveal_with_fuel(fe_in, 15);
    reveal_with_fuel(fe_sub, 14);
    reveal_with_fuel(crate::query::fe_alt, 14);
    reveal_strlit("Jazz");
    reveal_strlit("Literature");
    reveal_strlit("History");
    reveal_strlit("Science");
    reveal_strlit("Fine Arts");
    reveal_strlit("Religion");
    reveal_strlit("Mythology");
    reveal_strlit("Philosophy");
    reveal_strlit("Social Science");
    reveal_strlit("Current Events");
    reveal_strlit("Geography");
    reveal_strlit("Other Academic");
    reveal_strlit("Pop Culture");
    reveal_strlit("American Literature");
    reveal_strlit("British Literature");
    reveal_strlit("Classical Literature");
    reveal_strlit("European Literature");
    reveal_strlit("World Literature");
    reveal_strlit("Other Literature");
    reveal_strlit("American History");
    reveal_strlit("Ancient History");
    reveal_strlit("European History");
    reveal_strlit("World History");
    reveal_strlit("Other History");
    reveal_strlit("Biology");
    reveal_strlit("Chemistry");
    reveal_strlit("Physics");
    reveal_strlit("Other Science");
    reveal_strlit("Visual Fine Arts");
    reveal_strlit("Auditory Fine Arts");
    reveal_strlit("Other Fine Arts");
    reveal_strlit("Other Social Science");
    reveal_strlit("Movies");
    reveal_strlit("Music");
    reveal_strlit("Sports");
    reveal_strlit("Television");
    reveal_strlit("Video Games");
    reveal_strlit("Other Pop Culture");
    reveal_strlit("Drama");
    reveal_strlit("Long Fiction");
    reveal_strlit("Poetry");
    reveal_strlit("Short Fiction");
    reveal_strlit("Misc Literature");
    reveal_strlit("Math");
    reveal_strlit("Astronomy");
    reveal_strlit("Computer Science");
    reveal_strlit("Earth Science");
    reveal_strlit("Engineering");
    reveal_strlit("Misc Science");
    reveal_strlit("Architecture");
    reveal_strlit("Dance");
    reveal_strlit("Film");
    lemma_lower_ne("Jazz"@, "Literature"@, 0);
    lemma_lower_ne("Jazz"@, "History"@, 0);
    lemma_lower_ne("Jazz"@, "Science"@, 0);
    lemma_lower_ne("Jazz"@, "Fine Arts"@, 0);
    lemma_lower_ne("Jazz"@, "Religion"@, 0);
    lemma_lower_ne("Jazz"@, "Mythology"@, 0);
    lemma_lower_ne("Jazz"@, "Philosophy"@, 0);
    lemma_lower_ne("Jazz"@, "Social Science"@, 0);
    lemma_lower_ne("Jazz"@, "Current Events"@, 0);
    lemma_lower_ne("Jazz"@, "Geography"@, 0);
    lemma_lower_ne("Jazz"@, "Other Academic"@, 0);
    lemma_lower_ne("Jazz"@, "Pop Culture"@, 0);
    assert(fe_in(lower(spec_taxonomy()[3].alts[3]), main_names(), 0) == -1);
    lemma_lower_ne("Jazz"@, "American Literature"@, 0);
    lemma_lower_ne("Jazz"@, "British Literature"@, 0);
    lemma_lower_ne("Jazz"@, "Classical Literature"@, 0);
    lemma_lower_ne("Jazz"@, "European Literature"@, 0);
    lemma_lower_ne("Jazz"@, "World Literature"@, 0);
    lemma_lower_ne("Jazz"@, "Other Literature"@, 0);
    assert(fe_in(lower(spec_taxonomy()[3].alts[3]), spec_taxonomy()[0].subs, 0) == -1);
    lemma_lower_ne("Jazz"@, "American History"@, 0);
    lemma_lower_ne("Jazz"@, "Ancient History"@, 0);
    lemma_lower_ne("Jazz"@, "European History"@, 0);
    lemma_lower_ne("Jazz"@, "World History"@, 0);
    lemma_lower_ne("Jazz"@, "Other History"@, 0);
    assert(fe_in(lower(spec_taxonomy()[3].alts[3]), spec_taxonomy()[1].subs, 0) == -1);
    lemma_lower_ne("Jazz"@, "Biology"@, 0);
    lemma_lower_ne("Jazz"@, "Chemistry"@, 0);
    lemma_lower_ne("Jazz"@, "Physics"@, 0);
    lemma_lower_ne("Jazz"@, "Other Science"@, 0);
    assert(fe_in(lower(spec_taxonomy()[3].alts[3]), spec_taxonomy()[2].subs, 0) == -1);
    lemma_lower_ne("Jazz"@, "Visual Fine Arts"@, 0);
    lemma_lower_ne("Jazz"@, "Auditory Fine Arts"@, 0);
    lemma_lower_ne("Jazz"@, "Other Fine Arts"@, 0);
    assert(fe_in(lower(spec_taxonomy()[3].alts[3]), spec_taxonomy()[3].subs, 0) == -1);
    assert(fe_in(lower(spec_taxonomy()[3].alts[3]), spec_taxonomy()[4].subs, 0) == -1);
    assert(fe_in(lower(spec_taxonomy()[3].alts[3]), spec_taxonomy()[5].subs, 0) == -1);
    assert(fe_in(lower(spec_taxonomy()[3].alts[3]), spec_taxonomy()[6].subs, 0) == -1);
    lemma_lower_ne("Jazz"@, "Other Social Science"@, 0);
    assert(fe_in(lower(spec_taxonomy()[3].alts[3]), spec_taxonomy()[7].subs, 0) == -1);
    assert(fe_in(lower(spec_taxonomy()[3].alts[3]), spec_taxonomy()[8].subs, 0) == -1);
    assert(fe_in(lower(spec_taxonomy()[3].alts[3]), spec_taxonomy()[9].subs, 0) == -1);
    assert(fe_in(lower(spec_taxonomy()[3].alts[3]), spec_taxonomy()[10].subs, 0) == -1);
    lemma_lower_ne("Jazz"@, "Movies"@, 0);
    lemma_lower_ne("Jazz"@, "Music"@, 0);
    lemma_lower_ne("Jazz"@, "Sports"@, 0);
    lemma_lower_ne("Jazz"@, "Television"@, 0);
    lemma_lower_ne("Jazz"@, "Video Games"@, 0);
    lemma_lower_ne("Jazz"@, "Other Pop Culture"@, 0);
    assert(fe_in(lower(spec_taxonomy()[3].alts[3]), spec_taxonomy()[11].subs, 0) == -1);
    assert(fe_sub(lower(spec_taxonomy()[3].alts[3]), 0) == None::<(int, int)>);
    lemma_lower_ne("Jazz"@, "Drama"@, 0);
    lemma_lower_ne("Jazz"@, "Long Fiction"@, 0);
    lemma_lower_ne("Jazz"@, "Poetry"@, 0);
    lemma_lower_ne("Jazz"@, "Short Fiction"@, 0);
    lemma_lower_ne("Jazz"@, "Misc Literature"@, 0);
    assert(fe_in(lower(spec_taxonomy()[3].alts[3]), spec_taxonomy()[0].alts, 0) == -1);
    assert(fe_in(lower(spec_taxonomy()[3].alts[3]), spec_taxonomy()[1].alts, 0) == -1);
    lemma_lower_ne("Jazz"@, "Math"@, 0);
    lemma_lower_ne("Jazz"@, "Astronomy"@, 0);
    lemma_lower_ne("Jazz"@, "Computer Science"@, 0);
    lemma_lower_ne("Jazz"@, "Earth Science"@, 0);
    lemma_lower_ne("Jazz"@, "Engineering"@, 0);
    lemma_lower_ne("Jazz"@, "Misc Science"@, 0);
    assert(fe_in(lower(spec_taxonomy()[3].alts[3]), spec_taxonomy()[2].alts, 0) == -1);
    lemma_lower_ne("Jazz"@, "Architecture"@, 0);
    lemma_lower_ne("Jazz"@, "Dance"@, 0);
    lemma_lower_ne("Jazz"@, "Film"@, 0);
    assert(fe_in(lower(spec_taxonomy()[3].alts[3]), spec_taxonomy()[3].alts, 0) == 3);
    assert(crate::query::fe_alt(lower(spec_taxonomy()[3].alts[3]), 0) == Some((3int, 3int)));
}

proof fn alt_tok_musicals()
    ensures
        alt_resolves_exactly(3, 4),
{
    reveal_with_fuel(fe_in, 15);
    reveal_with_fuel(fe_sub, 14);
    reveal_with_fuel(crate::query::fe_alt, 14);
    reveal_strlit("Musicals");
    reveal_strlit("Literature");
    reveal_strlit("History");
    reveal_strlit("Science");
    reveal_strlit("Fine Arts");
    reveal_strlit("Religion");
    reveal_strlit("Mythology");
    reveal_strlit("Philosophy");
    reveal_strlit("Social Science");
    reveal_strlit("Current Events");
    reveal_strlit("Geography");
    reveal_strlit("Other Academic");
    reveal_strlit("Pop Culture");
    reveal_strlit("American Literature");
    reveal_strlit("British Literature");
    reveal_strlit("Classical Literature");
    reveal_strlit("European Literature");
    reveal_strlit("World Literature");
    reveal_strlit("Other Literature");
    reveal_strlit("American History");
    reveal_strlit("Ancient History");
    reveal_strlit("European History");
    reveal_strlit("World History");
    reveal_strlit("Other History");
    reveal_strlit("Biology");
    reveal_strlit("Chemistry");
    reveal_strlit("Physics");
    reveal_strlit("Other Science");
    reveal_strlit("Visual Fine Arts");
    reveal_strlit("Auditory Fine Arts");
    reveal_strlit("Other Fine Arts");
    reveal_strlit("Other Social Science");
    reveal_strlit("Movies");
    reveal_strlit("Music");
    reveal_strlit("Sports");
    reveal_strlit("Television");
    reveal_strlit("Video Games");
    reveal_strlit("Other Pop Culture");
    reveal_strlit("Drama");
    reveal_strlit("Long Fiction");
    reveal_strlit("Poetry");
    reveal_strlit("Short Fiction");
    reveal_strlit("Misc Literature");
    reveal_strlit("Math");
    reveal_strlit("Astronomy");
    reveal_strlit("Computer Science");
    reveal_strlit("Earth Science");
    reveal_strlit("Engineering");
    reveal_strlit("Misc Science");
    reveal_strlit("Architecture");
    reveal_strlit("Dance");
    reveal_strlit("Film");
    reveal_strlit("Jazz");
    lemma_lower_ne("Musicals"@, "Literature"@, 0);
    lemma_lower_ne("Musicals"@, "History"@, 0);
    lemma_lower_ne("Musicals"@, "Science"@, 0);
    lemma_lower_ne("Musicals"@, "Fine Arts"@, 0);
    lemma_lower_ne("Musicals"@, "Religion"@, 0);
    lemma_lower_ne("Musicals"@, "Mythology"@, 0);
    lemma_lower_ne("Musicals"@, "Philosophy"@, 0);
    lemma_lower_ne("Musicals"@, "Social Science"@, 0);
    lemma_lower_ne("Musicals"@, "Current Events"@, 0);
    lemma_lower_ne("Musicals"@, "Geography"@, 0);
    lemma_lower_ne("Musicals"@, "Other Academic"@, 0);
    lemma_lower_ne("Musicals"@, "Pop Culture"@, 0);
    assert(fe_in(lower(spec_taxonomy()[3].alts[4]), main_names(), 0) == -1);
    lemma_lower_ne("Musicals"@, "American Literature"@, 0);
    lemma_lower_ne("Musicals"@, "British Literature"@, 0);
    lemma_lower_ne("Musicals"@, "Classical Literature"@, 0);
    lemma_lower_ne("Musicals"@, "European Literature"@, 0);
    lemma_lower_ne("Musicals"@, "World Literature"@, 0);
    lemma_lower_ne("Musicals"@, "Other Literature"@, 0);
    assert(fe_in(lower(spec_taxonomy()[3].alts[4]), spec_taxonomy()[0].subs, 0) == -1);
    lemma_lower_ne("Musicals"@, "American History"@, 0);
    lemma_lower_ne("Musicals"@, "Ancient History"@, 0);
    lemma_lower_ne("Musicals"@, "European History"@, 0);
    lemma_lower_ne("Musicals"@, "World History"@, 0);
    lemma_lower_ne("Musicals"@, "Other History"@, 0);
    assert(fe_in(lower(spec_taxonomy()[3].alts[4]), spec_taxonomy()[1].subs, 0) == -1);
    lemma_lower_ne("Musicals"@, "Biology"@, 0);
    lemma_lower_ne("Musicals"@, "Chemistry"@, 0);
    lemma_lower_ne("Musicals"@, "Physics"@, 0);
    lemma_lower_ne("Musicals"@, "Other Science"@, 0);
    assert(fe_in(lower(spec_taxonomy()[3].alts[4]), spec_taxonomy()[2].subs, 0) == -1);
    lemma_lower_ne("Musicals"@, "Visual Fine Arts"@, 0);
    lemma_lower_ne("Musicals"@, "Auditory Fine Arts"@, 0);
    lemma_lower_ne("Musicals"@, "Other Fine Arts"@, 0);
    assert(fe_in(lower(spec_taxonomy()[3].alts[4]), spec_taxonomy()[3].subs, 0) == -1);
    assert(fe_in(lower(spec_taxonomy()[3].alts[4]), spec_taxonomy()[4].subs, 0) == -1);
    assert(fe_in(lower(spec_taxonomy()[3].alts[4]), spec_taxonomy()[5].subs, 0) == -1);
    assert(fe_in(lower(spec_taxonomy()[3].alts[4]), spec_taxonomy()[6].subs, 0) == -1);
    lemma_lower_ne("Musicals"@, "Other Social Science"@, 0);
    assert(fe_in(lower(spec_taxonomy()[3].alts[4]), spec_taxonomy()[7].subs, 0) == -1);
    assert(fe_in(lower(spec_taxonomy()[3].alts[4]), spec_taxonomy()[8].subs, 0) == -1);
    assert(fe_in(lower(spec_taxonomy()[3].alts[4]), spec_taxonomy()[9].subs, 0) == -1);
    assert(fe_in(lower(spec_taxonomy()[3].alts[4]), spec_taxonomy()[10].subs, 0) == -1);
    lemma_lower_ne("Musicals"@, "Movies"@, 0);
    lemma_lower_ne("Musicals"@, "Music"@, 0);
    lemma_lower_ne("Musicals"@, "Sports"@, 0);
    lemma_lower_ne("Musicals"@, "Television"@, 0);
    lemma_lower_ne("Musicals"@, "Video Games"@, 0);
    lemma_lower_ne("Musicals"@, "Other Pop Culture"@, 0);
    assert(fe_in(lower(spec_taxonomy()[3].alts[4]), spec_taxonomy()[11].subs, 0) == -1);
    assert(fe_sub(lower(spec_taxonomy()[3].alts[4]), 0) == None::<(int, int)>);
    lemma_lower_ne("Musicals"@, "Drama"@, 0);
    lemma_lower_ne("Musicals"@, "Long Fiction"@, 0);
    lemma_lower_ne("Musicals"@, "Poetry"@, 0);
    lemma_lower_ne("Musicals"@, "Short Fiction"@, 0);
    lemma_lower_ne("Musicals"@, "Misc Literature"@, 0);
    assert(fe_in(lower(spec_taxonomy()[3].alts[4]), spec_taxonomy()[0].alts, 0) == -1);
    assert(fe_in(lower(spec_taxonomy()[3].alts[4]), spec_taxonomy()[1].alts, 0) == -1);
    lemma_lower_ne("Musicals"@, "Math"@, 0);
    lemma_lower_ne("Musicals"@, "Astronomy"@, 0);
    lemma_lower_ne("Musicals"@, "Computer Science"@, 0);
    lemma_lower_ne("Musicals"@, "Earth Science"@, 0);
    lemma_lower_ne("Musicals"@, "Engineering"@, 0);
    lemma_lower_ne("Musicals"@, "Misc Science"@, 0);
    assert(fe_in(lower(spec_taxonomy()[3].alts[4]), spec_taxonomy()[2].alts, 0) == -1);
    lemma_lower_ne("Musicals"@, "Architecture"@, 0);
    lemma_lower_ne("Musicals"@, "Dance"@, 0);
    lemma_lower_ne("Musicals"@, "Film"@, 0);
    lemma_lower_ne("Musicals"@, "Jazz"@, 0);
    assert(fe_in(lower(spec_taxonomy()[3].alts[4]), spec_taxonomy()[3].alts, 0) == 4);
    assert(crate::query::fe_alt(lower(spec_taxonomy()[3].alts[4]), 0) == Some((3int, 4int)));
}

proof fn alt_tok_opera()
    ensures
        alt_resolves_exactly(3, 5),
{
    reveal_with_fuel(fe_in, 15);
    reveal_with_fuel(fe_sub, 14);
    reveal_with_fuel(crate::query::fe_alt, 14);
    reveal_strlit("Opera");
    reveal_strlit("Literature");
    reveal_strlit("History");
    reveal_strlit("Science");
    reveal_strlit("Fine Arts");
    reveal_strlit("Religion");
    reveal_strlit("Mythology");
    reveal_strlit("Philosophy");
    reveal_strlit("Social Science");
    reveal_strlit("Current Events");
    reveal_strlit("Geography");
    reveal_strlit("Other Academic");
    reveal_strlit("Pop Culture");
    reveal_strlit("American Literature");
    reveal_strlit("British Literature");
    reveal_strlit("Classical Literature");
    reveal_strlit("European Literature");
    reveal_strlit("World Literature");
    reveal_strlit("Other Literature");
    reveal_strlit("American History");
    reveal_strlit("Ancient History");
    reveal_strlit("European History");
    reveal_strlit("World History");
    reveal_strlit("Other History");
    reveal_strlit("Biology");
    reveal_strlit("Chemistry");
    reveal_strlit("Physics");
    reveal_strlit("Other Science");
    reveal_strlit("Visual Fine Arts");
    reveal_strlit("Auditory Fine Arts");
    reveal_strlit("Other Fine Arts");
    reveal_strlit("Other Social Science");
    reveal_strlit("Movies");
    reveal_strlit("Music");
    reveal_strlit("Sports");
    reveal_strlit("Television");
    reveal_strlit("Video Games");
    reveal_strlit("Other Pop Culture");
    reveal_strlit("Drama");
    reveal_strlit("Long Fiction");
    reveal_strlit("Poetry");
    reveal_strlit("Short Fiction");
    reveal_strlit("Misc Literature");
    reveal_strlit("Math");
    reveal_strlit("Astronomy");
    reveal_strlit("Computer Science");
    reveal_strlit("Earth Science");
    reveal_strlit("Engineering");
    reveal_strlit("Misc Science");
    reveal_strlit("Architecture");
    reveal_strlit("Dance");
    reveal_strlit("Film");
    reveal_strlit("Jazz");
    reveal_strlit("Musicals");
    lemma_lower_ne("Opera"@, "Literature"@, 0);
    lemma_lower_ne("Opera"@, "History"@, 0);
    lemma_lower_ne("Opera"@, "Science"@, 0);
    lemma_lower_ne("Opera"@, "Fine Arts"@, 0);
    lemma_lower_ne("Opera"@, "Religion"@, 0);
    lemma_lower_ne("Opera"@, "Mythology"@, 0);
    lemma_lower_ne("Opera"@, "Philosophy"@, 0);
    lemma_lower_ne("Opera"@, "Social Science"@, 0);
    lemma_lower_ne("Opera"@, "Current Events"@, 0);
    lemma_lower_ne("Opera"@, "Geography"@, 0);
    lemma_lower_ne("Opera"@, "Other Academic"@, 0);
    lemma_lower_ne("Opera"@, "Pop Culture"@, 0);
    assert(fe_in(lower(spec_taxonomy()[3].alts[5]), main_names(), 0) == -1);
    lemma_lower_ne("Opera"@, "American Literature"@, 0);
    lemma_lower_ne("Opera"@, "British Literature"@, 0);
    lemma_lower_ne("Opera"@, "Classical Literature"@, 0);
    lemma_lower_ne("Opera"@, "European Literature"@, 0);
    lemma_lower_ne("Opera"@, "World Literature"@, 0);
    lemma_lower_ne("Opera"@, "Other Literature"@, 0);
    assert(fe_in(lower(spec_taxonomy()[3].alts[5]), spec_taxonomy()[0].subs, 0) == -1);
    lemma_lower_ne("Opera"@, "American History"@, 0);
    lemma_lower_ne("Opera"@, "Ancient History"@, 0);
    lemma_lower_ne("Opera"@, "European History"@, 0);
    lemma_lower_ne("Opera"@, "World History"@, 0);
    lemma_lower_ne("Opera"@, "Other History"@, 0);
    assert(fe_in(lower(spec_taxonomy()[3].alts[5]), spec_taxonomy()[1].subs, 0) == -1);
    lemma_lower_ne("Opera"@, "Biology"@, 0);
    lemma_lower_ne("Opera"@, "Chemistry"@, 0);
    lemma_lower_ne("Opera"@, "Physics"@, 0);
    lemma_lower_ne("Opera"@, "Other Science"@, 0);
    assert(fe_in(lower(spec_taxonomy()[3].alts[5]), spec_taxonomy()[2].subs, 0) == -1);
    lemma_lower_ne("Opera"@, "Visual Fine Arts"@, 0);
    lemma_lower_ne("Opera"@, "Auditory Fine Arts"@, 0);
    lemma_lower_ne("Opera"@, "Other Fine Arts"@, 0);
    assert(fe_in(lower(spec_taxonomy()[3].alts[5]), spec_taxonomy()[3].subs, 0) == -1);
    assert(fe_in(lower(spec_taxonomy()[3].alts[5]), spec_taxonomy()[4].subs, 0) == -1);
    assert(fe_in(lower(spec_taxonomy()[3].alts[5]), spec_taxonomy()[5].subs, 0) == -1);
    assert(fe_in(lower(spec_taxonomy()[3].alts[5]), spec_taxonomy()[6].subs, 0) == -1);
    lemma_lower_ne("Opera"@, "Other Social Science"@, 0);
    assert(fe_in(lower(spec_taxonomy()[3].alts[5]), spec_taxonomy()[7].subs, 0) == -1);
    assert(fe_in(lower(spec_taxonomy()[3].alts[5]), spec_taxonomy()[8].subs, 0) == -1);
    assert(fe_in(lower(spec_taxonomy()[3].alts[5]), spec_taxonomy()[9].subs, 0) == -1);
    assert(fe_in(lower(spec_taxonomy()[3].alts[5]), spec_taxonomy()[10].subs, 0) == -1);
    lemma_lower_ne("Opera"@, "Movies"@, 0);
    lemma_lower_ne("Opera"@, "Music"@, 0);
    lemma_lower_ne("Opera"@, "Sports"@, 0);
    lemma_lower_ne("Opera"@, "Television"@, 0);
    lemma_lower_ne("Opera"@, "Video Games"@, 0);
    lemma_lower_ne("Opera"@, "Other Pop Culture"@, 0);
    assert(fe_in(lower(spec_taxonomy()[3].alts[5]), spec_taxonomy()[11].subs, 0) == -1);
    assert(fe_sub(lower(spec_taxonomy()[3].alts[5]), 0) == None::<(int, int)>);
    lemma_lower_ne("Opera"@, "Drama"@, 0);
    lemma_lower_ne("Opera"@, "Long Fiction"@, 0);
    lemma_lower_ne("Opera"@, "Poetry"@, 0);
    lemma_lower_ne("Opera"@, "Short Fiction"@, 0);
    lemma_lower_ne("Opera"@, "Misc Literature"@, 0);
    assert(fe_in(lower(spec_taxonomy()[3].alts[5]), spec_taxonomy()[0].alts, 0) == -1);
    assert(fe_in(lower(spec_taxonomy()[3].alts[5]), spec_taxonomy()[1].alts, 0) == -1);
    lemma_lower_ne("Opera"@, "Math"@, 0);
    lemma_lower_ne("Opera"@, "Astronomy"@, 0);
    lemma_lower_ne("Opera"@, "Computer Science"@, 0);
    lemma_lower_ne("Opera"@, "Earth Science"@, 0);
    lemma_lower_ne("Opera"@, "Engineering"@, 0);
    lemma_lower_ne("Opera"@, "Misc Science"@, 0);
    assert(fe_in(lower(spec_taxonomy()[3].alts[5]), spec_taxonomy()[2].alts, 0) == -1);
    lemma_lower_ne("Opera"@, "Architecture"@, 0);
    lemma_lower_ne("Opera"@, "Dance"@, 0);
    lemma_lower_ne("Opera"@, "Film"@, 0);
    lemma_lower_ne("Opera"@, "Jazz"@, 0);
    lemma_lower_ne("Opera"@, "Musicals"@, 0);
    assert(fe_in(lower(spec_taxonomy()[3].alts[5]), spec_taxonomy()[3].alts, 0) == 5);
    assert(crate::query::fe_alt(lower(spec_taxonomy()[3].alts[5]), 0) == Some((3int, 5int)));
}

proof fn alt_tok_photography()
    ensures
        alt_resolves_exactly(3, 6),
{
    reveal_with_fuel(fe_in, 15);
    reveal_with_fuel(fe_sub, 14);
    reveal_with_fuel(crate::query::fe_alt, 14);
    reveal_strlit("Photography");
    reveal_strlit("Literature");
    reveal_strlit("History");
    reveal_strlit("Science");
    reveal_strlit("Fine Arts");
    reveal_strlit("Religion");
    reveal_strlit("Mythology");
    reveal_strlit("Philosophy");
    reveal_strlit("Social Science");
    reveal_strlit("Current Events");
    reveal_strlit("Geography");
    reveal_strlit("Other Academic");
    reveal_strlit("Pop Culture");
    reveal_strlit("American Literature");
    reveal_strlit("British Literature");
    reveal_strlit("Classical Literature");
    reveal_strlit("European Literature");
    reveal_strlit("World Literature");
    reveal_strlit("Other Literature");
    reveal_strlit("American History");
    reveal_strlit("Ancient History");
    reveal_strlit("European History");
    reveal_strlit("World History");
    reveal_strlit("Other History");
    reveal_strlit("Biology");
    reveal_strlit("Chemistry");
    reveal_strlit("Physics");
    reveal_strlit("Other Science");
    reveal_strlit("Visual Fine Arts");
    reveal_strlit("Auditory Fine Arts");
    reveal_strlit("Other Fine Arts");
    reveal_strlit("Other Social Science");
    reveal_strlit("Movies");
    reveal_strlit("Music");
    reveal_strlit("Sports");
    reveal_strlit("Television");
    reveal_strlit("Video Games");
    reveal_strlit("Other Pop Culture");
    reveal_strlit("Drama");
    reveal_strlit("Long Fiction");
    reveal_strlit("Poetry");
    reveal_strlit("Short Fiction");
    reveal_strlit("Misc Literature");
    reveal_strlit("Math");
    reveal_strlit("Astronomy");
    reveal_strlit("Computer Science");
    reveal_strlit("Earth Science");
    reveal_strlit("Engineering");
    reveal_strlit("Misc Science");
    reveal_strlit("Architecture");
    reveal_strlit("Dance");
    reveal_strlit("Film");
    reveal_strlit("Jazz");
    reveal_strlit("Musicals");
    reveal_strlit("Opera");
    lemma_lower_ne("Photography"@, "Literature"@, 0);
    lemma_lower_ne("Photography"@, "History"@, 0);
    lemma_lower_ne("Photography"@, "Science"@, 0);
    lemma_lower_ne("Photography"@, "Fine Arts"@, 0);
    lemma_lower_ne("Photography"@, "Religion"@, 0);
    lemma_lower_ne("Photography"@, "Mythology"@, 0);
    lemma_lower_ne("Photography"@, "Philosophy"@, 0);
    lemma_lower_ne("Photography"@, "Social Science"@, 0);
    lemma_lower_ne("Photography"@, "Current Events"@, 0);
    lemma_lower_ne("Photography"@, "Geography"@, 0);
    lemma_lower_ne("Photography"@, "Other Academic"@, 0);
    lemma_lower_ne("Photography"@, "Pop Culture"@, 1);
    assert(fe_in(lower(spec_taxonomy()[3].alts[6]), main_names(), 0) == -1);
    lemma_lower_ne("Photography"@, "American Literature"@, 0);
    lemma_lower_ne("Photography"@, "British Literature"@, 0);
    lemma_lower_ne("Photography"@, "Classical Literature"@, 0);
    lemma_lower_ne("Photography"@, "European Literature"@, 0);
    lemma_lower_ne("Photography"@, "World Literature"@, 0);
    lemma_lower_ne("Photography"@, "Other Literature"@, 0);
    assert(fe_in(lower(spec_taxonomy()[3].alts[6]), spec_taxonomy()[0].subs, 0) == -1);
    lemma_lower_ne("Photography"@, "American History"@, 0);
    lemma_lower_ne("Photography"@, "Ancient History"@, 0);
    lemma_lower_ne("Photography"@, "European History"@, 0);
    lemma_lower_ne("Photography"@, "World History"@, 0);
    lemma_lower_ne("Photography"@, "Other History"@, 0);
    assert(fe_in(lower(spec_taxonomy()[3].alts[6]), spec_taxonomy()[1].subs, 0) == -1);
    lemma_lower_ne("Photography"@, "Biology"@, 0);
    lemma_lower_ne("Photography"@, "Chemistry"@, 0);
    lemma_lower_ne("Photography"@, "Physics"@, 0);
    lemma_lower_ne("Photography"@, "Other Science"@, 0);
    assert(fe_in(lower(spec_taxonomy()[3].alts[6]), spec_taxonomy()[2].subs, 0) == -1);
    lemma_lower_ne("Photography"@, "Visual Fine Arts"@, 0);
    lemma_lower_ne("Photography"@, "Auditory Fine Arts"@, 0);
    lemma_lower_ne("Photography"@, "Other Fine Arts"@, 0);
    assert(fe_in(lower(spec_taxonomy()[3].alts[6]), spec_taxonomy()[3].subs, 0) == -1);
    assert(fe_in(lower(spec_taxonomy()[3].alts[6]), spec_taxonomy()[4].subs, 0) == -1);
    assert(fe_in(lower(spec_taxonomy()[3].alts[6]), spec_taxonomy()[5].subs, 0) == -1);
    assert(fe_in(lower(spec_taxonomy()[3].alts[6]), spec_taxonomy()[6].subs, 0) == -1);
    lemma_lower_ne("Photography"@, "Other Social Science"@, 0);
    assert(fe_in(lower(spec_taxonomy()[3].alts[6]), spec_taxonomy()[7].subs, 0) == -1);
    assert(fe_in(lower(spec_taxonomy()[3].alts[6]), spec_taxonomy()[8].subs, 0) == -1);
    assert(fe_in(lower(spec_taxonomy()[3].alts[6]), spec_taxonomy()[9].subs, 0) == -1);
    assert(fe_in(lower(spec_taxonomy()[3].alts[6]), spec_taxonomy()[10].subs, 0) == -1);
    lemma_lower_ne("Photography"@, "Movies"@, 0);
    lemma_lower_ne("Photography"@, "Music"@, 0);
    lemma_lower_ne("Photography"@, "Sports"@, 0);
    lemma_lower_ne("Photography"@, "Television"@, 0);
    lemma_lower_ne("Photography"@, "Video Games"@, 0);
    lemma_lower_ne("Photography"@, "Other Pop Culture"@, 0);
    assert(fe_in(lower(spec_taxonomy()[3].alts[6]), spec_taxonomy()[11].subs, 0) == -1);
    assert(fe_sub(lower(spec_taxonomy()[3].alts[6]), 0) == None::<(int, int)>);
    lemma_lower_ne("Photography"@, "Drama"@, 0);
    lemma_lower_ne("Photography"@, "Long Fiction"@, 0);
    lemma_lower_ne("Photography"@, "Poetry"@, 0);
    lemma_lower_ne("Photography"@, "Short Fiction"@, 0);
    lemma_lower_ne("Photography"@, "Misc Literature"@, 0);
    assert(fe_in(lower(spec_taxonomy()[3].alts[6]), spec_taxonomy()[0].alts, 0) == -1);
    assert(fe_in(lower(spec_taxonomy()[3].alts[6]), spec_taxonomy()[1].alts, 0) == -1);
    lemma_lower_ne("Photography"@, "Math"@, 0);
    lemma_lower_ne("Photography"@, "Astronomy"@, 0);
    lemma_lower_ne("Photography"@, "Computer Science"@, 0);
    lemma_lower_ne("Photography"@, "Earth Science"@, 0);
    lemma_lower_ne("Photography"@, "Engineering"@, 0);
    lemma_lower_ne("Photography"@, "Misc Science"@, 0);
    assert(fe_in(lower(spec_taxonomy()[3].alts[6]), spec_taxonomy()[2].alts, 0) == -1);
    lemma_lower_ne("Photography"@, "Architecture"@, 0);
    lemma_lower_ne("Photography"@, "Dance"@, 0);
    lemma_lower_ne("Photography"@, "Film"@, 0);
    lemma_lower_ne("Photography"@, "Jazz"@, 0);
    lemma_lower_ne("Photography"@, "Musicals"@, 0);
    lemma_lower_ne("Photography"@, "Opera"@, 0);
    assert(fe_in(lower(spec_taxonomy()[3].alts[6]), spec_taxonomy()[3].alts, 0) == 6);
    assert(crate::query::fe_alt(lower(spec_taxonomy()[3].alts[6]), 0) == Some((3int, 6int)));
}

proof fn alt_tok_misc_arts()
    ensures
        alt_resolves_exactly(3, 7),
{
    reveal_with_fuel(fe_in, 15);
    reveal_with_fuel(fe_sub, 14);
    reveal_with_fuel(crate::query::fe_alt, 14);
    reveal_strlit("Misc Arts");
    reveal_strlit("Literature");
    reveal_strlit("History");
    reveal_strlit("Science");
    reveal_strlit("Fine Arts");
    reveal_strlit("Religion");
    reveal_strlit("Mythology");
    reveal_strlit("Philosophy");
    reveal_strlit("Social Science");
    reveal_strlit("Current Events");
    reveal_strlit("Geography");
    reveal_strlit("Other Academic");
    reveal_strlit("Pop Culture");
    reveal_strlit("American Literature");
    reveal_strlit("British Literature");
    reveal_strlit("Classical Literature");
    reveal_strlit("European Literature");
    reveal_strlit("World Literature");
    reveal_strlit("Other Literature");
    reveal_strlit("American History");
    reveal_strlit("Ancient History");
    reveal_strlit("European History");
    reveal_strlit("World History");
    reveal_strlit("Other History");
    reveal_strlit("Biology");
    reveal_strlit("Chemistry");
    reveal_strlit("Physics");
    reveal_strlit("Other Science");
    reveal_strlit("Visual Fine Arts");
    reveal_strlit("Auditory Fine Arts");
    reveal_strlit("Other Fine Arts");
    reveal_strlit("Other Social Science");
    reveal_strlit("Movies");
    reveal_strlit("Music");
    reveal_strlit("Sports");
    reveal_strlit("Television");
    reveal_strlit("Video Games");
    reveal_strlit("Other Pop Culture");
    reveal_strlit("Drama");
    reveal_strlit("Long Fiction");
    reveal_strlit("Poetry");
    reveal_strlit("Short Fiction");
    reveal_strlit("Misc Literature");
    reveal_strlit("Math");
    reveal_strlit("Astronomy");
    reveal_strlit("Computer Science");
    reveal_strlit("Earth Science");
    reveal_strlit("Engineering");
    reveal_strlit("Misc Science");
    reveal_strlit("Architecture");
    reveal_strlit("Dance");
    reveal_strlit("Film");
    reveal_strlit("Jazz");
    reveal_strlit("Musicals");
    reveal_strlit("Opera");
    reveal_strlit("Photography");
    lemma_lower_ne("Misc Arts"@, "Literature"@, 0);
    lemma_lower_ne("Misc Arts"@, "History"@, 0);
    lemma_lower_ne("Misc Arts"@, "Science"@, 0);
    lemma_lower_ne("Misc Arts"@, "Fine Arts"@, 0);
    lemma_lower_ne("Misc Arts"@, "Religion"@, 0);
    lemma_lower_ne("Misc Arts"@, "Mythology"@, 1);
    lemma_lower_ne("Misc Arts"@, "Philosophy"@, 0);
    lemma_lower_ne("Misc Arts"@, "Social Science"@, 0);
    lemma_lower_ne("Misc Arts"@, "Current Events"@, 0);
    lemma_lower_ne("Misc Arts"@, "Geography"@, 0);
    lemma_lower_ne("Misc Arts"@, "Other Academic"@, 0);
    lemma_lower_ne("Misc Arts"@, "Pop Culture"@, 0);
    assert(fe_in(lower(spec_taxonomy()[3].alts[7]), main_names(), 0) == -1);
    lemma_lower_ne("Misc Arts"@, "American Literature"@, 0);
    lemma_lower_ne("Misc Arts"@, "British Literature"@, 0);
    lemma_lower_ne("Misc Arts"@, "Classical Literature"@, 0);
    lemma_lower_ne("Misc Arts"@, "European Literature"@, 0);
    lemma_lower_ne("Misc Arts"@, "World Literature"@, 0);
    lemma_lower_ne("Misc Arts"@, "Other Literature"@, 0);
    assert(fe_in(lower(spec_taxonomy()[3].alts[7]), spec_taxonomy()[0].subs, 0) == -1);
    lemma_lower_ne("Misc Arts"@, "American History"@, 0);
    lemma_lower_ne("Misc Arts"@, "Ancient History"@, 0);
    lemma_lower_ne("Misc Arts"@, "European History"@, 0);
    lemma_lower_ne("Misc Arts"@, "World History"@, 0);
    lemma_lower_ne("Misc Arts"@, "Other History"@, 0);
    assert(fe_in(lower(spec_taxonomy()[3].alts[7]), spec_taxonomy()[1].subs, 0) == -1);
    lemma_lower_ne("Misc Arts"@, "Biology"@, 0);
    lemma_lower_ne("Misc Arts"@, "Chemistry"@, 0);
    lemma_lower_ne("Misc Arts"@, "Physics"@, 0);
    lemma_lower_ne("Misc Arts"@, "Other Science"@, 0);
    assert(fe_in(lower(spec_taxonomy()[3].alts[7]), spec_taxonomy()[2].subs, 0) == -1);
    lemma_lower_ne("Misc Arts"@, "Visual Fine Arts"@, 0);
    lemma_lower_ne("Misc Arts"@, "Auditory Fine Arts"@, 0);
    lemma_lower_ne("Misc Arts"@, "Other Fine Arts"@, 0);
    assert(fe_in(lower(spec_taxonomy()[3].alts[7]), spec_taxonomy()[3].subs, 0) == -1);
    assert(fe_in(lower(spec_taxonomy()[3].alts[7]), spec_taxonomy()[4].subs, 0) == -1);
    assert(fe_in(lower(spec_taxonomy()[3].alts[7]), spec_taxonomy()[5].subs, 0) == -1);
    assert(fe_in(lower(spec_taxonomy()[3].alts[7]), spec_taxonomy()[6].subs, 0) == -1);
    lemma_lower_ne("Misc Arts"@, "Other Social Science"@, 0);
    assert(fe_in(lower(spec_taxonomy()[3].alts[7]), spec_taxonomy()[7].subs, 0) == -1);
    assert(fe_in(lower(spec_taxonomy()[3].alts[7]), spec_taxonomy()[8].subs, 0) == -1);
    assert(fe_in(lower(spec_taxonomy()[3].alts[7]), spec_taxonomy()[9].subs, 0) == -1);
    assert(fe_in(lower(spec_taxonomy()[3].alts[7]), spec_taxonomy()[10].subs, 0) == -1);
    lemma_lower_ne("Misc Arts"@, "Movies"@, 0);
    lemma_lower_ne("Misc Arts"@, "Music"@, 0);
    lemma_lower_ne("Misc Arts"@, "Sports"@, 0);
    lemma_lower_ne("Misc Arts"@, "Television"@, 0);
    lemma_lower_ne("Misc Arts"@, "Video Games"@, 0);
    lemma_lower_ne("Misc Arts"@, "Other Pop Culture"@, 0);
    assert(fe_in(lower(spec_taxonomy()[3].alts[7]), spec_taxonomy()[11].subs, 0) == -1);
    assert(fe_sub(lower(spec_taxonomy()[3].alts[7]), 0) == None::<(int, int)>);
    lemma_lower_ne("Misc Arts"@, "Drama"@, 0);
    lemma_lower_ne("Misc Arts"@, "Long Fiction"@, 0);
    lemma_lower_ne("Misc Arts"@, "Poetry"@, 0);
    lemma_lower_ne("Misc Arts"@, "Short Fiction"@, 0);
    lemma_lower_ne("Misc Arts"@, "Misc Literature"@, 0);
    assert(fe_in(lower(spec_taxonomy()[3].alts[7]), spec_taxonomy()[0].alts, 0) == -1);
    assert(fe_in(lower(spec_taxonomy()[3].alts[7]), spec_taxonomy()[1].alts, 0) == -1);
    lemma_lower_ne("Misc Arts"@, "Math"@, 0);
    lemma_lower_ne("Misc Arts"@, "Astronomy"@, 0);
    lemma_lower_ne("Misc Arts"@, "Computer Science"@, 0);
    lemma_lower_ne("Misc Arts"@, "Earth Science"@, 0);
    lemma_lower_ne("Misc Arts"@, "Engineering"@, 0);
    lemma_lower_ne("Misc Arts"@, "Misc Science"@, 0);
    assert(fe_in(lower(spec_taxonomy()[3].alts[7]), spec_taxonomy()[2].alts, 0) == -1);
    lemma_lower_ne("Misc Arts"@, "Architecture"@, 0);
    lemma_lower_ne("Misc Arts"@, "Dance"@, 0);
    lemma_lower_ne("Misc Arts"@, "Film"@, 0);
    lemma_lower_ne("Misc Arts"@, "Jazz"@, 0);
    lemma_lower_ne("Misc Arts"@, "Musicals"@, 0);
    lemma_lower_ne("Misc Arts"@, "Opera"@, 0);
    lemma_lower_ne("Misc Arts"@, "Photography"@, 0);
    assert(fe_in(lower(spec_taxonomy()[3].alts[7]), spec_taxonomy()[3].alts, 0) == 7);
    assert(crate::query::fe_alt(lower(spec_taxonomy()[3].alts[7]), 0) == Some((3int, 7int)));
}

proof fn alt_tok_anthropology()
    ensures
        alt_resolves_exactly(7, 0),
{
    reveal_with_fuel(fe_in, 15);
    reveal_with_fuel(fe_sub, 14);
    reveal_with_fuel(crate::query::fe_alt, 14);
    reveal_strlit("Anthropology");
    reveal_strlit("Literature");
    reveal_strlit("History");
    reveal_strlit("Science");
    reveal_strlit("Fine Arts");
    reveal_strlit("Religion");
    reveal_strlit("Mythology");
    reveal_strlit("Philosophy");
    reveal_strlit("Social Science");
    reveal_strlit("Current Events");
    reveal_strlit("Geography");
    reveal_strlit("Other Academic");
    reveal_strlit("Pop Culture");
    reveal_strlit("American Literature");
    reveal_strlit("British Literature");
    reveal_strlit("Classical Literature");
    reveal_strlit("European Literature");
    reveal_strlit("World Literature");
    reveal_strlit("Other Literature");
    reveal_strlit("American History");
    reveal_strlit("Ancient History");
    reveal_strlit("European History");
    reveal_strlit("World History");
    reveal_strlit("Other History");
    reveal_strlit("Biology");
    reveal_strlit("Chemistry");
    reveal_strlit("Physics");
    reveal_strlit("Other Science");
    reveal_strlit("Visual Fine Arts");
    reveal_strlit("Auditory Fine Arts");
    reveal_strlit("Other Fine Arts");
    reveal_strlit("Other Social Science");
    reveal_strlit("Movies");
    reveal_strlit("Music");
    reveal_strlit("Sports");
    reveal_strlit("Television");
    reveal_strlit("Video Games");
    reveal_strlit("Other Pop Culture");
    reveal_strlit("Drama");
    reveal_strlit("Long Fiction");
    reveal_strlit("Poetry");
    reveal_strlit("Short Fiction");
    reveal_strlit("Misc Literature");
    reveal_strlit("Math");
    reveal_strlit("Astronomy");
    reveal_strlit("Computer Science");
    reveal_strlit("Earth Science");
    reveal_strlit("Engineering");
    reveal_strlit("Misc Science");
    reveal_strlit("Architecture");
    reveal_strlit("Dance");
    reveal_strlit("Film");
    reveal_strlit("Jazz");
    reveal_strlit("Musicals");
    reveal_strlit("Opera");
    reveal_strlit("Photography");
    reveal_strlit("Misc Arts");
    lemma_lower_ne("Anthropology"@, "Literature"@, 0);
    lemma_lower_ne("Anthropology"@, "History"@, 0);
    lemma_lower_ne("Anthropology"@, "Science"@, 0);
    lemma_lower_ne("Anthropology"@, "Fine Arts"@, 0);
    lemma_lower_ne("Anthropology"@, "Religion"@, 0);
    lemma_lower_ne("Anthropology"@, "Mythology"@, 0);
    lemma_lower_ne("Anthropology"@, "Philosophy"@, 0);
    lemma_lower_ne("Anthropology"@, "Social Science"@, 0);
    lemma_lower_ne("Anthropology"@, "Current Events"@, 0);
    lemma_lower_ne("Anthropology"@, "Geography"@, 0);
    lemma_lower_ne("Anthropology"@, "Other Academic"@, 0);
    lemma_lower_ne("Anthropology"@, "Pop Culture"@, 0);
    assert(fe_in(lower(spec_taxonomy()[7].alts[0]), main_names(), 0) == -1);
    lemma_lower_ne("Anthropology"@, "American Literature"@, 0);
    lemma_lower_ne("Anthropology"@, "British Literature"@, 0);
    lemma_lower_ne("Anthropology"@, "Classical Literature"@, 0);
    lemma_lower_ne("Anthropology"@, "European Literature"@, 0);
    lemma_lower_ne("Anthropology"@, "World Literature"@, 0);
    lemma_lower_ne("Anthropology"@, "Other Literature"@, 0);
    assert(fe_in(lower(spec_taxonomy()[7].alts[0]), spec_taxonomy()[0].subs, 0) == -1);
    lemma_lower_ne("Anthropology"@, "American History"@, 0);
    lemma_lower_ne("Anthropology"@, "Ancient History"@, 0);
    lemma_lower_ne("Anthropology"@, "European History"@, 0);
    lemma_lower_ne("Anthropology"@, "World History"@, 0);
    lemma_lower_ne("Anthropology"@, "Other History"@, 0);
    assert(fe_in(lower(spec_taxonomy()[7].alts[0]), spec_taxonomy()[1].subs, 0) == -1);
    lemma_lower_ne("Anthropology"@, "Biology"@, 0);
    lemma_lower_ne("Anthropology"@, "Chemistry"@, 0);
    lemma_lower_ne("Anthropology"@, "Physics"@, 0);
    lemma_lower_ne("Anthropology"@, "Other Science"@, 0);
    assert(fe_in(lower(spec_taxonomy()[7].alts[0]), spec_taxonomy()[2].subs, 0) == -1);
    lemma_lower_ne("Anthropology"@, "Visual Fine Arts"@, 0);
    lemma_lower_ne("Anthropology"@, "Auditory Fine Arts"@, 0);
    lemma_lower_ne("Anthropology"@, "Other Fine Arts"@, 0);
    assert(fe_in(lower(spec_taxonomy()[7].alts[0]), spec_taxonomy()[3].subs, 0) == -1);
    assert(fe_in(lower(spec_taxonomy()[7].alts[0]), spec_taxonomy()[4].subs, 0) == -1);
    assert(fe_in(lower(spec_taxonomy()[7].alts[0]), spec_taxonomy()[5].subs, 0) == -1);
    assert(fe_in(lower(spec_taxonomy()[7].alts[0]), spec_taxonomy()[6].subs, 0) == -1);
    lemma_lower_ne("Anthropology"@, "Other Social Science"@, 0);
    assert(fe_in(lower(spec_taxonomy()[7].alts[0]), spec_taxonomy()[7].subs, 0) == -1);
    assert(fe_in(lower(spec_taxonomy()[7].alts[0]), spec_taxonomy()[8].subs, 0) == -1);
    assert(fe_in(lower(spec_taxonomy()[7].alts[0]), spec_taxonomy()[9].subs, 0) == -1);
    assert(fe_in(lower(spec_taxonomy()[7].alts[0]), spec_taxonomy()[10].subs, 0) == -1);
    lemma_lower_ne("Anthropology"@, "Movies"@, 0);
    lemma_lower_ne("Anthropology"@, "Music"@, 0);
    lemma_lower_ne("Anthropology"@, "Sports"@, 0);
    lemma_lower_ne("Anthropology"@, "Television"@, 0);
    lemma_lower_ne("Anthropology"@, "Video Games"@, 0);
    lemma_lower_ne("Anthropology"@, "Other Pop Culture"@, 0);
    assert(fe_in(lower(spec_taxonomy()[7].alts[0]), spec_taxonomy()[11].subs, 0) == -1);
    assert(fe_sub(lower(spec_taxonomy()[7].alts[0]), 0) == None::<(int, int)>);
    lemma_lower_ne("Anthropology"@, "Drama"@, 0);
    lemma_lower_ne("Anthropology"@, "Long Fiction"@, 0);
    lemma_lower_ne("Anthropology"@, "Poetry"@, 0);
    lemma_lower_ne("Anthropology"@, "Short Fiction"@, 0);
    lemma_lower_ne("Anthropology"@, "Misc Literature"@, 0);
    assert(fe_in(lower(spec_taxonomy()[7].alts[0]), spec_taxonomy()[0].alts, 0) == -1);
    assert(fe_in(lower(spec_taxonomy()[7].alts[0]), spec_taxonomy()[1].alts, 0) == -1);
    lemma_lower_ne("Anthropology"@, "Math"@, 0);
    lemma_lower_ne("Anthropology"@, "Astronomy"@, 0);
    lemma_lower_ne("Anthropology"@, "Computer Science"@, 0);
    lemma_lower_ne("Anthropology"@, "Earth Science"@, 0);
    lemma_lower_ne("Anthropology"@, "Engineering"@, 0);
    lemma_lower_ne("Anthropology"@, "Misc Science"@, 0);
    assert(fe_in(lower(spec_taxonomy()[7].alts[0]), spec_taxonomy()[2].alts, 0) == -1);
    lemma_lower_ne("Anthropology"@, "Architecture"@, 1);
    lemma_lower_ne("Anthropology"@, "Dance"@, 0);
    lemma_lower_ne("Anthropology"@, "Film"@, 0);
    lemma_lower_ne("Anthropology"@, "Jazz"@, 0);
    lemma_lower_ne("Anthropology"@, "Musicals"@, 0);
    lemma_lower_ne("Anthropology"@, "Opera"@, 0);
    lemma_lower_ne("Anthropology"@, "Photography"@, 0);
    lemma_lower_ne("Anthropology"@, "Misc Arts"@, 0);
    assert(fe_in(lower(spec_taxonomy()[7].alts[0]), spec_taxonomy()[3].alts, 0) == -1);
    assert(fe_in(lower(spec_taxonomy()[7].alts[0]), spec_taxonomy()[4].alts, 0) == -1);
    assert(fe_in(lower(spec_taxonomy()[7].alts[0]), spec_taxonomy()[5].alts, 0) == -1);
    assert(fe_in(lower(spec_taxonomy()[7].alts[0]), spec_taxonomy()[6].alts, 0) == -1);
    assert(fe_in(lower(spec_taxonomy()[7].alts[0]), spec_taxonomy()[7].alts, 0) == 0);
    assert(crate::query::fe_alt(lower(spec_taxonomy()[7].alts[0]), 0) == Some((7int, 0int)));
}

proof fn alt_tok_economics()
    ensures
        alt_resolves_exactly(7, 1),
{
    reveal_with_fuel(fe_in, 15);
    reveal_with_fuel(fe_sub, 14);
    reveal_with_fuel(crate::query::fe_alt, 14);
    reveal_strlit("Economics");
    reveal_strlit("Literature");
    reveal_strlit("History");
    reveal_strlit("Science");
    reveal_strlit("Fine Arts");
    reveal_strlit("Religion");
    reveal_strlit("Mythology");
    reveal_strlit("Philosophy");
    reveal_strlit("Social Science");
    reveal_strlit("Current Events");
    reveal_strlit("Geography");
    reveal_strlit("Other Academic");
    reveal_strlit("Pop Culture");
    reveal_strlit("American Literature");
    reveal_strlit("British Literature");
    reveal_strlit("Classical Literature");
    reveal_strlit("European Literature");
    reveal_strlit("World Literature");
    reveal_strlit("Other Literature");
    reveal_strlit("American History");
    reveal_strlit("Ancient History");
    reveal_strlit("European History");
    reveal_strlit("World History");
    reveal_strlit("Other History");
    reveal_strlit("Biology");
    reveal_strlit("Chemistry");
    reveal_strlit("Physics");
    reveal_strlit("Other Science");
    reveal_strlit("Visual Fine Arts");
    reveal_strlit("Auditory Fine Arts");
    reveal_strlit("Other Fine Arts");
    reveal_strlit("Other Social Science");
    reveal_strlit("Movies");
    reveal_strlit("Music");
    reveal_strlit("Sports");
    reveal_strlit("Television");
    reveal_strlit("Video Games");
    reveal_strlit("Other Pop Culture");
    reveal_strlit("Drama");
    reveal_strlit("Long Fiction");
    reveal_strlit("Poetry");
    reveal_strlit("Short Fiction");
    reveal_strlit("Misc Literature");
    reveal_strlit("Math");
    reveal_strlit("Astronomy");
    reveal_strlit("Computer Science");
    reveal_strlit("Earth Science");
    reveal_strlit("Engineering");
    reveal_strlit("Misc Science");
    reveal_strlit("Architecture");
    reveal_strlit("Dance");
    reveal_strlit("Film");
    reveal_strlit("Jazz");
    reveal_strlit("Musicals");
    reveal_strlit("Opera");
    reveal_strlit("Photography");
    reveal_strlit("Misc Arts");
    reveal_strlit("Anthropology");
    lemma_lower_ne("Economics"@, "Literature"@, 0);
    lemma_lower_ne("Economics"@, "History"@, 0);
    lemma_lower_ne("Economics"@, "Science"@, 0);
    lemma_lower_ne("Economics"@, "Fine Arts"@, 0);
    lemma_lower_ne("Economics"@, "Religion"@, 0);
    lemma_lower_ne("Economics"@, "Mythology"@, 0);
    lemma_lower_ne("Economics"@, "Philosophy"@, 0);
    lemma_lower_ne("Economics"@, "Social Science"@, 0);
    lemma_lower_ne("Economics"@, "Current Events"@, 0);
    lemma_lower_ne("Economics"@, "Geography"@, 0);
    lemma_lower_ne("Economics"@, "Other Academic"@, 0);
    lemma_lower_ne("Economics"@, "Pop Culture"@, 0);
    assert(fe_in(lower(spec_taxonomy()[7].alts[1]), main_names(), 0) == -1);
    lemma_lower_ne("Economics"@, "American Literature"@, 0);
    lemma_lower_ne("Economics"@, "British Literature"@, 0);
    lemma_lower_ne("Economics"@, "Classical Literature"@, 0);
    lemma_lower_ne("Economics"@, "European Literature"@, 0);
    lemma_lower_ne("Economics"@, "World Literature"@, 0);
    lemma_lower_ne("Economics"@, "Other Literature"@, 0);
    assert(fe_in(lower(spec_taxonomy()[7].alts[1]), spec_taxonomy()[0].subs, 0) == -1);
    lemma_lower_ne("Economics"@, "American History"@, 0);
    lemma_lower_ne("Economics"@, "Ancient History"@, 0);
    lemma_lower_ne("Economics"@, "European History"@, 0);
    lemma_lower_ne("Economics"@, "World History"@, 0);
    lemma_lower_ne("Economics"@, "Other History"@, 0);
    assert(fe_in(lower(spec_taxonomy()[7].alts[1]), spec_taxonomy()[1].subs, 0) == -1);
    lemma_lower_ne("Economics"@, "Biology"@, 0);
    lemma_lower_ne("Economics"@, "Chemistry"@, 0);
    lemma_lower_ne("Economics"@, "Physics"@, 0);
    lemma_lower_ne("Economics"@, "Other Science"@, 0);
    assert(fe_in(lower(spec_taxonomy()[7].alts[1]), spec_taxonomy()[2].subs, 0) == -1);
    lemma_lower_ne("Economics"@, "Visual Fine Arts"@, 0);
    lemma_lower_ne("Economics"@, "Auditory Fine Arts"@, 0);
    lemma_lower_ne("Economics"@, "Other Fine Arts"@, 0);
    assert(fe_in(lower(spec_taxonomy()[7].alts[1]), spec_taxonomy()[3].subs, 0) == -1);
    assert(fe_in(lower(spec_taxonomy()[7].alts[1]), spec_taxonomy()[4].subs, 0) == -1);
    assert(fe_in(lower(spec_taxonomy()[7].alts[1]), spec_taxonomy()[5].subs, 0) == -1);
    assert(fe_in(lower(spec_taxonomy()[7].alts[1]), spec_taxonomy()[6].subs, 0) == -1);
    lemma_lower_ne("Economics"@, "Other Social Science"@, 0);
    assert(fe_in(lower(spec_taxonomy()[7].alts[1]), spec_taxonomy()[7].subs, 0) == -1);
    assert(fe_in(lower(spec_taxonomy()[7].alts[1]), spec_taxonomy()[8].subs, 0) == -1);
    assert(fe_in(lower(spec_taxonomy()[7].alts[1]), spec_taxonomy()[9].subs, 0) == -1);
    assert(fe_in(lower(spec_taxonomy()[7].alts[1]), spec_taxonomy()[10].subs, 0) == -1);
    lemma_lower_ne("Economics"@, "Movies"@, 0);
    lemma_lower_ne("Economics"@, "Music"@, 0);
    lemma_lower_ne("Economics"@, "Sports"@, 0);
    lemma_lower_ne("Economics"@, "Television"@, 0);
    lemma_lower_ne("Economics"@, "Video Games"@, 0);
    lemma_lower_ne("Economics"@, "Other Pop Culture"@, 0);
    assert(fe_in(lower(spec_taxonomy()[7].alts[1]), spec_taxonomy()[11].subs, 0) == -1);
    assert(fe_sub(lower(spec_taxonomy()[7].alts[1]), 0) == None::<(int, int)>);
    lemma_lower_ne("Economics"@, "Drama"@, 0);
    lemma_lower_ne("Economics"@, "Long Fiction"@, 0);
    lemma_lower_ne("Economics"@, "Poetry"@, 0);
    lemma_lower_ne("Economics"@, "Short Fiction"@, 0);
    lemma_lower_ne("Economics"@, "Misc Literature"@, 0);
    assert(fe_in(lower(spec_taxonomy()[7].alts[1]), spec_taxonomy()[0].alts, 0) == -1);
    assert(fe_in(lower(spec_taxonomy()[7].alts[1]), spec_taxonomy()[1].alts, 0) == -1);
    lemma_lower_ne("Economics"@, "Math"@, 0);
    lemma_lower_ne("Economics"@, "Astronomy"@, 0);
    lemma_lower_ne("Economics"@, "Computer Science"@, 0);
    lemma_lower_ne("Economics"@, "Earth Science"@, 0);
    lemma_lower_ne("Economics"@, "Engineering"@, 0);
    lemma_lower_ne("Economics"@, "Misc Science"@, 0);
    assert(fe_in(lower(spec_taxonomy()[7].alts[1]), spec_taxonomy()[2].alts, 0) == -1);
    lemma_lower_ne("Economics"@, "Architecture"@, 0);
    lemma_lower_ne("Economics"@, "Dance"@, 0);
    lemma_lower_ne("Economics"@, "Film"@, 0);
    lemma_lower_ne("Economics"@, "Jazz"@, 0);
    lemma_lower_ne("Economics"@, "Musicals"@, 0);
    lemma_lower_ne("Economics"@, "Opera"@, 0);
    lemma_lower_ne("Economics"@, "Photography"@, 0);
    lemma_lower_ne("Economics"@, "Misc Arts"@, 0);
    assert(fe_in(lower(spec_taxonomy()[7].alts[1]), spec_taxonomy()[3].alts, 0) == -1);
    assert(fe_in(lower(spec_taxonomy()[7].alts[1]), spec_taxonomy()[4].alts, 0) == -1);
    assert(fe_in(lower(spec_taxonomy()[7].alts[1]), spec_taxonomy()[5].alts, 0) == -1);
    assert(fe_in(lower(spec_taxonomy()[7].alts[1]), spec_taxonomy()[6].alts, 0) == -1);
    lemma_lower_ne("Economics"@, "Anthropology"@, 0);
    assert(fe_in(lower(spec_taxonomy()[7].alts[1]), spec_taxonomy()[7].alts, 0) == 1);
    assert(crate::query::fe_alt(lower(spec_taxonomy()[7].alts[1]), 0) == Some((7int, 1int)));
}

proof fn alt_tok_linguistics()
    ensures
        alt_resolves_exactly(7, 2),
{
    reveal_with_fuel(fe_in, 15);
    reveal_with_fuel(fe_sub, 14);
    reveal_with_fuel(crate::query::fe_alt, 14);
    reveal_strlit("Linguistics");
    reveal_strlit("Literature");
    reveal_strlit("History");
    reveal_strlit("Science");
    reveal_strlit("Fine Arts");
    reveal_strlit("Religion");
    reveal_strlit("Mythology");
    reveal_strlit("Philosophy");
    reveal_strlit("Social Science");
    reveal_strlit("Current Events");
    reveal_strlit("Geography");
    reveal_strlit("Other Academic");
    reveal_strlit("Pop Culture");
    reveal_strlit("American Literature");
    reveal_strlit("British Literature");
    reveal_strlit("Classical Literature");
    reveal_strlit("European Literature");
    reveal_strlit("World Literature");
    reveal_strlit("Other Literature");
    reveal_strlit("American History");
    reveal_strlit("Ancient History");
    reveal_strlit("European History");
    reveal_strlit("World History");
    reveal_strlit("Other History");
    reveal_strlit("Biology");
    reveal_strlit("Chemistry");
    reveal_strlit("Physics");
    reveal_strlit("Other Science");
    reveal_strlit("Visual Fine Arts");
    reveal_strlit("Auditory Fine Arts");
    reveal_strlit("Other Fine Arts");
    reveal_strlit("Other Social Science");
    reveal_strlit("Movies");
    reveal_strlit("Music");
    reveal_strlit("Sports");
    reveal_strlit("Television");
    reveal_strlit("Video Games");
    reveal_strlit("Other Pop Culture");
    reveal_strlit("Drama");
    reveal_strlit("Long Fiction");
    reveal_strlit("Poetry");
    reveal_strlit("Short Fiction");
    reveal_strlit("Misc Literature");
    reveal_strlit("Math");
    reveal_strlit("Astronomy");
    reveal_strlit("Computer Science");
    reveal_strlit("Earth Science");
    reveal_strlit("Engineering");
    reveal_strlit("Misc Science");
    reveal_strlit("Architecture");
    reveal_strlit("Dance");
    reveal_strlit("Film");
    reveal_strlit("Jazz");
    reveal_strlit("Musicals");
    reveal_strlit("Opera");
    reveal_strlit("Photography");
    reveal_strlit("Misc Arts");
    reveal_strlit("Anthropology");
    reveal_strlit("Economics");
    lemma_lower_ne("Linguistics"@, "Literature"@, 0);
    lemma_lower_ne("Linguistics"@, "History"@, 0);
    lemma_lower_ne("Linguistics"@, "Science"@, 0);
    lemma_lower_ne("Linguistics"@, "Fine Arts"@, 0);
    lemma_lower_ne("Linguistics"@, "Religion"@, 0);
    lemma_lower_ne("Linguistics"@, "Mythology"@, 0);
    lemma_lower_ne("Linguistics"@, "Philosophy"@, 0);
    lemma_lower_ne("Linguistics"@, "Social Science"@, 0);
    lemma_lower_ne("Linguistics"@, "Current Events"@, 0);
    lemma_lower_ne("Linguistics"@, "Geography"@, 0);
    lemma_lower_ne("Linguistics"@, "Other Academic"@, 0);
    lemma_lower_ne("Linguistics"@, "Pop Culture"@, 0);
    assert(fe_in(lower(spec_taxonomy()[7].alts[2]), main_names(), 0) == -1);
    lemma_lower_ne("Linguistics"@, "American Literature"@, 0);
    lemma_lower_ne("Linguistics"@, "British Literature"@, 0);
    lemma_lower_ne("Linguistics"@, "Classical Literature"@, 0);
    lemma_lower_ne("Linguistics"@, "European Literature"@, 0);
    lemma_lower_ne("Linguistics"@, "World Literature"@, 0);
    lemma_lower_ne("Linguistics"@, "Other Literature"@, 0);
    assert(fe_in(lower(spec_taxonomy()[7].alts[2]), spec_taxonomy()[0].subs, 0) == -1);
    lemma_lower_ne("Linguistics"@, "American History"@, 0);
    lemma_lower_ne("Linguistics"@, "Ancient History"@, 0);
    lemma_lower_ne("Linguistics"@, "European History"@, 0);
    lemma_lower_ne("Linguistics"@, "World History"@, 0);
    lemma_lower_ne("Linguistics"@, "Other History"@, 0);
    assert(fe_in(lower(spec_taxonomy()[7].alts[2]), spec_taxonomy()[1].subs, 0) == -1);
    lemma_lower_ne("Linguistics"@, "Biology"@, 0);
    lemma_lower_ne("Linguistics"@, "Chemistry"@, 0);
    lemma_lower_ne("Linguistics"@, "Physics"@, 0);
    lemma_lower_ne("Linguistics"@, "Other Science"@, 0);
    assert(fe_in(lower(spec_taxonomy()[7].alts[2]), spec_taxonomy()[2].subs, 0) == -1);
    lemma_lower_ne("Linguistics"@, "Visual Fine Arts"@, 0);
    lemma_lower_ne("Linguistics"@, "Auditory Fine Arts"@, 0);
    lemma_lower_ne("Linguistics"@, "Other Fine Arts"@, 0);
    assert(fe_in(lower(spec_taxonomy()[7].alts[2]), spec_taxonomy()[3].subs, 0) == -1);
    assert(fe_in(lower(spec_taxonomy()[7].alts[2]), spec_taxonomy()[4].subs, 0) == -1);
    assert(fe_in(lower(spec_taxonomy()[7].alts[2]), spec_taxonomy()[5].subs, 0) == -1);
    assert(fe_in(lower(spec_taxonomy()[7].alts[2]), spec_taxonomy()[6].subs, 0) == -1);
    lemma_lower_ne("Linguistics"@, "Other Social Science"@, 0);
    assert(fe_in(lower(spec_taxonomy()[7].alts[2]), spec_taxonomy()[7].subs, 0) == -1);
    assert(fe_in(lower(spec_taxonomy()[7].alts[2]), spec_taxonomy()[8].subs, 0) == -1);
    assert(fe_in(lower(spec_taxonomy()[7].alts[2]), spec_taxonomy()[9].subs, 0) == -1);
    assert(fe_in(lower(spec_taxonomy()[7].alts[2]), spec_taxonomy()[10].subs, 0) == -1);
    lemma_lower_ne("Linguistics"@, "Movies"@, 0);
    lemma_lower_ne("Linguistics"@, "Music"@, 0);
    lemma_lower_ne("Linguistics"@, "Sports"@, 0);
    lemma_lower_ne("Linguistics"@, "Television"@, 0);
    lemma_lower_ne("Linguistics"@, "Video Games"@, 0);
    lemma_lower_ne("Linguistics"@, "Other Pop Culture"@, 0);
    assert(fe_in(lower(spec_taxonomy()[7].alts[2]), spec_taxonomy()[11].subs, 0) == -1);
    assert(fe_sub(lower(spec_taxonomy()[7].alts[2]), 0) == None::<(int, int)>);
    lemma_lower_ne("Linguistics"@, "Drama"@, 0);
    lemma_lower_ne("Linguistics"@, "Long Fiction"@, 0);
    lemma_lower_ne("Linguistics"@, "Poetry"@, 0);
    lemma_lower_ne("Linguistics"@, "Short Fiction"@, 0);
    lemma_lower_ne("Linguistics"@, "Misc Literature"@, 0);
    assert(fe_in(lower(spec_taxonomy()[7].alts[2]), spec_taxonomy()[0].alts, 0) == -1);
    assert(fe_in(lower(spec_taxonomy()[7].alts[2]), spec_taxonomy()[1].alts, 0) == -1);
    lemma_lower_ne("Linguistics"@, "Math"@, 0);
    lemma_lower_ne("Linguistics"@, "Astronomy"@, 0);
    lemma_lower_ne("Linguistics"@, "Computer Science"@, 0);
    lemma_lower_ne("Linguistics"@, "Earth Science"@, 0);
    lemma_lower_ne("Linguistics"@, "Engineering"@, 0);
    lemma_lower_ne("Linguistics"@, "Misc Science"@, 0);
    assert(fe_in(lower(spec_taxonomy()[7].alts[2]), spec_taxonomy()[2].alts, 0) == -1);
    lemma_lower_ne("Linguistics"@, "Architecture"@, 0);
    lemma_lower_ne("Linguistics"@, "Dance"@, 0);
    lemma_lower_ne("Linguistics"@, "Film"@, 0);
    lemma_lower_ne("Linguistics"@, "Jazz"@, 0);
    lemma_lower_ne("Linguistics"@, "Musicals"@, 0);
    lemma_lower_ne("Linguistics"@, "Opera"@, 0);
    lemma_lower_ne("Linguistics"@, "Photography"@, 0);
    lemma_lower_ne("Linguistics"@, "Misc Arts"@, 0);
    assert(fe_in(lower(spec_taxonomy()[7].alts[2]), spec_taxonomy()[3].alts, 0) == -1);
    assert(fe_in(lower(spec_taxonomy()[7].alts[2]), spec_taxonomy()[4].alts, 0) == -1);
    assert(fe_in(lower(spec_taxonomy()[7].alts[2]), spec_taxonomy()[5].alts, 0) == -1);
    assert(fe_in(lower(spec_taxonomy()[7].alts[2]), spec_taxonomy()[6].alts, 0) == -1);
    lemma_lower_ne("Linguistics"@, "Anthropology"@, 0);
    lemma_lower_ne("Linguistics"@, "Economics"@, 0);
    assert(fe_in(lower(spec_taxonomy()[7].alts[2]), spec_taxonomy()[7].alts, 0) == 2);
    assert(crate::query::fe_alt(lower(spec_taxonomy()[7].alts[2]), 0) == Some((7int, 2int)));
}

proof fn alt_tok_psychology()
    ensures
        alt_resolves_exactly(7, 3),
{
    reveal_with_fuel(fe_in, 15);
    reveal_with_fuel(fe_sub, 14);
    reveal_with_fuel(crate::query::fe_alt, 14);
    reveal_strlit("Psychology");
    reveal_strlit("Literature");
    reveal_strlit("History");
    reveal_strlit("Science");
    reveal_strlit("Fine Arts");
    reveal_strlit("Religion");
    reveal_strlit("Mythology");
    reveal_strlit("Philosophy");
    reveal_strlit("Social Science");
    reveal_strlit("Current Events");
    reveal_strlit("Geography");
    reveal_strlit("Other Academic");
    reveal_strlit("Pop Culture");
    reveal_strlit("American Literature");
    reveal_strlit("British Literature");
    reveal_strlit("Classical Literature");
    reveal_strlit("European Literature");
    reveal_strlit("World Literature");
    reveal_strlit("Other Literature");
    reveal_strlit("American History");
    reveal_strlit("Ancient History");
    reveal_strlit("European History");
    reveal_strlit("World History");
    reveal_strlit("Other History");
    reveal_strlit("Biology");
    reveal_strlit("Chemistry");
    reveal_strlit("Physics");
    reveal_strlit("Other Science");
    reveal_strlit("Visual Fine Arts");
    reveal_strlit("Auditory Fine Arts");
    reveal_strlit("Other Fine Arts");
    reveal_strlit("Other Social Science");
    reveal_strlit("Movies");
    reveal_strlit("Music");
    reveal_strlit("Sports");
    reveal_strlit("Television");
    reveal_strlit("Video Games");
    reveal_strlit("Other Pop Culture");
    reveal_strlit("Drama");
    reveal_strlit("Long Fiction");
    reveal_strlit("Poetry");
    reveal_strlit("Short Fiction");
    reveal_strlit("Misc Literature");
    reveal_strlit("Math");
    reveal_strlit("Astronomy");
    reveal_strlit("Computer Science");
    reveal_strlit("Earth Science");
    reveal_strlit("Engineering");
    reveal_strlit("Misc Science");
    reveal_strlit("Architecture");
    reveal_strlit("Dance");
    reveal_strlit("Film");
    reveal_strlit("Jazz");
    reveal_strlit("Musicals");
    reveal_strlit("Opera");
    reveal_strlit("Photography");
    reveal_strlit("Misc Arts");
    reveal_strlit("Anthropology");
    reveal_strlit("Economics");
    reveal_strlit("Linguistics");
    lemma_lower_ne("Psychology"@, "Literature"@, 0);
    lemma_lower_ne("Psychology"@, "History"@, 0);
    lemma_lower_ne("Psychology"@, "Science"@, 0);
    lemma_lower_ne("Psychology"@, "Fine Arts"@, 0);
    lemma_lower_ne("Psychology"@, "Religion"@, 0);
    lemma_lower_ne("Psychology"@, "Mythology"@, 0);
    lemma_lower_ne("Psychology"@, "Philosophy"@, 1);
    lemma_lower_ne("Psychology"@, "Social Science"@, 0);
    lemma_lower_ne("Psychology"@, "Current Events"@, 0);
    lemma_lower_ne("Psychology"@, "Geography"@, 0);
    lemma_lower_ne("Psychology"@, "Other Academic"@, 0);
    lemma_lower_ne("Psychology"@, "Pop Culture"@, 0);
    assert(fe_in(lower(spec_taxonomy()[7].alts[3]), main_names(), 0) == -1);
    lemma_lower_ne("Psychology"@, "American Literature"@, 0);
    lemma_lower_ne("Psychology"@, "British Literature"@, 0);
    lemma_lower_ne("Psychology"@, "Classical Literature"@, 0);
    lemma_lower_ne("Psychology"@, "European Literature"@, 0);
    lemma_lower_ne("Psychology"@, "World Literature"@, 0);
    lemma_lower_ne("Psychology"@, "Other Literature"@, 0);
    assert(fe_in(lower(spec_taxonomy()[7].alts[3]), spec_taxonomy()[0].subs, 0) == -1);
    lemma_lower_ne("Psychology"@, "American History"@, 0);
    lemma_lower_ne("Psychology"@, "Ancient History"@, 0);
    lemma_lower_ne("Psychology"@, "European History"@, 0);
    lemma_lower_ne("Psychology"@, "World History"@, 0);
    lemma_lower_ne("Psychology"@, "Other History"@, 0);
    assert(fe_in(lower(spec_taxonomy()[7].alts[3]), spec_taxonomy()[1].subs, 0) == -1);
    lemma_lower_ne("Psychology"@, "Biology"@, 0);
    lemma_lower_ne("Psychology"@, "Chemistry"@, 0);
    lemma_lower_ne("Psychology"@, "Physics"@, 0);
    lemma_lower_ne("Psychology"@, "Other Science"@, 0);
    assert(fe_in(lower(spec_taxonomy()[7].alts[3]), spec_taxonomy()[2].subs, 0) == -1);
    lemma_lower_ne("Psychology"@, "Visual Fine Arts"@, 0);
    lemma_lower_ne("Psychology"@, "Auditory Fine Arts"@, 0);
    lemma_lower_ne("Psychology"@, "Other Fine Arts"@, 0);
    assert(fe_in(lower(spec_taxonomy()[7].alts[3]), spec_taxonomy()[3].subs, 0) == -1);
    assert(fe_in(lower(spec_taxonomy()[7].alts[3]), spec_taxonomy()[4].subs, 0) == -1);
    assert(fe_in(lower(spec_taxonomy()[7].alts[3]), spec_taxonomy()[5].subs, 0) == -1);
    assert(fe_in(lower(spec_taxonomy()[7].alts[3]), spec_taxonomy()[6].subs, 0) == -1);
    lemma_lower_ne("Psychology"@, "Other Social Science"@, 0);
    assert(fe_in(lower(spec_taxonomy()[7].alts[3]), spec_taxonomy()[7].subs, 0) == -1);
    assert(fe_in(lower(spec_taxonomy()[7].alts[3]), spec_taxonomy()[8].subs, 0) == -1);
    assert(fe_in(lower(spec_taxonomy()[7].alts[3]), spec_taxonomy()[9].subs, 0) == -1);
    assert(fe_in(lower(spec_taxonomy()[7].alts[3]), spec_taxonomy()[10].subs, 0) == -1);
    lemma_lower_ne("Psychology"@, "Movies"@, 0);
    lemma_lower_ne("Psychology"@, "Music"@, 0);
    lemma_lower_ne("Psychology"@, "Sports"@, 0);
    lemma_lower_ne("Psychology"@, "Television"@, 0);
    lemma_lower_ne("Psychology"@, "Video Games"@, 0);
    lemma_lower_ne("Psychology"@, "Other Pop Culture"@, 0);
    assert(fe_in(lower(spec_taxonomy()[7].alts[3]), spec_taxonomy()[11].subs, 0) == -1);
    assert(fe_sub(lower(spec_taxonomy()[7].alts[3]), 0) == None::<(int, int)>);
    lemma_lower_ne("Psychology"@, "Drama"@, 0);
    lemma_lower_ne("Psychology"@, "Long Fiction"@, 0);
    lemma_lower_ne("Psychology"@, "Poetry"@, 0);
    lemma_lower_ne("Psychology"@, "Short Fiction"@, 0);
    lemma_lower_ne("Psychology"@, "Misc Literature"@, 0);
    assert(fe_in(lower(spec_taxonomy()[7].alts[3]), spec_taxonomy()[0].alts, 0) == -1);
    assert(fe_in(lower(spec_taxonomy()[7].alts[3]), spec_taxonomy()[1].alts, 0) == -1);
    lemma_lower_ne("Psychology"@, "Math"@, 0);
    lemma_lower_ne("Psychology"@, "Astronomy"@, 0);
    lemma_lower_ne("Psychology"@, "Computer Science"@, 0);
    lemma_lower_ne("Psychology"@, "Earth Science"@, 0);
    lemma_lower_ne("Psychology"@, "Engineering"@, 0);
    lemma_lower_ne("Psychology"@, "Misc Science"@, 0);
    assert(fe_in(lower(spec_taxonomy()[7].alts[3]), spec_taxonomy()[2].alts, 0) == -1);
    lemma_lower_ne("Psychology"@, "Architecture"@, 0);
    lemma_lower_ne("Psychology"@, "Dance"@, 0);
    lemma_lower_ne("Psychology"@, "Film"@, 0);
    lemma_lower_ne("Psychology"@, "Jazz"@, 0);
    lemma_lower_ne("Psychology"@, "Musicals"@, 0);
    lemma_lower_ne("Psychology"@, "Opera"@, 0);
    lemma_lower_ne("Psychology"@, "Photography"@, 0);
    lemma_lower_ne("Psychology"@, "Misc Arts"@, 0);
    assert(fe_in(lower(spec_taxonomy()[7].alts[3]), spec_taxonomy()[3].alts, 0) == -1);
    assert(fe_in(lower(spec_taxonomy()[7].alts[3]), spec_taxonomy()[4].alts, 0) == -1);
    assert(fe_in(lower(spec_taxonomy()[7].alts[3]), spec_taxonomy()[5].alts, 0) == -1);
    assert(fe_in(lower(spec_taxonomy()[7].alts[3]), spec_taxonomy()[6].alts, 0) == -1);
    lemma_lower_ne("Psychology"@, "Anthropology"@, 0);
    lemma_lower_ne("Psychology"@, "Economics"@, 0);
    lemma_lower_ne("Psychology"@, "Linguistics"@, 0);
    assert(fe_in(lower(spec_taxonomy()[7].alts[3]), spec_taxonomy()[7].alts, 0) == 3);
    assert(crate::query::fe_alt(lower(spec_taxonomy()[7].alts[3]), 0) == Some((7int, 3int)));
}

proof fn alt_tok_sociology()
    ensures
        alt_resolves_exactly(7, 4),
{
    reveal_with_fuel(fe_in, 15);
    reveal_with_fuel(fe_sub, 14);
    reveal_with_fuel(crate::query::fe_alt, 14);
    reveal_strlit("Sociology");
    reveal_strlit("Literature");
    reveal_strlit("History");
    reveal_strlit("Science");
    reveal_strlit("Fine Arts");
    reveal_strlit("Religion");
    reveal_strlit("Mythology");
    reveal_strlit("Philosophy");
    reveal_strlit("Social Science");
    reveal_strlit("Current Events");
    reveal_strlit("Geography");
    reveal_strlit("Other Academic");
    reveal_strlit("Pop Culture");
    reveal_strlit("American Literature");
    reveal_strlit("British Literature");
    reveal_strlit("Classical Literature");
    reveal_strlit("European Literature");
    reveal_strlit("World Literature");
    reveal_strlit("Other Literature");
    reveal_strlit("American History");
    reveal_strlit("Ancient History");
    reveal_strlit("European History");
    reveal_strlit("World History");
    reveal_strlit("Other History");
    reveal_strlit("Biology");
    reveal_strlit("Chemistry");
    reveal_strlit("Physics");
    reveal_strlit("Other Science");
    reveal_strlit("Visual Fine Arts");
    reveal_strlit("Auditory Fine Arts");
    reveal_strlit("Other Fine Arts");
    reveal_strlit("Other Social Science");
    reveal_strlit("Movies");
    reveal_strlit("Music");
    reveal_strlit("Sports");
    reveal_strlit("Television");
    reveal_strlit("Video Games");
    reveal_strlit("Other Pop Culture");
    reveal_strlit("Drama");
    reveal_strlit("Long Fiction");
    reveal_strlit("Poetry");
    reveal_strlit("Short Fiction");
    reveal_strlit("Misc Literature");
    reveal_strlit("Math");
    reveal_strlit("Astronomy");
    reveal_strlit("Computer Science");
    reveal_strlit("Earth Science");
    reveal_strlit("Engineering");
    reveal_strlit("Misc Science");
    reveal_strlit("Architecture");
    reveal_strlit("Dance");
    reveal_strlit("Film");
    reveal_strlit("Jazz");
    reveal_strlit("Musicals");
    reveal_strlit("Opera");
    reveal_strlit("Photography");
    reveal_strlit("Misc Arts");
    reveal_strlit("Anthropology");
    reveal_strlit("Economics");
    reveal_strlit("Linguistics");
    reveal_strlit("Psychology");
    lemma_lower_ne("Sociology"@, "Literature"@, 0);
    lemma_lower_ne("Sociology"@, "History"@, 0);
    lemma_lower_ne("Sociology"@, "Science"@, 0);
    lemma_lower_ne("Sociology"@, "Fine Arts"@, 0);
    lemma_lower_ne("Sociology"@, "Religion"@, 0);
    lemma_lower_ne("Sociology"@, "Mythology"@, 0);
    lemma_lower_ne("Sociology"@, "Philosophy"@, 0);
    lemma_lower_ne("Sociology"@, "Social Science"@, 0);
    lemma_lower_ne("Sociology"@, "Current Events"@, 0);
    lemma_lower_ne("Sociology"@, "Geography"@, 0);
    lemma_lower_ne("Sociology"@, "Other Academic"@, 0);
    lemma_lower_ne("Sociology"@, "Pop Culture"@, 0);
    assert(fe_in(lower(spec_taxonomy()[7].alts[4]), main_names(), 0) == -1);
    lemma_lower_ne("Sociology"@, "American Literature"@, 0);
    lemma_lower_ne("Sociology"@, "British Literature"@, 0);
    lemma_lower_ne("Sociology"@, "Classical Literature"@, 0);
    lemma_lower_ne("Sociology"@, "European Literature"@, 0);
    lemma_lower_ne("Sociology"@, "World Literature"@, 0);
    lemma_lower_ne("Sociology"@, "Other Literature"@, 0);
    assert(fe_in(lower(spec_taxonomy()[7].alts[4]), spec_taxonomy()[0].subs, 0) == -1);
    lemma_lower_ne("Sociology"@, "American History"@, 0);
    lemma_lower_ne("Sociology"@, "Ancient History"@, 0);
    lemma_lower_ne("Sociology"@, "European History"@, 0);
    lemma_lower_ne("Sociology"@, "World History"@, 0);
    lemma_lower_ne("Sociology"@, "Other History"@, 0);
    assert(fe_in(lower(spec_taxonomy()[7].alts[4]), spec_taxonomy()[1].subs, 0) == -1);
    lemma_lower_ne("Sociology"@, "Biology"@, 0);
    lemma_lower_ne("Sociology"@, "Chemistry"@, 0);
    lemma_lower_ne("Sociology"@, "Physics"@, 0);
    lemma_lower_ne("Sociology"@, "Other Science"@, 0);
    assert(fe_in(lower(spec_taxonomy()[7].alts[4]), spec_taxonomy()[2].subs, 0) == -1);
    lemma_lower_ne("Sociology"@, "Visual Fine Arts"@, 0);
    lemma_lower_ne("Sociology"@, "Auditory Fine Arts"@, 0);
    lemma_lower_ne("Sociology"@, "Other Fine Arts"@, 0);
    assert(fe_in(lower(spec_taxonomy()[7].alts[4]), spec_taxonomy()[3].subs, 0) == -1);
    assert(fe_in(lower(spec_taxonomy()[7].alts[4]), spec_taxonomy()[4].subs, 0) == -1);
    assert(fe_in(lower(spec_taxonomy()[7].alts[4]), spec_taxonomy()[5].subs, 0) == -1);
    assert(fe_in(lower(spec_taxonomy()[7].alts[4]), spec_taxonomy()[6].subs, 0) == -1);
    lemma_lower_ne("Sociology"@, "Other Social Science"@, 0);
    assert(fe_in(lower(spec_taxonomy()[7].alts[4]), spec_taxonomy()[7].subs, 0) == -1);
    assert(fe_in(lower(spec_taxonomy()[7].alts[4]), spec_taxonomy()[8].subs, 0) == -1);
    assert(fe_in(lower(spec_taxonomy()[7].alts[4]), spec_taxonomy()[9].subs, 0) == -1);
    assert(fe_in(lower(spec_taxonomy()[7].alts[4]), spec_taxonomy()[10].subs, 0) == -1);
    lemma_lower_ne("Sociology"@, "Movies"@, 0);
    lemma_lower_ne("Sociology"@, "Music"@, 0);
    lemma_lower_ne("Sociology"@, "Sports"@, 0);
    lemma_lower_ne("Sociology"@, "Television"@, 0);
    lemma_lower_ne("Sociology"@, "Video Games"@, 0);
    lemma_lower_ne("Sociology"@, "Other Pop Culture"@, 0);
    assert(fe_in(lower(spec_taxonomy()[7].alts[4]), spec_taxonomy()[11].subs, 0) == -1);
    assert(fe_sub(lower(spec_taxonomy()[7].alts[4]), 0) == None::<(int, int)>);
    lemma_lower_ne("Sociology"@, "Drama"@, 0);
    lemma_lower_ne("Sociology"@, "Long Fiction"@, 0);
    lemma_lower_ne("Sociology"@, "Poetry"@, 0);
    lemma_lower_ne("Sociology"@, "Short Fiction"@, 0);
    lemma_lower_ne("Sociology"@, "Misc Literature"@, 0);
    assert(fe_in(lower(spec_taxonomy()[7].alts[4]), spec_taxonomy()[0].alts, 0) == -1);
    assert(fe_in(lower(spec_taxonomy()[7].alts[4]), spec_taxonomy()[1].alts, 0) == -1);
    lemma_lower_ne("Sociology"@, "Math"@, 0);
    lemma_lower_ne("Sociology"@, "Astronomy"@, 0);
    lemma_lower_ne("Sociology"@, "Computer Science"@, 0);
    lemma_lower_ne("Sociology"@, "Earth Science"@, 0);
    lemma_lower_ne("Sociology"@, "Engineering"@, 0);
    lemma_lower_ne("Sociology"@, "Misc Science"@, 0);
    assert(fe_in(lower(spec_taxonomy()[7].alts[4]), spec_taxonomy()[2].alts, 0) == -1);
    lemma_lower_ne("Sociology"@, "Architecture"@, 0);
    lemma_lower_ne("Sociology"@, "Dance"@, 0);
    lemma_lower_ne("Sociology"@, "Film"@, 0);
    lemma_lower_ne("Sociology"@, "Jazz"@, 0);
    lemma_lower_ne("Sociology"@, "Musicals"@, 0);
    lemma_lower_ne("Sociology"@, "Opera"@, 0);
    lemma_lower_ne("Sociology"@, "Photography"@, 0);
    lemma_lower_ne("Sociology"@, "Misc Arts"@, 0);
    assert(fe_in(lower(spec_taxonomy()[7].alts[4]), spec_taxonomy()[3].alts, 0) == -1);
    assert(fe_in(lower(spec_taxonomy()[7].alts[4]), spec_taxonomy()[4].alts, 0) == -1);
    assert(fe_in(lower(spec_taxonomy()[7].alts[4]), spec_taxonomy()[5].alts, 0) == -1);
    assert(fe_in(lower(spec_taxonomy()[7].alts[4]), spec_taxonomy()[6].alts, 0) == -1);
    lemma_lower_ne("Sociology"@, "Anthropology"@, 0);
    lemma_lower_ne("Sociology"@, "Economics"@, 0);
    lemma_lower_ne("Sociology"@, "Linguistics"@, 0);
    lemma_lower_ne("Sociology"@, "Psychology"@, 0);
    assert(fe_in(lower(spec_taxonomy()[7].alts[4]), spec_taxonomy()[7].alts, 0) == 4);
    assert(crate::query::fe_alt(lower(spec_taxonomy()[7].alts[4]), 0) == Some((7int, 4int)));
}

/// Every main category name, lowered, first matches exactly itself.
pub proof fn main_resolves(i: int)
    requires
        0 <= i < spec_taxonomy().len(),
    ensures
        main_resolves_exactly(i),
{
    if i == 0 {
        main_tok_literature();
    } else if i == 1 {
        main_tok_history();
    } else if i == 2 {
        main_tok_science();
    } else if i == 3 {
        main_tok_fine_arts();
    } else if i == 4 {
        main_tok_religion();
    } else if i == 5 {
        main_tok_mythology();
    } else if i == 6 {
        main_tok_philosophy();
    } else if i == 7 {
        main_tok_social_science();
    } else if i == 8 {
        main_tok_current_events();
    } else if i == 9 {
        main_tok_geography();
    } else if i == 10 {
        main_tok_other_academic();
    } else if i == 11 {
        main_tok_pop_culture();
    } else {
    }
}

/// Every subcategory name, lowered, matches no main category and first
/// matches exactly itself among the subcategories.
pub proof fn sub_resolves(i: int, j: int)
    requires
        0 <= i < spec_taxonomy().len(),
        0 <= j < spec_taxonomy()[i].subs.len(),
    ensures
        sub_resolves_exactly(i, j),
{
    if i == 0 && j == 0 {
        sub_tok_american_literature();
    } else if i == 0 && j == 1 {
        sub_tok_british_literature();
    } else if i == 0 && j == 2 {
        sub_tok_classical_literature();
    } else if i == 0 && j == 3 {
        sub_tok_european_literature();
    } else if i == 0 && j == 4 {
        sub_tok_world_literature();
    } else if i == 0 && j == 5 {
        sub_tok_other_literature();
    } else if i == 1 && j == 0 {
        sub_tok_american_history();
    } else if i == 1 && j == 1 {
        sub_tok_ancient_history();
    } else if i == 1 && j == 2 {
        sub_tok_european_history();
    } else if i == 1 && j == 3 {
        sub_tok_world_history();
    } else if i == 1 && j == 4 {
        sub_tok_other_history();
    } else if i == 2 && j == 0 {
        sub_tok_biology();
    } else if i == 2 && j == 1 {
        sub_tok_chemistry();
    } else if i == 2 && j == 2 {
        sub_tok_physics();
    } else if i == 2 && j == 3 {
        sub_tok_other_science();
    } else if i == 3 && j == 0 {
        sub_tok_visual_fine_arts();
    } else if i == 3 && j == 1 {
        sub_tok_auditory_fine_arts();
    } else if i == 3 && j == 2 {
        sub_tok_other_fine_arts();
    } else if i == 7 && j == 0 {
        sub_tok_other_social_science();
    } else if i == 11 && j == 0 {
        sub_tok_movies();
    } else if i == 11 && j == 1 {
        sub_tok_music();
    } else if i == 11 && j == 2 {
        sub_tok_sports();
    } else if i == 11 && j == 3 {
        sub_tok_television();
    } else if i == 11 && j == 4 {
        sub_tok_video_games();
    } else if i == 11 && j == 5 {
        sub_tok_other_pop_culture();
    } else {
    }
}

/// Every alternate name not shadowed by a subcategory name, lowered,
/// matches no main category or subcategory and first matches exactly
/// itself among the alternates.
pub proof fn alt_resolves(i: int, j: int)
    requires
        0 <= i < spec_taxonomy().len(),
        0 <= j < spec_taxonomy()[i].alts.len(),
        !alt_shadowed_by_sub(i, j),
    ensures
        alt_resolves_exactly(i, j),
{
    if i == 0 && j == 0 {
        alt_tok_drama();
    } else if i == 0 && j == 1 {
        alt_tok_long_fiction();
    } else if i == 0 && j == 2 {
        alt_tok_poetry();
    } else if i == 0 && j == 3 {
        alt_tok_short_fiction();
    } else if i == 0 && j == 4 {
        alt_tok_misc_literature();
    } else if i == 2 && j == 0 {
        alt_tok_math();
    } else if i == 2 && j == 1 {
        alt_tok_astronomy();
    } else if i == 2 && j == 2 {
        alt_tok_computer_science();
    } else if i == 2 && j == 3 {
        alt_tok_earth_science();
    } else if i == 2 && j == 4 {
        alt_tok_engineering();
    } else if i == 2 && j == 5 {
        alt_tok_misc_science();
    } else if i == 3 && j == 0 {
        alt_tok_architecture();
    } else if i == 3 && j == 1 {
        alt_tok_dance();
    } else if i == 3 && j == 2 {
        alt_tok_film();
    } else if i == 3 && j == 3 {
        alt_tok_jazz();
    } else if i == 3 && j == 4 {
        alt_tok_musicals();
    } else if i == 3 && j == 5 {
        alt_tok_opera();
    } else if i == 3 && j == 6 {
        alt_tok_photography();
    } else if i == 3 && j == 7 {
        alt_tok_misc_arts();
    } else if i == 7 && j == 0 {
        alt_tok_anthropology();
    } else if i == 7 && j == 1 {
        alt_tok_economics();
    } else if i == 7 && j == 2 {
        alt_tok_linguistics();
    } else if i == 7 && j == 3 {
        alt_tok_psychology();
    } else if i == 7 && j == 4 {
        alt_tok_sociology();
    } else if i == 7 && j == 5 {
        sub_tok_other_social_science();
        assert(spec_taxonomy()[7].alts[5] == spec_taxonomy()[7].subs[0]);
        assert(false);
    } else {
    }
}

} // verus!
