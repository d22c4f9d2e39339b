//! The fixed category taxonomy: an ordered mapping from main category to its
//! subcategories and alternate subcategories.
//!
//! Every main category whose alternate list is non-empty carries the
//! synthetic `"Other <Category>"` subcategory that anchors its alternates;
//! [`crate::query`] routes alternates through it.

use vstd::prelude::*;

use crate::text::{lower, lower_chars, str_chars, chars_eq};

verus! {

/// The mathematical shape of one taxonomy entry.
#[verifier::ext_equal]
pub struct CatModel {
    pub name: Seq<char>,
    pub subs: Seq<Seq<char>>,
    pub alts: Seq<Seq<char>>,
}

/// One taxonomy entry: a main category with its subcategories and alternate
/// subcategories.
pub struct Category {
    pub name: String,
    pub subcategories: Vec<String>,
    pub alternate_subcategories: Vec<String>,
}

impl View for Category {
    type V = CatModel;

    open spec fn view(&self) -> CatModel {
        CatModel {
            name: self.name@,
            subs: self.subcategories.deep_view(),
            alts: self.alternate_subcategories.deep_view(),
        }
    }
}

/// The views of a sequence of categories.
pub open spec fn views_of(s: Seq<Category>) -> Seq<CatModel> {
    s.map_values(|c: Category| c@)
}

pub open spec fn cm_literature() -> CatModel {
    CatModel {
        name: "Literature"@,
        subs: seq![
            "American Literature"@,
            "British Literature"@,
            "Classical Literature"@,
            "European Literature"@,
            "World Literature"@,
            "Other Literature"@,
        ],
        alts: seq!["Drama"@, "Long Fiction"@, "Poetry"@, "Short Fiction"@, "Misc Literature"@],
    }
}

pub open spec fn cm_history() -> CatModel {
    CatModel {
        name: "History"@,
        subs: seq![
            "American History"@,
            "Ancient History"@,
            "European History"@,
            "World History"@,
            "Other History"@,
        ],
        alts: Seq::empty(),
    }
}

pub open spec fn cm_science() -> CatModel {
    CatModel {
        name: "Science"@,
        subs: seq!["Biology"@, "Chemistry"@, "Physics"@, "Other Science"@],
        alts: seq![
            "Math"@,
            "Astronomy"@,
            "Computer Science"@,
            "Earth Science"@,
            "Engineering"@,
            "Misc Science"@,
        ],
    }
}

pub open spec fn cm_fine_arts() -> CatModel {
    CatModel {
        name: "Fine Arts"@,
        subs: seq!["Visual Fine Arts"@, "Auditory Fine Arts"@, "Other Fine Arts"@],
        alts: seq![
            "Architecture"@,
            "Dance"@,
            "Film"@,
            "Jazz"@,
            "Musicals"@,
            "Opera"@,
            "Photography"@,
            "Misc Arts"@,
        ],
    }
}

pub open spec fn cm_religion() -> CatModel {
    CatModel { name: "Religion"@, subs: Seq::empty(), alts: Seq::empty() }
}

pub open spec fn cm_mythology() -> CatModel {
    CatModel { name: "Mythology"@, subs: Seq::empty(), alts: Seq::empty() }
}

pub open spec fn cm_philosophy() -> CatModel {
    CatModel { name: "Philosophy"@, subs: Seq::empty(), alts: Seq::empty() }
}

pub open spec fn cm_social_science() -> CatModel {
    CatModel {
        name: "Social Science"@,
        subs: seq!["Other Social Science"@],
        alts: seq![
            "Anthropology"@,
            "Economics"@,
            "Linguistics"@,
            "Psychology"@,
            "Sociology"@,
            "Other Social Science"@,
        ],
    }
}

pub open spec fn cm_current_events() -> CatModel {
    CatModel { name: "Current Events"@, subs: Seq::empty(), alts: Seq::empty() }
}

pub open spec fn cm_geography() -> CatModel {
    CatModel { name: "Geography"@, subs: Seq::empty(), alts: Seq::empty() }
}

pub open spec fn cm_other_academic() -> CatModel {
    CatModel { name: "Other Academic"@, subs: Seq::empty(), alts: Seq::empty() }
}

pub open spec fn cm_pop_culture() -> CatModel {
    CatModel {
        name: "Pop Culture"@,
        subs: seq![
            "Movies"@,
            "Music"@,
            "Sports"@,
            "Television"@,
            "Video Games"@,
            "Other Pop Culture"@,
        ],
        alts: Seq::empty(),
    }
}

/// The taxonomy, in its fixed order.
pub open spec fn spec_taxonomy() -> Seq<CatModel> {
    seq![
        cm_literature(),
        cm_history(),
        cm_science(),
        cm_fine_arts(),
        cm_religion(),
        cm_mythology(),
        cm_philosophy(),
        cm_social_science(),
        cm_current_events(),
        cm_geography(),
        cm_other_academic(),
        cm_pop_culture(),
    ]
}

fn push_str_item(v: &mut Vec<String>, s: &str)
    ensures
        final(v).deep_view() == old(v).deep_view().push(s@),
{
    v.push(String::from_str(s));

}

fn category(name: &str, subs: Vec<String>, alts: Vec<String>) -> (c: Category)
    ensures
        c@ == (CatModel { name: name@, subs: subs.deep_view(), alts: alts.deep_view() }),
{
    let c = Category {
        name: String::from_str(name),
        subcategories: subs,
        alternate_subcategories: alts,
    };
    proof {
        assert(c@ =~~= CatModel { name: name@, subs: subs.deep_view(), alts: alts.deep_view() });
    }
    c
}

fn cat_literature() -> (c: Category)
    ensures
        c@ == cm_literature(),
{
    let mut subs: Vec<String> = Vec::new();
    push_str_item(&mut subs, "American Literature");
    push_str_item(&mut subs, "British Literature");
    push_str_item(&mut subs, "Classical Literature");
    push_str_item(&mut subs, "European Literature");
    push_str_item(&mut subs, "World Literature");
    push_str_item(&mut subs, "Other Literature");
    let mut alts: Vec<String> = Vec::new();
    push_str_item(&mut alts, "Drama");
    push_str_item(&mut alts, "Long Fiction");
    push_str_item(&mut alts, "Poetry");
    push_str_item(&mut alts, "Short Fiction");
    push_str_item(&mut alts, "Misc Literature");
    proof {
        assert(subs.deep_view() =~= cm_literature().subs);
        assert(alts.deep_view() =~= cm_literature().alts);
    }
    category("Literature", subs, alts)
}

fn cat_history() -> (c: Category)
    ensures
        c@ == cm_history(),
{
    let mut subs: Vec<String> = Vec::new();
    push_str_item(&mut subs, "American History");
    push_str_item(&mut subs, "Ancient History");
    push_str_item(&mut subs, "European History");
    push_str_item(&mut subs, "World History");
    push_str_item(&mut subs, "Other History");
    let alts: Vec<String> = Vec::new();
    proof {
        assert(subs.deep_view() =~= cm_history().subs);
        assert(alts.deep_view() =~= cm_history().alts);
    }
    category("History", subs, alts)
}

fn cat_science() -> (c: Category)
    ensures
        c@ == cm_science(),
{
    let mut subs: Vec<String> = Vec::new();
    push_str_item(&mut subs, "Biology");
    push_str_item(&mut subs, "Chemistry");
    push_str_item(&mut subs, "Physics");
    push_str_item(&mut subs, "Other Science");
    let mut alts: Vec<String> = Vec::new();
    push_str_item(&mut alts, "Math");
    push_str_item(&mut alts, "Astronomy");
    push_str_item(&mut alts, "Computer Science");
    push_str_item(&mut alts, "Earth Science");
    push_str_item(&mut alts, "Engineering");
    push_str_item(&mut alts, "Misc Science");
    proof {
        assert(subs.deep_view() =~= cm_science().subs);
        assert(alts.deep_view() =~= cm_science().alts);
    }
    category("Science", subs, alts)
}

fn cat_fine_arts() -> (c: Category)
    ensures
        c@ == cm_fine_arts(),
{
    let mut subs: Vec<String> = Vec::new();
    push_str_item(&mut subs, "Visual Fine Arts");
    push_str_item(&mut subs, "Auditory Fine Arts");
    push_str_item(&mut subs, "Other Fine Arts");
    let mut alts: Vec<String> = Vec::new();
    push_str_item(&mut alts, "Architecture");
    push_str_item(&mut alts, "Dance");
    push_str_item(&mut alts, "Film");
    push_str_item(&mut alts, "Jazz");
    push_str_item(&mut alts, "Musicals");
    push_str_item(&mut alts, "Opera");
    push_str_item(&mut alts, "Photography");
    push_str_item(&mut alts, "Misc Arts");
    proof {
        assert(subs.deep_view() =~= cm_fine_arts().subs);
        assert(alts.deep_view() =~= cm_fine_arts().alts);
    }
    category("Fine Arts", subs, alts)
}

fn cat_social_science() -> (c: Category)
    ensures
        c@ == cm_social_science(),
{
    let mut subs: Vec<String> = Vec::new();
    push_str_item(&mut subs, "Other Social Science");
    let mut alts: Vec<String> = Vec::new();
    push_str_item(&mut alts, "Anthropology");
    push_str_item(&mut alts, "Economics");
    push_str_item(&mut alts, "Linguistics");
    push_str_item(&mut alts, "Psychology");
    push_str_item(&mut alts, "Sociology");
    push_str_item(&mut alts, "Other Social Science");
    proof {
        assert(subs.deep_view() =~= cm_social_science().subs);
        assert(alts.deep_view() =~= cm_social_science().alts);
    }
    category("Social Science", subs, alts)
}

fn cat_pop_culture() -> (c: Category)
    ensures
        c@ == cm_pop_culture(),
{
    let mut subs: Vec<String> = Vec::new();
    push_str_item(&mut subs, "Movies");
    push_str_item(&mut subs, "Music");
    push_str_item(&mut subs, "Sports");
    push_str_item(&mut subs, "Television");
    push_str_item(&mut subs, "Video Games");
    push_str_item(&mut subs, "Other Pop Culture");
    let alts: Vec<String> = Vec::new();
    proof {
        assert(subs.deep_view() =~= cm_pop_culture().subs);
        assert(alts.deep_view() =~= cm_pop_culture().alts);
    }
    category("Pop Culture", subs, alts)
}

fn cat_plain(name: &str) -> (c: Category)
    ensures
        c@ == (CatModel {
            name: name@,
            subs: Seq::<Seq<char>>::empty(),
            alts: Seq::<Seq<char>>::empty(),
        }),
{
    let subs: Vec<String> = Vec::new();
    let alts: Vec<String> = Vec::new();
    proof {
        assert(subs.deep_view() =~= Seq::<Seq<char>>::empty());
        assert(alts.deep_view() =~= Seq::<Seq<char>>::empty());
    }
    category(name, subs, alts)
}

/// The first category whose name equals `name` up to ASCII case, if any:
/// the lookup behind the category-browsing command.
pub fn find_category(tax: &Vec<Category>, name: &str) -> (r: Option<usize>)
    ensures
        match r {
            Some(i) => i < tax@.len() && lower(tax@[i as int]@.name) == lower(name@) && forall|
                k: int,
            | 0 <= k < i ==> lower(tax@[k]@.name) != lower(name@),
            None => forall|k: int| 0 <= k < tax@.len() ==> lower(tax@[k]@.name) != lower(name@),
        },
{
    let target = lower_chars(&str_chars(name));
    let mut i: usize = 0;
    while i < tax.len()
        invariant
            target@ == lower(name@),
            i <= tax@.len(),
            forall|k: int| 0 <= k < i ==> lower(tax@[k]@.name) != lower(name@),
        decreases tax@.len() - i,
    {
        let cand = lower_chars(&str_chars(tax[i].name.as_str()));
        if chars_eq(&cand, &target) {
            return Some(i);
        }
        i += 1;
    }
    None
}

/// The taxonomy as data, in its fixed order.
pub fn taxonomy() -> (r: Vec<Category>)
    ensures
        views_of(r@) == spec_taxonomy(),
{
    let mut r: Vec<Category> = Vec::new();
    r.push(cat_literature());
    r.push(cat_history());
    r.push(cat_science());
    r.push(cat_fine_arts());
    r.push(cat_plain("Religion"));
    r.push(cat_plain("Mythology"));
    r.push(cat_plain("Philosophy"));
    r.push(cat_social_science());
    r.push(cat_plain("Current Events"));
    r.push(cat_plain("Geography"));
    r.push(cat_plain("Other Academic"));
    r.push(cat_pop_culture());
    proof {
        assert(views_of(r@) =~~= spec_taxonomy());
    }
    r
}

} // verus!
