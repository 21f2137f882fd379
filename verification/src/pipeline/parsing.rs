//! Condenses the profile that Apify returns into the few fields the
//! prompts need: the names, the `about` text, the company, and one line
//! per role, numbered in order.

use vstd::prelude::*;
use crate::encoding::{entries_view, pretty_json_object, pretty_object};
use crate::json::{Json, key, member, text_or_empty};
use crate::text::{decimal, decimal_string, join_spaced};

verus! {

/// The `text` strings of a role's description items, in order; items
/// without one are skipped.
pub open spec fn description_texts(items: Seq<Json>) -> Seq<Seq<char>>
    decreases items.len(),
{
    if items.len() == 0 {
        Seq::empty()
    } else {
        let rest = description_texts(items.drop_last());
        match items.last().field("text"@).text() {
            Some(t) => rest.push(t),
            None => rest,
        }
    }
}

/// A role's description: its texts joined by single spaces.
pub open spec fn description(role: Json) -> Seq<char> {
    match role.field("description"@).items() {
        Some(items) => join_spaced(description_texts(items)),
        None => Seq::empty(),
    }
}

/// A role's line: `<title>: <description>`.
pub open spec fn role_line(role: Json) -> Seq<char> {
    role.field("title"@).text_or_empty() + ": "@ + description(role)
}

/// The lines of an experience's roles (`subComponents`).
pub open spec fn roles_lines(experience: Json) -> Seq<Seq<char>> {
    match experience.field("subComponents"@).items() {
        Some(roles) => roles.map_values(|r: Json| role_line(r)),
        None => Seq::empty(),
    }
}

/// The lines of all roles of all experiences, in order.
pub open spec fn experience_lines(experiences: Seq<Json>) -> Seq<Seq<char>>
    decreases experiences.len(),
{
    if experiences.len() == 0 {
        Seq::empty()
    } else {
        experience_lines(experiences.drop_last()) + roles_lines(experiences.last())
    }
}

/// The key of the `n`-th role line.
pub open spec fn experience_key(n: nat) -> Seq<char> {
    "experience"@ + decimal(n)
}

/// The role lines under the keys `experience1`, `experience2`, ...
pub open spec fn numbered(lines: Seq<Seq<char>>) -> Seq<(Seq<char>, Seq<char>)> {
    Seq::new(lines.len(), |i: int| (experience_key((i + 1) as nat), lines[i]))
}

/// The fields kept of a profile, in the order they are written.
pub open spec fn profile_entries(profile: Json) -> Seq<(Seq<char>, Seq<char>)> {
    let experiences = match profile.lookup("experiences"@) {
        Some(e) => match e.items() {
            Some(list) => list,
            None => Seq::empty(),
        },
        None => Seq::empty(),
    };
    seq![
        ("firstName"@, profile.field("firstName"@).text_or_empty()),
        ("lastName"@, profile.field("lastName"@).text_or_empty()),
        ("email"@, profile.field("about"@).text_or_empty()),
        ("company"@, profile.field("companyName"@).text_or_empty()),
    ] + numbered(experience_lines(experiences))
}

/// The roles (`subComponents`) an experience lists; none where it lists no array.
pub open spec fn roles_of(experience: Json) -> Seq<Json> {
    match experience.field("subComponents"@).items() {
        Some(roles) => roles,
        None => Seq::empty(),
    }
}

/// The number of roles listed over these experiences.
pub open spec fn role_total(experiences: Seq<Json>) -> nat
    decreases experiences.len(),
{
    if experiences.len() == 0 {
        0
    } else {
        role_total(experiences.drop_last()) + roles_of(experiences.last()).len()
    }
}

proof fn lemma_lines_count(experiences: Seq<Json>)
    ensures
        experience_lines(experiences).len() == role_total(experiences),
    decreases experiences.len(),
{
    if experiences.len() > 0 {
        lemma_lines_count(experiences.drop_last());
    }
}

proof fn lemma_line_at(experiences: Seq<Json>, i: int, j: int)
    requires
        0 <= i < experiences.len(),
        0 <= j < roles_of(experiences[i]).len(),
    ensures
        role_total(experiences.take(i)) + j < role_total(experiences),
        experience_lines(experiences)[role_total(experiences.take(i)) + j] == role_line(
            roles_of(experiences[i])[j],
        ),
    decreases experiences.len(),
{
    let n = experiences.len();
    let front = experiences.drop_last();
    lemma_lines_count(front);
    if i == n - 1 {
        assert(experiences.take(i) =~= front);
    } else {
        assert(experiences.take(i) =~= front.take(i));
        assert(experiences[i] == front[i]);
        lemma_line_at(front, i, j);
    }
}

/// The condensed profile holds the four fixed fields and then one
/// `experienceN` line per role listed, over all experiences: as many lines
/// as roles.
pub proof fn lemma_one_line_per_role(profile: Json, experiences: Seq<Json>)
    requires
        profile.lookup("experiences"@) matches Some(e) && e.items() == Some(experiences),
    ensures
        profile_entries(profile).len() == 4 + role_total(experiences),
        profile_entries(profile)[0] == ("firstName"@, profile.field("firstName"@).text_or_empty()),
        profile_entries(profile)[1] == ("lastName"@, profile.field("lastName"@).text_or_empty()),
        profile_entries(profile)[2] == ("email"@, profile.field("about"@).text_or_empty()),
        profile_entries(profile)[3] == ("company"@, profile.field("companyName"@).text_or_empty()),
{
    lemma_lines_count(experiences);
}

/// Without an `experiences` array, the condensed profile holds only the four fixed fields.
pub proof fn lemma_no_experiences(profile: Json)
    requires
        !(profile.lookup("experiences"@) matches Some(e) && e.items() is Some),
    ensures
        profile_entries(profile).len() == 4,
{
}

/// Role `j` of experience `i` has its line, `title: description`, under the
/// key `experienceN` where `N - 1` counts the roles listed before it.
pub proof fn lemma_role_has_its_line(profile: Json, experiences: Seq<Json>, i: int, j: int)
    requires
        profile.lookup("experiences"@) matches Some(e) && e.items() == Some(experiences),
        0 <= i < experiences.len(),
        0 <= j < roles_of(experiences[i]).len(),
    ensures
        ({
            let n = role_total(experiences.take(i)) + j;
            let role = roles_of(experiences[i])[j];
            profile_entries(profile)[4 + n] == ("experience"@ + decimal((n + 1) as nat), role.field(
                "title"@,
            ).text_or_empty() + ": "@ + description(role))
        }),
{
    lemma_lines_count(experiences);
    lemma_line_at(experiences, i, j);
}

/// Where every description item has a `text` string, the texts are all
/// kept, in the items' order.
pub proof fn lemma_description_keeps_texts(items: Seq<Json>)
    requires
        forall|k: int| 0 <= k < items.len() ==> (#[trigger] items[k]).field("text"@).text() is Some,
    ensures
        description_texts(items).len() == items.len(),
        forall|k: int|
            0 <= k < items.len() ==> Some(#[trigger] description_texts(items)[k]) == items[k].field(
                "text"@,
            ).text(),
    decreases items.len(),
{
    if items.len() > 0 {
        let front = items.drop_last();
        assert forall|k: int| 0 <= k < front.len() implies (#[trigger] front[k]).field("text"@).text() is Some by {
            assert(front[k] == items[k]);
        }
        lemma_description_keeps_texts(front);
        assert(items.last() == items[items.len() - 1]);
        assert forall|k: int| 0 <= k < items.len() implies Some(#[trigger] description_texts(items)[k])
            == items[k].field("text"@).text() by {
            if k < items.len() - 1 {
                assert(front[k] == items[k]);
            }
        }
    }
}

/// Items without a `text` string add nothing to a description.
pub proof fn lemma_description_skips_textless(items: Seq<Json>, item: Json)
    requires
        item.field("text"@).text() is None,
    ensures
        description_texts(items.push(item)) == description_texts(items),
{
    assert(items.push(item).drop_last() =~= items);
}

/// Joins the description texts of a role.
fn description_of(role: &Json) -> (r: String)
    ensures
        r@ == description(*role),
{
    let items = member(Some(role), &key("description"));
    match items {
        Some(d) => match d.as_array() {
            Some(list) => {
                let mut joined = String::new();
                let mut any = false;
                let mut i: usize = 0;
                while i < list.len()
                    invariant
                        i <= list@.len(),
                        joined@ == join_spaced(description_texts(list@.take(i as int))),
                        any == (description_texts(list@.take(i as int)).len() > 0),
                    decreases list@.len() - i,
                {
                    proof {
                        assert(list@.take(i + 1).drop_last() =~= list@.take(i as int));
                        assert(list@.take(i + 1).last() == list@[i as int]);
                    }
                    let ghost before = description_texts(list@.take(i as int));
                    proof {
                        reveal_strlit(" ");
                        assert(description_texts(list@.take(i + 1)) == match list@[i as int].field(
                            "text"@,
                        ).text() {
                            Some(t) => before.push(t),
                            None => before,
                        });
                    }
                    let text = member(Some(&list[i]), &key("text"));
                    match text {
                        Some(t) => match t.as_str() {
                            Some(s) => {
                                if any {
                                    joined.append(" ");
                                }
                                joined.append(s.as_str());
                                any = true;
                                proof {
                                    let after = before.push(s@);
                                    assert(after.drop_last() =~= before);
                                    if before.len() == 0 {
                                        assert(joined@ =~= after[0]);
                                    }
                                }
                            },
                            None => {},
                        },
                        None => {},
                    }
                    i = i + 1;
                }
                proof {
                    assert(list@.take(list@.len() as int) =~= list@);
                }
                joined
            },
            None => String::new(),
        },
        None => String::new(),
    }
}

/// Writes a role's line.
fn role_line_of(role: &Json) -> (r: String)
    ensures
        r@ == role_line(*role),
{
    let mut line = text_or_empty(member(Some(role), &key("title")));
    line.append(": ");
    let d = description_of(role);
    line.append(d.as_str());
    line
}

/// Condenses an Apify profile into a pretty-printed JSON object of
/// `firstName`, `lastName`, `email` (the `about` text), `company` and one
/// `experienceN` line per role, numbered from 1 in order.
pub fn apify_json(profile: &Json) -> (r: String)
    ensures
        r@ == pretty_json_object(profile_entries(*profile)),
{
    let mut entries: Vec<(String, String)> = Vec::new();
    entries.push((key("firstName"), text_or_empty(member(Some(profile), &key("firstName")))));
    entries.push((key("lastName"), text_or_empty(member(Some(profile), &key("lastName")))));
    entries.push((key("email"), text_or_empty(member(Some(profile), &key("about")))));
    entries.push((key("company"), text_or_empty(member(Some(profile), &key("companyName")))));
    let ghost head = entries_view(entries@);
    let experiences = match profile.get(&key("experiences")) {
        Some(e) => e.as_array(),
        None => None,
    };
    match experiences {
        Some(list) => {
            let mut i: usize = 0;
            while i < list.len()
                invariant
                    i <= list@.len(),
                    entries@.len() >= 4,
                    head.len() == 4,
                    entries_view(entries@) == head + numbered(experience_lines(list@.take(i as int))),
                decreases list@.len() - i,
            {
                proof {
                    assert(list@.take(i + 1).drop_last() =~= list@.take(i as int));
                    assert(list@.take(i + 1).last() == list@[i as int]);
                }
                let ghost done = experience_lines(list@.take(i as int));
                let roles = member(Some(&list[i]), &key("subComponents"));
                match roles {
                    Some(rs) => match rs.as_array() {
                        Some(roles) => {
                            let mut j: usize = 0;
                            while j < roles.len()
                                invariant
                                    j <= roles@.len(),
                                    entries@.len() >= 4,
                                    head.len() == 4,
                                    entries_view(entries@) == head + numbered(
                                        done + roles@.take(j as int).map_values(|r: Json| role_line(r)),
                                    ),
                                decreases roles@.len() - j,
                            {
                                let ghost lines = done + roles@.take(j as int).map_values(
                                    |r: Json| role_line(r),
                                );
                                proof {
                                    assert(entries_view(entries@).len() == entries@.len());
                                    assert(numbered(lines).len() == lines.len());
                                    assert(entries@.len() == 4 + lines.len());
                                }
                                let line = role_line_of(&roles[j]);
                                let mut name = key("experience");
                                let n = entries.len() - 3;
                                let number = decimal_string(n);
                                name.append(number.as_str());
                                let ghost old_view = entries_view(entries@);
                                let ghost entry = (name@, line@);
                                entries.push((name, line));
                                proof {
                                    assert(entries_view(entries@) =~= old_view.push(entry));
                                    assert(entry == (experience_key((lines.len() + 1) as nat), role_line(roles@[j as int])));
                                    assert((head + numbered(lines)).push(entry) =~= head + numbered(lines).push(entry));
                                    let next = done + roles@.take(j + 1).map_values(|r: Json| role_line(r));
                                    assert(roles@.take(j + 1).map_values(|r: Json| role_line(r))
                                        =~= roles@.take(j as int).map_values(|r: Json| role_line(r)).push(
                                        role_line(roles@[j as int]),
                                    ));
                                    assert(next =~= lines.push(role_line(roles@[j as int])));
                                    assert(numbered(next) =~= numbered(lines).push(
                                        (experience_key((lines.len() + 1) as nat), role_line(roles@[j as int])),
                                    ));
                                }
                                j = j + 1;
                            }
                            proof {
                                assert(roles@.take(roles@.len() as int) =~= roles@);
                                assert(roles_lines(list@[i as int]) == roles@.map_values(|r: Json| role_line(r)));
                            }
                        },
                        None => {
                            assert(roles_lines(list@[i as int]) =~= Seq::empty());
                            assert(done + roles_lines(list@[i as int]) =~= done);
                        },
                    },
                    None => {
                        assert(roles_lines(list@[i as int]) =~= Seq::empty());
                        assert(done + roles_lines(list@[i as int]) =~= done);
                    },
                }
                i = i + 1;
            }
            proof {
                assert(list@.take(list@.len() as int) =~= list@);
            }
        },
        None => {
            assert(numbered(Seq::<Seq<char>>::empty()) =~= Seq::empty());
            assert(head + numbered(Seq::<Seq<char>>::empty()) =~= head);
        },
    }
    proof {
        assert(head =~= seq![
            ("firstName"@, profile.field("firstName"@).text_or_empty()),
            ("lastName"@, profile.field("lastName"@).text_or_empty()),
            ("email"@, profile.field("about"@).text_or_empty()),
            ("company"@, profile.field("companyName"@).text_or_empty()),
        ]);
    }
    pretty_object(&entries)
}

} // verus!
