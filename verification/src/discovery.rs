//! Discovery of the supported IWADs among the entries of a folder.

use vstd::prelude::*;
use crate::catalog::{views, IWadObject, IWadView};
use crate::environment::{expand, expand_spec, Environment};
use crate::files::{basename, basename_spec, FileSnapshot};
use crate::text::{
    at_most,
    eq_ignore_ascii_case,
    lemma_at_most_transitive,
    lemma_precedes_asymmetric,
    lemma_precedes_irreflexive,
    lemma_precedes_total,
    precedes,
    same_ignoring_case,
    text_precedes,
    texts,
};

verus! {

/// Whether a file name ends in `.wad`, in any mix of upper and lower case.
pub open spec fn is_wad_name(name: Seq<char>) -> bool {
    name.len() >= 4 && same_ignoring_case(name.skip(name.len() - 4), ".wad"@)
}

/// Whether the folder entry `entry` is the IWAD with the canonical file name
/// `filename`: its last component ends in `.wad` and equals the file name up
/// to the case of ASCII letters.
pub open spec fn names_iwad(entry: Seq<char>, filename: Seq<char>) -> bool {
    is_wad_name(basename_spec(entry)) && same_ignoring_case(basename_spec(entry), filename)
}

/// Whether some entry of the folder is the IWAD with the given file name.
pub open spec fn present_in(entries: Seq<Seq<char>>, filename: Seq<char>) -> bool {
    exists|k: int| 0 <= k < entries.len() && names_iwad(#[trigger] entries[k], filename)
}

/// The descriptors whose IWAD is among the entries, each once however many
/// entries name it, in the order of `iwads`.
pub open spec fn found(entries: Seq<Seq<char>>, iwads: Seq<IWadView>) -> Seq<IWadView>
    decreases iwads.len(),
{
    if iwads.len() == 0 {
        Seq::empty()
    } else if present_in(entries, iwads.last().filename) {
        found(entries, iwads.drop_last()).push(iwads.last())
    } else {
        found(entries, iwads.drop_last())
    }
}

/// Whether the display names never descend along the list.
pub open spec fn sorted_by_name(iwads: Seq<IWadView>) -> bool {
    forall|i: int, j: int|
        0 <= i < j < iwads.len() ==> at_most(iwads[i].display_name, iwads[j].display_name)
}

/// A descriptor is found exactly when it is in the list searched for and
/// some entry of the folder names its IWAD. Entries that name no descriptor
/// contribute nothing.
pub proof fn lemma_discovery_sound(entries: Seq<Seq<char>>, iwads: Seq<IWadView>)
    ensures
        forall|d: IWadView|
            #[trigger] found(entries, iwads).contains(d) <==> iwads.contains(d) && present_in(
                entries,
                d.filename,
            ),
    decreases iwads.len(),
{
    if iwads.len() == 0 {
    } else {
        let shorter = iwads.drop_last();
        let last = iwads.last();
        lemma_discovery_sound(entries, shorter);
        assert forall|d: IWadView|
            #[trigger] found(entries, iwads).contains(d) <==> iwads.contains(d) && present_in(
                entries,
                d.filename,
            ) by {
            let result = found(entries, iwads);
            let earlier = found(entries, shorter);
            if result.contains(d) {
                let k = choose|k: int| 0 <= k < result.len() && result[k] == d;
                if k < earlier.len() {
                    assert(earlier[k] == d);
                    assert(earlier.contains(d));
                    let m = choose|m: int| 0 <= m < shorter.len() && shorter[m] == d;
                    assert(iwads[m] == d);
                } else {
                    assert(d == last);
                    assert(iwads[iwads.len() - 1] == d);
                }
            }
            if iwads.contains(d) && present_in(entries, d.filename) {
                let m = choose|m: int| 0 <= m < iwads.len() && iwads[m] == d;
                if m < shorter.len() {
                    assert(shorter[m] == d);
                    assert(shorter.contains(d));
                    assert(earlier.contains(d));
                    let k = choose|k: int| 0 <= k < earlier.len() && earlier[k] == d;
                    assert(result[k] == d);
                } else {
                    assert(result[result.len() - 1] == d);
                }
            }
        }
    }
}

/// Whether a stored folder can be searched: it resolves to a path that is
/// not empty and that exists.
pub open spec fn searchable(
    folder: Seq<char>,
    vars: Map<Seq<char>, Seq<char>>,
    files: Set<Seq<char>>,
) -> bool {
    expand_spec(folder, vars).len() > 0 && files.contains(expand_spec(folder, vars))
}

/// Nothing is found more often than it is listed.
pub proof fn lemma_found_count(entries: Seq<Seq<char>>, iwads: Seq<IWadView>, d: IWadView)
    ensures
        found(entries, iwads).to_multiset().count(d) <= iwads.to_multiset().count(d),
    decreases iwads.len(),
{
    broadcast use vstd::seq_lib::group_to_multiset_ensures;

    if iwads.len() > 0 {
        lemma_found_count(entries, iwads.drop_last(), d);
        assert(iwads.drop_last().push(iwads.last()) =~= iwads);
    }
}

/// A list sorted by display name is determined by its members when no two
/// of them share a display name.
pub proof fn lemma_sorted_unique(a: Seq<IWadView>, b: Seq<IWadView>)
    requires
        sorted_by_name(a),
        sorted_by_name(b),
        a.to_multiset() == b.to_multiset(),
        forall|i: int, j: int| 0 <= i < j < a.len() ==> a[i].display_name != a[j].display_name,
    ensures
        a == b,
    decreases a.len(),
{
    a.to_multiset_ensures();
    b.to_multiset_ensures();
    assert(a.len() == b.len());
    if a.len() == 0 {
        assert(a =~= b);
    } else {
        assert(a.contains(a[0]));
        assert(b.contains(b[0]));
        assert(b.to_multiset().count(a[0]) > 0);
        assert(a.to_multiset().count(b[0]) > 0);
        assert(b.contains(a[0]));
        assert(a.contains(b[0]));
        let k = choose|k: int| 0 <= k < b.len() && b[k] == a[0];
        let m = choose|m: int| 0 <= m < a.len() && a[m] == b[0];
        if m > 0 {
            assert(at_most(a[0].display_name, a[m].display_name));
            if k > 0 {
                assert(at_most(b[0].display_name, b[k].display_name));
            } else {
                lemma_precedes_irreflexive(a[0].display_name);
            }
            lemma_precedes_total(a[0].display_name, b[0].display_name);
            assert(a[0].display_name != a[m].display_name);
        }
        assert(a[0] == b[0]);
        let rest_a = a.remove(0);
        let rest_b = b.remove(0);
        assert(rest_a.to_multiset() == rest_b.to_multiset());
        assert forall|i: int, j: int| 0 <= i < j < rest_a.len() implies at_most(
            rest_a[i].display_name,
            rest_a[j].display_name,
        ) && rest_a[i].display_name != rest_a[j].display_name by {
            assert(rest_a[i] == a[i + 1] && rest_a[j] == a[j + 1]);
        }
        assert forall|i: int, j: int| 0 <= i < j < rest_b.len() implies at_most(
            rest_b[i].display_name,
            rest_b[j].display_name,
        ) by {
            assert(rest_b[i] == b[i + 1] && rest_b[j] == b[j + 1]);
        }
        lemma_sorted_unique(rest_a, rest_b);
        assert(a =~= seq![a[0]] + rest_a);
        assert(b =~= seq![b[0]] + rest_b);
    }
}

/// The pattern by which the IWADs of a folder are enumerated: every entry
/// directly inside the resolved folder whose name ends in `.wad`. A folder
/// that resolves to the empty path, or that does not exist, has no pattern
/// and no IWADs.
pub fn search_pattern(folder: &str, env: &Environment, files: &FileSnapshot) -> (r: Option<
    String,
>)
    ensures
        match r {
            Some(pattern) => searchable(folder@, env@, files@) && pattern@ == expand_spec(
                folder@,
                env@,
            ) + "/*.wad"@,
            None => !searchable(folder@, env@, files@),
        },
{
    let mut resolved = expand(folder, env);
    if resolved.as_str().is_empty() || !files.contains(resolved.as_str()) {
        None
    } else {
        resolved.append("/*.wad");
        Some(resolved)
    }
}

/// Whether a file name ends in `.wad`, in any mix of upper and lower case.
pub fn is_wad_file(name: &str) -> (r: bool)
    ensures
        r == is_wad_name(name@),
{
    let len = name.unicode_len();
    if len < 4 {
        return false;
    }
    let suffix = name.substring_char(len - 4, len);
    assert(suffix@ =~= name@.skip(name@.len() - 4));
    eq_ignore_ascii_case(suffix, ".wad")
}

/// Whether some entry of the folder is the IWAD with the given file name.
pub fn is_present(entries: &Vec<String>, filename: &str) -> (r: bool)
    ensures
        r == present_in(texts(entries@), filename@),
{
    let mut k: usize = 0;
    while k < entries.len()
        invariant
            k <= entries.len(),
            forall|m: int| 0 <= m < k ==> !names_iwad(#[trigger] texts(entries@)[m], filename@),
        decreases entries.len() - k,
    {
        let base = basename(entries[k].as_str());
        if is_wad_file(base.as_str()) && eq_ignore_ascii_case(base.as_str(), filename) {
            assert(names_iwad(texts(entries@)[k as int], filename@));
            return true;
        }
        k = k + 1;
    }
    false
}

/// Inserting an element adds one occurrence of it and changes no other.
proof fn lemma_insert_to_multiset(list: Seq<IWadView>, at: int, d: IWadView)
    requires
        0 <= at <= list.len(),
    ensures
        list.insert(at, d).to_multiset() == list.to_multiset().insert(d),
{
    broadcast use vstd::seq_lib::group_to_multiset_ensures;

    let longer = list.insert(at, d);
    assert(longer.remove(at) =~= list);
    assert(longer[at] == d);
    assert(longer.contains(d));
    assert(longer.to_multiset() =~= list.to_multiset().insert(d));
}

/// Puts `iwad` into a list sorted by display name, behind every entry that
/// does not come after it.
fn insert_by_name(list: &mut Vec<IWadObject>, iwad: IWadObject)
    requires
        sorted_by_name(views(old(list)@)),
    ensures
        sorted_by_name(views(final(list)@)),
        views(final(list)@).to_multiset() == views(old(list)@).to_multiset().insert(iwad@),
{
    let mut at: usize = 0;
    while at < list.len() && !text_precedes(iwad.name(), list[at].name())
        invariant
            at <= list.len(),
            list@ == old(list)@,
            forall|k: int| 0 <= k < at ==> at_most(views(list@)[k].display_name, iwad@.display_name),
        decreases list.len() - at,
    {
        at = at + 1;
    }
    proof {
        let before = views(list@);
        let after = before.insert(at as int, iwad@);
        assert forall|i: int, j: int| 0 <= i < j < after.len() implies at_most(
            after[i].display_name,
            after[j].display_name,
        ) by {
            if j == at {
                assert(after[i] == before[i]);
            } else if i == at {
                assert(after[j] == before[j - 1]);
                assert(precedes(iwad@.display_name, before[at as int].display_name));
                lemma_precedes_asymmetric(iwad@.display_name, before[at as int].display_name);
                if j - 1 > at {
                    lemma_at_most_transitive(
                        iwad@.display_name,
                        before[at as int].display_name,
                        before[j - 1].display_name,
                    );
                }
            } else {
                let bi = if i < at { i } else { i - 1 };
                let bj = if j < at { j } else { j - 1 };
                assert(after[i] == before[bi]);
                assert(after[j] == before[bj]);
            }
        }
        lemma_insert_to_multiset(before, at as int, iwad@);
    }
    list.insert(at, iwad);
    assert(views(list@) =~= views(old(list)@).insert(at as int, iwad@));
}

/// Picks from `iwads` the descriptors whose IWAD is among the entries of a
/// folder and sorts them by display name. An entry counts for a descriptor
/// when its last component ends in `.wad` and equals the descriptor's file
/// name up to the case of ASCII letters. A descriptor is returned once
/// however many entries name it.
pub fn discover(entries: &Vec<String>, iwads: &Vec<IWadObject>) -> (r: Vec<IWadObject>)
    ensures
        sorted_by_name(views(r@)),
        views(r@).to_multiset() == found(texts(entries@), views(iwads@)).to_multiset(),
        forall|d: IWadView|
            views(r@).contains(d) <==> views(iwads@).contains(d) && present_in(
                texts(entries@),
                d.filename,
            ),
{
    let mut r: Vec<IWadObject> = Vec::new();
    let mut i: usize = 0;
    assert(views(iwads@).take(0) =~= Seq::<IWadView>::empty());
    assert(views(r@) =~= Seq::<IWadView>::empty());
    while i < iwads.len()
        invariant
            i <= iwads.len(),
            sorted_by_name(views(r@)),
            views(r@).to_multiset() == found(
                texts(entries@),
                views(iwads@).take(i as int),
            ).to_multiset(),
        decreases iwads.len() - i,
    {
        proof {
            let upto = views(iwads@).take(i + 1);
            assert(upto.drop_last() =~= views(iwads@).take(i as int));
            assert(upto.last() == iwads@[i as int]@);
            broadcast use vstd::seq_lib::group_to_multiset_ensures;

        }
        if is_present(entries, iwads[i].iwad()) {
            insert_by_name(&mut r, iwads[i].clone());
        }
        i = i + 1;
    }
    proof {
        assert(views(iwads@).take(i as int) =~= views(iwads@));
        let all = found(texts(entries@), views(iwads@));
        lemma_discovery_sound(texts(entries@), views(iwads@));
        views(r@).to_multiset_ensures();
        all.to_multiset_ensures();
        assert forall|d: IWadView|
            views(r@).contains(d) <==> views(iwads@).contains(d) && present_in(
                texts(entries@),
                d.filename,
            ) by {
            assert(views(r@).contains(d) <==> views(r@).to_multiset().count(d) > 0);
            assert(all.contains(d) <==> all.to_multiset().count(d) > 0);
        }
    }
    r
}

/// The entries that count for a stored folder: those that were enumerated
/// if the folder can be searched, none otherwise.
pub open spec fn entries_of(
    folder: Seq<char>,
    vars: Map<Seq<char>, Seq<char>>,
    files: Set<Seq<char>>,
    entries: Seq<Seq<char>>,
) -> Seq<Seq<char>> {
    if searchable(folder, vars, files) {
        entries
    } else {
        Seq::empty()
    }
}

/// Discovers the IWADs of a stored folder whose enumerated entries are
/// `entries`. A folder that resolves to the empty path, or that does not
/// exist, has no IWADs whatever was enumerated.
pub fn discover_in(
    folder: &str,
    env: &Environment,
    files: &FileSnapshot,
    entries: &Vec<String>,
    iwads: &Vec<IWadObject>,
) -> (r: Vec<IWadObject>)
    ensures
        sorted_by_name(views(r@)),
        views(r@).to_multiset() == found(
            entries_of(folder@, env@, files@, texts(entries@)),
            views(iwads@),
        ).to_multiset(),
        forall|d: IWadView|
            views(r@).contains(d) <==> views(iwads@).contains(d) && present_in(
                entries_of(folder@, env@, files@, texts(entries@)),
                d.filename,
            ),
{
    match search_pattern(folder, env, files) {
        Some(_) => discover(entries, iwads),
        None => {
            let none: Vec<String> = Vec::new();
            assert(texts(none@) =~= Seq::<Seq<char>>::empty());
            discover(&none, iwads)
        },
    }
}

} // verus!
