//! The table of supported IWADs and the asset packs that accompany each.

use vstd::prelude::*;
use crate::text::{clone_texts, same_text, texts};

verus! {

/// The five groups of optional asset packs, in the order in which they are
/// handed to the game.
#[derive(Clone, Copy, Debug, PartialEq, Eq, Structural)]
pub enum Category {
    Textures,
    Objects,
    Monsters,
    Menus,
    Hud,
}

/// What an [`IWadObject`] stands for: a label, the canonical file name and,
/// per category, the ordered file names of its companion packs.
pub struct IWadView {
    pub display_name: Seq<char>,
    pub filename: Seq<char>,
    pub textures: Seq<Seq<char>>,
    pub objects: Seq<Seq<char>>,
    pub monsters: Seq<Seq<char>>,
    pub menus: Seq<Seq<char>>,
    pub hud: Seq<Seq<char>>,
}

impl IWadView {
    /// The companion packs listed under one category.
    pub open spec fn companions(self, category: Category) -> Seq<Seq<char>> {
        match category {
            Category::Textures => self.textures,
            Category::Objects => self.objects,
            Category::Monsters => self.monsters,
            Category::Menus => self.menus,
            Category::Hud => self.hud,
        }
    }
}

/// One supported IWAD. A value never changes after it was made.
#[derive(Debug)]
pub struct IWadObject {
    name: String,
    iwad: String,
    textures: Vec<String>,
    objects: Vec<String>,
    monsters: Vec<String>,
    menus: Vec<String>,
    hud: Vec<String>,
}

impl View for IWadObject {
    type V = IWadView;

    closed spec fn view(&self) -> IWadView {
        IWadView {
            display_name: self.name@,
            filename: self.iwad@,
            textures: texts(self.textures@),
            objects: texts(self.objects@),
            monsters: texts(self.monsters@),
            menus: texts(self.menus@),
            hud: texts(self.hud@),
        }
    }
}

/// The character sequences named by a list of string slices.
pub open spec fn slice_texts(names: Seq<&str>) -> Seq<Seq<char>> {
    Seq::new(names.len(), |i: int| names[i]@)
}

/// The descriptors that a list of IWADs stands for.
pub open spec fn views(iwads: Seq<IWadObject>) -> Seq<IWadView> {
    Seq::new(iwads.len(), |i: int| iwads[i]@)
}

/// Owned copies of the names in a slice.
fn owned_texts(names: &[&str]) -> (r: Vec<String>)
    ensures
        texts(r@) == slice_texts(names@),
{
    let mut r: Vec<String> = Vec::new();
    let mut i: usize = 0;
    while i < names.len()
        invariant
            i <= names.len(),
            r.len() == i,
            forall|k: int| 0 <= k < i ==> r@[k]@ == names@[k]@,
        decreases names.len() - i,
    {
        r.push(names[i].to_owned());
        i = i + 1;
    }
    assert(texts(r@) =~= slice_texts(names@));
    r
}

impl IWadObject {
    /// A descriptor with the given label, file name and companion packs.
    pub fn new(
        name: &str,
        iwad: &str,
        textures: &[&str],
        objects: &[&str],
        monsters: &[&str],
        menus: &[&str],
        hud: &[&str],
    ) -> (r: Self)
        ensures
            r@ == (IWadView {
                display_name: name@,
                filename: iwad@,
                textures: slice_texts(textures@),
                objects: slice_texts(objects@),
                monsters: slice_texts(monsters@),
                menus: slice_texts(menus@),
                hud: slice_texts(hud@),
            }),
    {
        IWadObject {
            name: name.to_owned(),
            iwad: iwad.to_owned(),
            textures: owned_texts(textures),
            objects: owned_texts(objects),
            monsters: owned_texts(monsters),
            menus: owned_texts(menus),
            hud: owned_texts(hud),
        }
    }

    /// The human-readable label.
    pub fn name(&self) -> (r: &str)
        ensures
            r@ == self@.display_name,
    {
        self.name.as_str()
    }

    /// The canonical file name.
    pub fn iwad(&self) -> (r: &str)
        ensures
            r@ == self@.filename,
    {
        self.iwad.as_str()
    }

    /// The companion packs of one category, in their fixed order.
    pub fn companions(&self, category: Category) -> (r: &Vec<String>)
        ensures
            texts(r@) == self@.companions(category),
    {
        match category {
            Category::Textures => &self.textures,
            Category::Objects => &self.objects,
            Category::Monsters => &self.monsters,
            Category::Menus => &self.menus,
            Category::Hud => &self.hud,
        }
    }
}

impl Clone for IWadObject {
    fn clone(&self) -> (r: Self)
        ensures
            r@ == self@,
    {
        IWadObject {
            name: self.name.clone(),
            iwad: self.iwad.clone(),
            textures: clone_texts(&self.textures),
            objects: clone_texts(&self.objects),
            monsters: clone_texts(&self.monsters),
            menus: clone_texts(&self.menus),
            hud: clone_texts(&self.hud),
        }
    }
}

/// The supported IWADs, in their fixed order, with the companion packs of
/// each. Both Freedoom phases have none.
pub open spec fn catalog_spec() -> Seq<IWadView> {
    seq![
        IWadView {
            display_name: "The Ultimate Doom"@,
            filename: "doom.wad"@,
            textures: seq!["hires-doom-a.pk3"@, "hires-doom-b.pk3"@],
            objects: seq!["objects.pk3"@],
            monsters: seq!["monsters.pk3"@],
            menus: seq!["jfo-udoom.pk3"@],
            hud: seq!["hud-stuff.pk3"@],
        },
        IWadView {
            display_name: "Doom II: Hell on Earth"@,
            filename: "doom2.wad"@,
            textures: seq!["hires-doom-a.pk3"@, "hires-doom-b.pk3"@, "hires-doom2.pk3"@],
            objects: seq!["objects.pk3"@],
            monsters: seq!["monsters.pk3"@],
            menus: seq!["jfo-doom2.pk3"@],
            hud: seq!["hud-stuff.pk3"@],
        },
        IWadView {
            display_name: "Final Doom - The Plutonia Experiment"@,
            filename: "plutonia.wad"@,
            textures: seq![
                "hires-doom-a.pk3"@,
                "hires-doom-b.pk3"@,
                "hires-doom2.pk3"@,
                "hires-plut.pk3"@,
            ],
            objects: seq!["objects.pk3"@],
            monsters: seq!["monsters.pk3"@],
            menus: seq!["jfo-plut.pk3"@],
            hud: seq!["hud-stuff.pk3"@],
        },
        IWadView {
            display_name: "Final Doom - TNT: Evilution"@,
            filename: "tnt.wad"@,
            textures: seq![
                "hires-doom-a.pk3"@,
                "hires-doom-b.pk3"@,
                "hires-doom2.pk3"@,
                "hires-tnt.pk3"@,
            ],
            objects: seq!["objects.pk3"@],
            monsters: seq!["monsters.pk3"@],
            menus: seq!["jfo-tnt.pk3"@],
            hud: seq!["hud-stuff.pk3"@],
        },
        IWadView {
            display_name: "Freedoom Phase 1"@,
            filename: "freedoom1.wad"@,
            textures: seq![],
            objects: seq![],
            monsters: seq![],
            menus: seq![],
            hud: seq![],
        },
        IWadView {
            display_name: "Freedoom Phase 2"@,
            filename: "freedoom2.wad"@,
            textures: seq![],
            objects: seq![],
            monsters: seq![],
            menus: seq![],
            hud: seq![],
        },
        IWadView {
            display_name: "Heretic"@,
            filename: "heretic.wad"@,
            textures: seq!["hires-heretic.pk3"@],
            objects: seq![],
            monsters: seq![],
            menus: seq![],
            hud: seq![],
        },
        IWadView {
            display_name: "Hexen"@,
            filename: "hexen.wad"@,
            textures: seq!["hires-hexen.pk3"@],
            objects: seq![],
            monsters: seq![],
            menus: seq![],
            hud: seq![],
        },
    ]
}

/// Two descriptors with the same label, file name and lists are the same.
proof fn lemma_same_descriptor(a: IWadView, b: IWadView)
    requires
        a.display_name =~= b.display_name,
        a.filename =~= b.filename,
        a.textures =~= b.textures,
        a.objects =~= b.objects,
        a.monsters =~= b.monsters,
        a.menus =~= b.menus,
        a.hud =~= b.hud,
    ensures
        a == b,
{
}

/// Builds the table of supported IWADs.
pub fn catalog() -> (iwads: Vec<IWadObject>)
    ensures
        views(iwads@) == catalog_spec(),
{
    let mut iwads: Vec<IWadObject> = Vec::new();

    let iwad = IWadObject::new(
        "The Ultimate Doom",
        "doom.wad",
        &["hires-doom-a.pk3", "hires-doom-b.pk3"],
        &["objects.pk3"],
        &["monsters.pk3"],
        &["jfo-udoom.pk3"],
        &["hud-stuff.pk3"],
    );
    proof {
        lemma_same_descriptor(iwad@, catalog_spec()[0]);
    }
    iwads.push(iwad);

    let iwad = IWadObject::new(
        "Doom II: Hell on Earth",
        "doom2.wad",
        &["hires-doom-a.pk3", "hires-doom-b.pk3", "hires-doom2.pk3"],
        &["objects.pk3"],
        &["monsters.pk3"],
        &["jfo-doom2.pk3"],
        &["hud-stuff.pk3"],
    );
    proof {
        lemma_same_descriptor(iwad@, catalog_spec()[1]);
    }
    iwads.push(iwad);

    let iwad = IWadObject::new(
        "Final Doom - The Plutonia Experiment",
        "plutonia.wad",
        &["hires-doom-a.pk3", "hires-doom-b.pk3", "hires-doom2.pk3", "hires-plut.pk3"],
        &["objects.pk3"],
        &["monsters.pk3"],
        &["jfo-plut.pk3"],
        &["hud-stuff.pk3"],
    );
    proof {
        lemma_same_descriptor(iwad@, catalog_spec()[2]);
    }
    iwads.push(iwad);

    let iwad = IWadObject::new(
        "Final Doom - TNT: Evilution",
        "tnt.wad",
        &["hires-doom-a.pk3", "hires-doom-b.pk3", "hires-doom2.pk3", "hires-tnt.pk3"],
        &["objects.pk3"],
        &["monsters.pk3"],
        &["jfo-tnt.pk3"],
        &["hud-stuff.pk3"],
    );
    proof {
        lemma_same_descriptor(iwad@, catalog_spec()[3]);
    }
    iwads.push(iwad);

    let iwad = IWadObject::new(
        "Freedoom Phase 1",
        "freedoom1.wad",
        &[],
        &[],
        &[],
        &[],
        &[],
    );
    proof {
        lemma_same_descriptor(iwad@, catalog_spec()[4]);
    }
    iwads.push(iwad);

    let iwad = IWadObject::new(
        "Freedoom Phase 2",
        "freedoom2.wad",
        &[],
        &[],
        &[],
        &[],
        &[],
    );
    proof {
        lemma_same_descriptor(iwad@, catalog_spec()[5]);
    }
    iwads.push(iwad);

    let iwad = IWadObject::new(
        "Heretic",
        "heretic.wad",
        &["hires-heretic.pk3"],
        &[],
        &[],
        &[],
        &[],
    );
    proof {
        lemma_same_descriptor(iwad@, catalog_spec()[6]);
    }
    iwads.push(iwad);

    let iwad = IWadObject::new(
        "Hexen",
        "hexen.wad",
        &["hires-hexen.pk3"],
        &[],
        &[],
        &[],
        &[],
    );
    proof {
        lemma_same_descriptor(iwad@, catalog_spec()[7]);
    }
    iwads.push(iwad);

    assert(views(iwads@) =~= catalog_spec());
    iwads
}

/// The first descriptor of `iwads` with the given file name, compared
/// exactly as written.
pub open spec fn lookup(iwads: Seq<IWadView>, filename: Seq<char>) -> Option<IWadView>
    decreases iwads.len(),
{
    if iwads.len() == 0 {
        None
    } else if iwads[0].filename == filename {
        Some(iwads[0])
    } else {
        lookup(iwads.skip(1), filename)
    }
}

/// A successful lookup returns a member of the list that carries the name
/// asked for; a failed one means that no member carries it.
pub proof fn lemma_lookup_member(iwads: Seq<IWadView>, filename: Seq<char>)
    ensures
        match lookup(iwads, filename) {
            Some(d) => iwads.contains(d) && d.filename == filename,
            None => forall|i: int| 0 <= i < iwads.len() ==> iwads[i].filename != filename,
        },
    decreases iwads.len(),
{
    if iwads.len() > 0 {
        if iwads[0].filename != filename {
            let rest = iwads.skip(1);
            lemma_lookup_member(rest, filename);
            match lookup(rest, filename) {
                Some(d) => {
                    let k = choose|k: int| 0 <= k < rest.len() && rest[k] == d;
                    assert(iwads[k + 1] == d);
                },
                None => {
                    assert forall|i: int| 0 <= i < iwads.len() implies iwads[i].filename
                        != filename by {
                        if i > 0 {
                            assert(rest[i - 1] == iwads[i]);
                        }
                    }
                },
            }
        }
    }
}

/// Finds the position of the first descriptor with the given file name.
pub fn find_iwad(iwads: &Vec<IWadObject>, filename: &str) -> (r: Option<usize>)
    ensures
        match r {
            Some(i) => i < iwads.len() && lookup(views(iwads@), filename@) == Some(iwads[i as int]@),
            None => lookup(views(iwads@), filename@) is None,
        },
{
    let mut i: usize = 0;
    assert(views(iwads@).skip(0) =~= views(iwads@));
    while i < iwads.len()
        invariant
            i <= iwads.len(),
            lookup(views(iwads@), filename@) == lookup(views(iwads@).skip(i as int), filename@),
        decreases iwads.len() - i,
    {
        proof {
            assert(views(iwads@).skip(i as int)[0] == iwads[i as int]@);
            assert(views(iwads@).skip(i as int).skip(1) =~= views(iwads@).skip(i + 1));
        }
        if same_text(iwads[i].iwad(), filename) {
            return Some(i);
        }
        i = i + 1;
    }
    None
}

/// Whether `filename` is the file name of a supported IWAD.
pub open spec fn is_catalog_filename(filename: Seq<char>) -> bool {
    lookup(catalog_spec(), filename) is Some
}

/// No two entries of the table share a file name, and no file name is empty.
pub proof fn lemma_catalog_filenames_unique()
    ensures
        catalog_spec().len() == 8,
        forall|i: int, j: int|
            0 <= i < j < 8 ==> catalog_spec()[i].filename != catalog_spec()[j].filename,
        forall|i: int| 0 <= i < 8 ==> catalog_spec()[i].filename.len() > 0,
{
    reveal_strlit("doom.wad");
    reveal_strlit("doom2.wad");
    reveal_strlit("plutonia.wad");
    reveal_strlit("tnt.wad");
    reveal_strlit("freedoom1.wad");
    reveal_strlit("freedoom2.wad");
    reveal_strlit("heretic.wad");
    reveal_strlit("hexen.wad");
    let c = catalog_spec();
    assert(c[0].filename.len() == 8 && c[1].filename.len() == 9 && c[2].filename.len() == 12);
    assert(c[3].filename.len() == 7 && c[4].filename.len() == 13 && c[5].filename.len() == 13);
    assert(c[6].filename.len() == 11 && c[7].filename.len() == 9);
    assert(c[1].filename[0] != c[7].filename[0]);
    assert(c[4].filename[8] != c[5].filename[8]);
}

/// No two entries of the table share a display name.
pub proof fn lemma_catalog_names_unique()
    ensures
        forall|i: int, j: int|
            0 <= i < j < 8 ==> catalog_spec()[i].display_name != catalog_spec()[j].display_name,
{
    reveal_strlit("The Ultimate Doom");
    reveal_strlit("Doom II: Hell on Earth");
    reveal_strlit("Final Doom - The Plutonia Experiment");
    reveal_strlit("Final Doom - TNT: Evilution");
    reveal_strlit("Freedoom Phase 1");
    reveal_strlit("Freedoom Phase 2");
    reveal_strlit("Heretic");
    reveal_strlit("Hexen");
    let c = catalog_spec();
    assert(c[0].display_name.len() == 17 && c[1].display_name.len() == 22);
    assert(c[2].display_name.len() == 36 && c[3].display_name.len() == 27);
    assert(c[4].display_name.len() == 16 && c[5].display_name.len() == 16);
    assert(c[6].display_name.len() == 7 && c[7].display_name.len() == 5);
    assert(c[4].display_name[15] != c[5].display_name[15]);
}

} // verus!
