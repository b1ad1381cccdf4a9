//! The configuration the core receives: credentials and the system catalog.

use vstd::prelude::*;
use crate::text::{opt_text, same_text, texts};

verus! {

/// A login and its password.
#[derive(Debug)]
pub struct Auth {
    pub login: String,
    pub password: String,
}

/// The two identities a metadata request carries.
#[derive(Debug)]
pub struct ScreenScraper {
    pub dev: Auth,
    pub user: Auth,
}

/// An archive item and the shell pattern that picks its files.
#[derive(Debug)]
pub struct Item {
    pub item: String,
    pub filter: String,
}

/// What an [`Item`] holds.
pub struct ItemView {
    pub item: Seq<char>,
    pub filter: Seq<char>,
}

impl View for Item {
    type V = ItemView;

    open spec fn view(&self) -> ItemView {
        ItemView { item: self.item@, filter: self.filter@ }
    }
}

impl Clone for Item {
    fn clone(&self) -> (r: Self)
        ensures
            r == *self,
    {
        Item { item: self.item.clone(), filter: self.filter.clone() }
    }
}

/// Compiles `pattern` with glob's `Pattern::new` and asks its
/// `Pattern::matches` for `name`; `None` where the pattern does not compile.
/// Nothing is stated of the answer: what glob takes for a path separator
/// differs from one platform to another.
#[verifier::external_body]
fn glob_match(pattern: &str, name: &str) -> Option<bool> {
    match glob::Pattern::new(pattern) {
        Ok(compiled) => Some(compiled.matches(name)),
        Err(_) => None,
    }
}

/// The names of `names` at which `verdicts` says yes, in order; a name
/// without a verdict is not kept.
pub open spec fn kept(names: Seq<Seq<char>>, verdicts: Seq<bool>) -> Seq<Seq<char>>
    decreases names.len(),
{
    if names.len() == 0 {
        Seq::<Seq<char>>::empty()
    } else {
        let before = kept(names.drop_last(), verdicts);
        if names.len() <= verdicts.len() && verdicts[names.len() - 1] {
            before.push(names.last())
        } else {
            before
        }
    }
}

/// The names of `names` at which `verdicts` says yes, in order.
pub fn keep(names: &Vec<String>, verdicts: &Vec<bool>) -> (r: Vec<String>)
    ensures
        texts(r@) == kept(texts(names@), verdicts@),
{
    let mut r: Vec<String> = Vec::new();
    let mut i: usize = 0;
    assert(texts(names@).take(0) == Seq::<Seq<char>>::empty());
    assert(texts(r@) == Seq::<Seq<char>>::empty());
    while i < names.len()
        invariant
            i <= names.len(),
            texts(r@) == kept(texts(names@).take(i as int), verdicts@),
        decreases names.len() - i,
    {
        assert(texts(names@).take(i + 1).drop_last() == texts(names@).take(i as int));
        assert(texts(names@).take(i + 1).last() == names@[i as int]@);
        if i < verdicts.len() && verdicts[i] {
            let ghost before = r@;
            r.push(names[i].clone());
            assert(texts(r@) == texts(before).push(names@[i as int]@));
        }
        i += 1;
    }
    assert(texts(names@).take(names.len() as int) == texts(names@));
    r
}

impl Item {
    /// The files of `names` that the item's filter keeps, in order: each
    /// name is put to glob under the filter, and kept where glob says that
    /// it matches. `None` where glob does not take the filter for a
    /// pattern.
    pub fn select(&self, names: &Vec<String>) -> (r: Option<Vec<String>>)
        ensures
            r matches Some(v) ==> exists|verdicts: Seq<bool>|
                verdicts.len() == names@.len() && texts(v@) == kept(texts(names@), verdicts),
            names@.len() == 0 ==> (r matches Some(v) && v@.len() == 0),
    {
        let mut verdicts: Vec<bool> = Vec::new();
        let mut i: usize = 0;
        while i < names.len()
            invariant
                i <= names.len(),
                verdicts@.len() == i,
            decreases names.len() - i,
        {
            match glob_match(self.filter.as_str(), names[i].as_str()) {
                Some(verdict) => verdicts.push(verdict),
                None => {
                    return None;
                },
            }
            i += 1;
        }
        let v = keep(names, &verdicts);
        assert(texts(v@).len() == v@.len());
        Some(v)
    }
}

/// A target platform.
#[derive(Debug)]
pub struct System {
    pub name: String,
    pub id: u32,
    pub basename: String,
    pub depends: Option<String>,
    pub dir: String,
    pub checksum: Option<String>,
    pub ia_items: Option<Vec<Item>>,
}

/// What a [`System`] holds.
pub struct SystemView {
    pub name: Seq<char>,
    pub id: u32,
    pub basename: Seq<char>,
    pub depends: Option<Seq<char>>,
    pub dir: Seq<char>,
    pub checksum: Option<Seq<char>>,
    pub ia_items: Option<Seq<ItemView>>,
}

/// The views of the items of `v`, in order.
pub open spec fn item_views(v: Seq<Item>) -> Seq<ItemView> {
    v.map_values(|i: Item| i@)
}

impl View for System {
    type V = SystemView;

    open spec fn view(&self) -> SystemView {
        SystemView {
            name: self.name@,
            id: self.id,
            basename: self.basename@,
            depends: opt_text(self.depends),
            dir: self.dir@,
            checksum: opt_text(self.checksum),
            ia_items: match self.ia_items {
                Some(v) => Some(item_views(v@)),
                None => None,
            },
        }
    }
}

fn clone_items(items: &Vec<Item>) -> (r: Vec<Item>)
    ensures
        item_views(r@) == item_views(items@),
{
    let mut r: Vec<Item> = Vec::new();
    let mut i: usize = 0;
    while i < items.len()
        invariant
            i <= items.len(),
            r@ == items@.take(i as int),
        decreases items.len() - i,
    {
        r.push(items[i].clone());
        assert(items@.take(i + 1) == items@.take(i as int).push(items@[i as int]));
        i += 1;
    }
    assert(items@.take(items.len() as int) == items@);
    r
}

impl Clone for System {
    fn clone(&self) -> (r: Self)
        ensures
            r@ == self@,
    {
        System {
            name: self.name.clone(),
            id: self.id,
            basename: self.basename.clone(),
            depends: self.depends.clone(),
            dir: self.dir.clone(),
            checksum: self.checksum.clone(),
            ia_items: match &self.ia_items {
                Some(v) => Some(clone_items(v)),
                None => None,
            },
        }
    }
}

/// The whole configuration.
#[derive(Debug)]
pub struct Conf {
    pub screenscraper: ScreenScraper,
    pub systems: Vec<System>,
}

/// A game already known by its identifier.
pub struct Reference {
    pub gameid: u64,
    pub gamerom: String,
    pub systemid: u32,
}

/// The system that stands for a name the catalog does not hold.
pub open spec fn unknown_system() -> SystemView {
    SystemView {
        name: "unknown"@,
        id: 0,
        basename: "unknown-rom-"@,
        depends: None,
        dir: "unknown"@,
        checksum: None,
        ia_items: None,
    }
}

/// The first system of `systems` called `name`, or [`unknown_system`].
pub open spec fn found_system(systems: Seq<System>, name: Seq<char>) -> SystemView
    decreases systems.len(),
{
    if systems.len() == 0 {
        unknown_system()
    } else if systems[0].name@ == name {
        systems[0]@
    } else {
        found_system(systems.drop_first(), name)
    }
}

impl Conf {
    /// The first system of the catalog whose name is `name`; where there is
    /// none, the system [`unknown_system`].
    pub fn system_find(&self, name: &str) -> (r: System)
        ensures
            r@ == found_system(self.systems@, name@),
    {
        let mut i: usize = 0;
        assert(self.systems@.skip(0) == self.systems@);
        while i < self.systems.len()
            invariant
                i <= self.systems.len(),
                found_system(self.systems@, name@) == found_system(
                    self.systems@.skip(i as int),
                    name@,
                ),
            decreases self.systems.len() - i,
        {
            if same_text(self.systems[i].name.as_str(), name) {
                return self.systems[i].clone();
            }
            assert(self.systems@.skip(i as int).drop_first() == self.systems@.skip(i + 1));
            i += 1;
        }
        System {
            name: "unknown".to_string(),
            id: 0,
            basename: "unknown-rom-".to_string(),
            depends: None,
            checksum: None,
            dir: "unknown".to_string(),
            ia_items: None,
        }
    }
}

impl System {
    /// Whether the `checksum` setting is present and reads `disable`.
    pub open spec fn skips_checksum(&self) -> bool {
        self.checksum matches Some(c) && c@ == "disable"@
    }

    /// Whether the checksum is left out of a metadata request: the
    /// `checksum` setting is present and reads `disable`.
    pub fn checksum_disabled(&self) -> (r: bool)
        ensures
            r == self.skips_checksum(),
    {
        match &self.checksum {
            Some(x) => same_text(x.as_str(), "disable"),
            None => false,
        }
    }
}

} // verus!
