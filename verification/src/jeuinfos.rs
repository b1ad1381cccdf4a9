//! The raw record of one game, and the resolvers that read it: localized
//! names, synopses, dates and genres, and the choice of a media asset.

use vstd::prelude::*;
use crate::conf::{Conf, System};
use crate::resolve::{keyed, lemma_resolved_concat, lookup, resolve, resolved, Localized};
use crate::screenscraper::{Header, Response};
use crate::text::{
    decimal, decimal_text, lowercase, lowercase_text, opt_text, owned, same_text, split,
    split_text, strs,
};

verus! {

/// A text for one region.
#[derive(Debug)]
pub struct GenericRegionText {
    pub region: String,
    pub text: String,
}

/// A text with the provider's identifier of what it names.
#[derive(Debug)]
pub struct GenericIdText {
    pub id: String,
    pub text: String,
}

/// A bare text.
#[derive(Debug)]
pub struct GenericText {
    pub text: String,
}

/// A text for one language.
#[derive(Debug)]
pub struct GenericLangueText {
    pub langue: String,
    pub text: String,
}

/// An age or content rating by one rating board.
#[derive(Debug)]
pub struct Classification {
    pub name: String,
    pub text: String,
}

/// A genre, mode, family or style, named in several languages.
#[derive(Debug)]
pub struct GenericObject {
    pub id: String,
    pub principale: String,
    pub parentid: String,
    pub noms: Vec<GenericLangueText>,
}

/// One media asset of a game.
///
/// `sha1` is the checksum the provider declares and is advisory only;
/// `verified` is the checksum computed from the file once it was fetched.
#[derive(Debug)]
pub struct Media {
    pub name: String,
    pub parent: String,
    pub url: String,
    pub region: Option<String>,
    pub crc: String,
    pub md5: String,
    pub sha1: String,
    pub format: String,
    pub verified: Option<String>,
}

/// One dump of a game.
#[derive(Debug)]
pub struct Rom {
    pub id: Option<String>,
    pub romsize: Option<String>,
    pub romfilename: String,
    pub romregions: Option<String>,
    pub romnumsupport: Option<String>,
    pub romtotalsupport: Option<String>,
    pub romcloneof: String,
    pub romcrc: Option<String>,
    pub rommd5: Option<String>,
    pub romsha1: Option<String>,
    pub beta: String,
    pub demo: String,
    pub proto: String,
    pub trad: String,
    pub hack: String,
    pub unl: String,
    pub alt: String,
    pub best: String,
    pub netplay: String,
}

/// The raw record of one game.
#[derive(Debug)]
pub struct JeuInfos {
    pub id: String,
    pub romid: Option<String>,
    pub notgame: String,
    pub noms: Vec<GenericRegionText>,
    pub systemeid: String,
    pub systemenom: String,
    pub editeur: Option<GenericIdText>,
    pub developpeur: Option<GenericIdText>,
    pub joueurs: Option<GenericText>,
    pub note: Option<GenericText>,
    pub topstaff: String,
    pub rotation: String,
    pub synopsis: Option<Vec<GenericLangueText>>,
    pub classifications: Option<Vec<Classification>>,
    pub dates: Option<Vec<GenericRegionText>>,
    pub genres: Option<Vec<GenericObject>>,
    pub modes: Option<Vec<GenericObject>>,
    pub familles: Option<Vec<GenericObject>>,
    pub styles: Option<Vec<GenericObject>>,
    pub medias: Vec<Media>,
    pub roms: Vec<Rom>,
    pub rom: Option<Rom>,
}

/// A whole answer of the provider.
#[derive(Debug)]
pub struct JeuInfosResult {
    pub header: Header,
    pub response: Response,
}

impl Localized for GenericRegionText {
    open spec fn code(&self) -> Seq<char> {
        self.region@
    }

    open spec fn value(&self) -> Seq<char> {
        self.text@
    }

    fn has_code(&self, code: &str) -> (r: bool) {
        same_text(self.region.as_str(), code)
    }

    fn value_text(&self) -> (r: String) {
        self.text.clone()
    }
}

impl Localized for GenericLangueText {
    open spec fn code(&self) -> Seq<char> {
        self.langue@
    }

    open spec fn value(&self) -> Seq<char> {
        self.text@
    }

    fn has_code(&self, code: &str) -> (r: bool) {
        same_text(self.langue.as_str(), code)
    }

    fn value_text(&self) -> (r: String) {
        self.text.clone()
    }
}

impl Clone for Media {
    fn clone(&self) -> (r: Self)
        ensures
            r == *self,
    {
        Media {
            name: self.name.clone(),
            parent: self.parent.clone(),
            url: self.url.clone(),
            region: self.region.clone(),
            crc: self.crc.clone(),
            md5: self.md5.clone(),
            sha1: self.sha1.clone(),
            format: self.format.clone(),
            verified: self.verified.clone(),
        }
    }
}

impl Media {
    /// The checksum that counts: the verified one where the asset was
    /// fetched, the declared one before that.
    pub open spec fn checksum(&self) -> Seq<char> {
        match self.verified {
            Some(v) => v@,
            None => self.sha1@,
        }
    }

    /// The checksum that counts.
    pub fn authoritative_sha1(&self) -> (r: String)
        ensures
            r@ == self.checksum(),
    {
        match &self.verified {
            Some(v) => v.clone(),
            None => self.sha1.clone(),
        }
    }

    /// Whether the file on disk is the asset already: it has a checksum,
    /// and that is the declared one, letter case aside.
    pub open spec fn is_fetched(&self, on_disk: Option<Seq<char>>) -> bool {
        on_disk matches Some(h) && lowercase(h) == lowercase(self.sha1@)
    }

    /// Whether the asset has to be fetched, given the checksum of the file
    /// that stands at its destination, if one does.
    pub fn needs_download(&self, on_disk: &Option<String>) -> (r: bool)
        ensures
            r == !self.is_fetched(opt_text(*on_disk)),
    {
        match on_disk {
            Some(h) => {
                let found = lowercase_text(h.as_str());
                let declared = lowercase_text(self.sha1.as_str());
                !same_text(found.as_str(), declared.as_str())
            },
            None => true,
        }
    }

    /// Takes note of the checksum computed from the fetched file: it is
    /// the verified checksum from now on, unless it is empty. The declared
    /// checksum stays as the provider gave it.
    pub fn record_download(&mut self, hash: String)
        ensures
            final(self).verified == (if hash@.len() > 0 {
                Some(hash)
            } else {
                old(self).verified
            }),
            final(self).name == old(self).name,
            final(self).parent == old(self).parent,
            final(self).url == old(self).url,
            final(self).region == old(self).region,
            final(self).crc == old(self).crc,
            final(self).md5 == old(self).md5,
            final(self).sha1 == old(self).sha1,
            final(self).format == old(self).format,
    {
        if !hash.as_str().is_empty() {
            self.verified = Some(hash);
        }
    }
}

/// The text that stands for a field that could not be resolved.
pub open spec fn unknown() -> Seq<char> {
    "Unknown"@
}

/// Whether an asset is of kind `kind` and fit for `region`: it names that
/// region, or none.
pub open spec fn eligible(m: Media, kind: Seq<char>, region: Seq<char>) -> bool {
    m.name@ == kind && (m.region matches Some(r) ==> r@ == region)
}

/// The first asset of the list that is [`eligible`].
pub open spec fn first_eligible(medias: Seq<Media>, kind: Seq<char>, region: Seq<char>) -> Option<
    Media,
>
    decreases medias.len(),
{
    if medias.len() == 0 {
        None
    } else if eligible(medias[0], kind, region) {
        Some(medias[0])
    } else {
        first_eligible(medias.drop_first(), kind, region)
    }
}

/// The asset of kind `kind` for the first region of `regions` that has one.
pub open spec fn chosen_in_regions(
    medias: Seq<Media>,
    kind: Seq<char>,
    regions: Seq<Seq<char>>,
) -> Option<Media>
    decreases regions.len(),
{
    if regions.len() == 0 {
        None
    } else {
        match first_eligible(medias, kind, regions[0]) {
            Some(m) => Some(m),
            None => chosen_in_regions(medias, kind, regions.drop_first()),
        }
    }
}

/// The asset for the first kind of `kinds` that has one in any region: each
/// kind is tried over all regions before the next kind is.
pub open spec fn chosen(medias: Seq<Media>, kinds: Seq<Seq<char>>, regions: Seq<Seq<char>>) -> Option<
    Media,
>
    decreases kinds.len(),
{
    if kinds.len() == 0 {
        None
    } else {
        match chosen_in_regions(medias, kinds[0], regions) {
            Some(m) => Some(m),
            None => chosen(medias, kinds.drop_first(), regions),
        }
    }
}

/// The region priority of media selection.
pub open spec fn media_regions() -> Seq<Seq<char>> {
    seq!["fr"@, "eu"@, "us"@, "wor"@, "jp"@, "ss"@]
}

/// The region priority of media selection.
pub fn media_region_list() -> (r: Vec<&'static str>)
    ensures
        strs(r@) == media_regions(),
{
    let r = vec!["fr", "eu", "us", "wor", "jp", "ss"];
    assert(strs(r@) =~= media_regions());
    r
}

fn is_eligible(m: &Media, kind: &str, region: &str) -> (r: bool)
    ensures
        r == eligible(*m, kind@, region@),
{
    if !same_text(m.name.as_str(), kind) {
        return false;
    }
    match &m.region {
        Some(x) => same_text(x.as_str(), region),
        None => true,
    }
}

fn find_eligible(medias: &Vec<Media>, kind: &str, region: &str) -> (r: Option<Media>)
    ensures
        r == first_eligible(medias@, kind@, region@),
{
    let mut i: usize = 0;
    assert(medias@.skip(0) == medias@);
    while i < medias.len()
        invariant
            i <= medias.len(),
            first_eligible(medias@, kind@, region@) == first_eligible(
                medias@.skip(i as int),
                kind@,
                region@,
            ),
        decreases medias.len() - i,
    {
        if is_eligible(&medias[i], kind, region) {
            return Some(medias[i].clone());
        }
        assert(medias@.skip(i as int).drop_first() == medias@.skip(i + 1));
        i += 1;
    }
    None
}

fn choose_in_regions(medias: &Vec<Media>, kind: &str, regions: &Vec<&str>) -> (r: Option<Media>)
    ensures
        r == chosen_in_regions(medias@, kind@, strs(regions@)),
{
    let mut i: usize = 0;
    assert(strs(regions@).skip(0) == strs(regions@));
    while i < regions.len()
        invariant
            i <= regions.len(),
            chosen_in_regions(medias@, kind@, strs(regions@)) == chosen_in_regions(
                medias@,
                kind@,
                strs(regions@).skip(i as int),
            ),
        decreases regions.len() - i,
    {
        let found = find_eligible(medias, kind, regions[i]);
        if found.is_some() {
            return found;
        }
        assert(strs(regions@).skip(i as int).drop_first() == strs(regions@).skip(i + 1));
        i += 1;
    }
    None
}

/// Chooses among `medias` the asset for a logical kind: `kinds` holds the
/// provider's names for it, best first, and `regions` the region priority.
pub fn choose_media(medias: &Vec<Media>, kinds: &Vec<&str>, regions: &Vec<&str>) -> (r: Option<
    Media,
>)
    ensures
        r == chosen(medias@, strs(kinds@), strs(regions@)),
{
    let mut i: usize = 0;
    assert(strs(kinds@).skip(0) == strs(kinds@));
    while i < kinds.len()
        invariant
            i <= kinds.len(),
            chosen(medias@, strs(kinds@), strs(regions@)) == chosen(
                medias@,
                strs(kinds@).skip(i as int),
                strs(regions@),
            ),
        decreases kinds.len() - i,
    {
        let found = choose_in_regions(medias, kinds[i], regions);
        if found.is_some() {
            return found;
        }
        assert(strs(kinds@).skip(i as int).drop_first() == strs(kinds@).skip(i + 1));
        i += 1;
    }
    None
}

/// The region codes that the game's own dump prefers, in its order.
pub open spec fn rom_regions(rom: Option<Rom>) -> Seq<Seq<char>> {
    match rom {
        Some(x) => match x.romregions {
            Some(y) => split(y@, ','),
            None => Seq::<Seq<char>>::empty(),
        },
        None => Seq::<Seq<char>>::empty(),
    }
}

/// The text of the first principal genre that is named in language `code`.
pub open spec fn genre_keyed(genres: Seq<GenericObject>, code: Seq<char>) -> Option<Seq<char>>
    decreases genres.len(),
{
    if genres.len() == 0 {
        None
    } else if genres[0].principale@ == "1"@ && keyed(genres[0].noms@, code) is Some {
        keyed(genres[0].noms@, code)
    } else {
        genre_keyed(genres.drop_first(), code)
    }
}

/// The principal genre's name in the first language of `prefs` that names one.
pub open spec fn genre_resolved(genres: Seq<GenericObject>, prefs: Seq<Seq<char>>) -> Option<
    Seq<char>,
>
    decreases prefs.len(),
{
    if prefs.len() == 0 {
        None
    } else {
        match genre_keyed(genres, prefs[0]) {
            Some(v) => Some(v),
            None => genre_resolved(genres, prefs.drop_first()),
        }
    }
}

fn genre_lookup(genres: &Vec<GenericObject>, code: &str) -> (r: Option<String>)
    ensures
        opt_text(r) == genre_keyed(genres@, code@),
{
    let mut i: usize = 0;
    assert(genres@.skip(0) == genres@);
    while i < genres.len()
        invariant
            i <= genres.len(),
            genre_keyed(genres@, code@) == genre_keyed(genres@.skip(i as int), code@),
        decreases genres.len() - i,
    {
        if same_text(genres[i].principale.as_str(), "1") {
            let found = lookup(&genres[i].noms, code);
            if found.is_some() {
                return found;
            }
        }
        assert(genres@.skip(i as int).drop_first() == genres@.skip(i + 1));
        i += 1;
    }
    None
}

fn genre_resolve(genres: &Vec<GenericObject>, fav: &Vec<&str>) -> (r: Option<String>)
    ensures
        opt_text(r) == genre_resolved(genres@, strs(fav@)),
{
    let mut i: usize = 0;
    assert(strs(fav@).skip(0) == strs(fav@));
    while i < fav.len()
        invariant
            i <= fav.len(),
            genre_resolved(genres@, strs(fav@)) == genre_resolved(
                genres@,
                strs(fav@).skip(i as int),
            ),
        decreases fav.len() - i,
    {
        let found = genre_lookup(genres, fav[i]);
        if found.is_some() {
            return found;
        }
        assert(strs(fav@).skip(i as int).drop_first() == strs(fav@).skip(i + 1));
        i += 1;
    }
    None
}

/// A resolved text, or [`unknown`].
pub open spec fn or_unknown(o: Option<Seq<char>>) -> Seq<char> {
    match o {
        Some(v) => v,
        None => unknown(),
    }
}

fn text_or_unknown(o: Option<String>) -> (r: String)
    ensures
        r@ == or_unknown(opt_text(o)),
{
    match o {
        Some(v) => v,
        None => "Unknown".to_string(),
    }
}

impl JeuInfos {
    /// The name [`JeuInfos::find_name`] resolves.
    pub open spec fn name_for(&self, fav: Seq<Seq<char>>) -> Seq<char> {
        match resolved(self.noms@, rom_regions(self.rom)) {
            Some(v) => v,
            None => or_unknown(resolved(self.noms@, fav)),
        }
    }

    /// The synopsis [`JeuInfos::find_desc`] resolves.
    pub open spec fn desc_for(&self, fav: Seq<Seq<char>>) -> Seq<char> {
        match self.synopsis {
            Some(x) => or_unknown(resolved(x@, fav)),
            None => unknown(),
        }
    }

    /// The date [`JeuInfos::find_date`] resolves.
    pub open spec fn date_for(&self, fav: Seq<Seq<char>>) -> Seq<char> {
        match self.dates {
            Some(x) => or_unknown(resolved(x@, fav)),
            None => unknown(),
        }
    }

    /// The genre [`JeuInfos::find_genre`] resolves.
    pub open spec fn genre_for(&self, fav: Seq<Seq<char>>) -> Seq<char> {
        match self.genres {
            Some(x) => or_unknown(genre_resolved(x@, fav)),
            None => unknown(),
        }
    }

    /// The asset of kind `name`, by the fixed region priority
    /// [`media_regions`]; the record is left as it was.
    pub fn media(&mut self, name: &str) -> (r: Option<Media>)
        ensures
            *final(self) == *old(self),
            r == chosen(old(self).medias@, seq![name@], media_regions()),
    {
        let regions = media_region_list();
        let kinds = vec![name];
        assert(strs(kinds@) =~= seq![name@]);
        choose_media(&self.medias, &kinds, &regions)
    }

    /// The game's name: by the regions of its own dump first, in their
    /// order, then by `fav`; [`unknown`] where neither names it.
    pub fn find_name(&self, fav: &Vec<&str>) -> (r: String)
        ensures
            r@ == self.name_for(strs(fav@)),
    {
        if let Some(x) = &self.rom {
            if let Some(y) = &x.romregions {
                let own = split_text(y.as_str(), ',');
                let found = resolve(&self.noms, &own);
                if found.is_some() {
                    return found.unwrap();
                }
            }
        }
        let prefs = owned(fav);
        text_or_unknown(resolve(&self.noms, &prefs))
    }

    /// The synopsis in the first language of `fav` that has one.
    pub fn find_desc(&self, fav: &Vec<&str>) -> (r: String)
        ensures
            r@ == self.desc_for(strs(fav@)),
    {
        match &self.synopsis {
            Some(x) => {
                let prefs = owned(fav);
                text_or_unknown(resolve(x, &prefs))
            },
            None => "Unknown".to_string(),
        }
    }

    /// The release date, as the provider wrote it, for the first region of
    /// `fav` that has one.
    pub fn find_date(&self, fav: &Vec<&str>) -> (r: String)
        ensures
            r@ == self.date_for(strs(fav@)),
    {
        match &self.dates {
            Some(x) => {
                let prefs = owned(fav);
                text_or_unknown(resolve(x, &prefs))
            },
            None => "Unknown".to_string(),
        }
    }

    /// The name of the principal genre in the first language of `fav` that
    /// names one; genres that are not principal are passed over.
    pub fn find_genre(&self, fav: &Vec<&str>) -> (r: String)
        ensures
            r@ == self.genre_for(strs(fav@)),
    {
        match &self.genres {
            Some(x) => text_or_unknown(genre_resolve(x, fav)),
            None => "Unknown".to_string(),
        }
    }
}

/// [`first_eligible`] is the leftmost eligible asset, and is none only
/// where no asset is eligible.
pub proof fn lemma_first_eligible(medias: Seq<Media>, kind: Seq<char>, region: Seq<char>)
    ensures
        match first_eligible(medias, kind, region) {
            Some(m) => exists|i: int|
                #![trigger medias[i]]
                0 <= i < medias.len() && medias[i] == m && eligible(m, kind, region) && forall|
                    j: int,
                | 0 <= j < i ==> !eligible(#[trigger] medias[j], kind, region),
            None => forall|i: int|
                0 <= i < medias.len() ==> !eligible(#[trigger] medias[i], kind, region),
        },
    decreases medias.len(),
{
    if medias.len() == 0 {
    } else if eligible(medias[0], kind, region) {
    } else {
        let rest = medias.drop_first();
        lemma_first_eligible(rest, kind, region);
        assert forall|i: int| 0 <= i < rest.len() implies rest[i] == medias[i + 1] by {}
        match first_eligible(rest, kind, region) {
            Some(m) => {
                let i = choose|i: int|
                    #![trigger rest[i]]
                    0 <= i < rest.len() && rest[i] == m && eligible(m, kind, region) && forall|
                        j: int,
                    | 0 <= j < i ==> !eligible(#[trigger] rest[j], kind, region);
                assert(medias[i + 1] == m);
                assert forall|j: int| 0 <= j < i + 1 implies !eligible(
                    #[trigger] medias[j],
                    kind,
                    region,
                ) by {
                    if j > 0 {
                        assert(rest[j - 1] == medias[j]);
                    }
                }
            },
            None => {
                assert forall|i: int| 0 <= i < medias.len() implies !eligible(
                    #[trigger] medias[i],
                    kind,
                    region,
                ) by {
                    if i > 0 {
                        assert(rest[i - 1] == medias[i]);
                    }
                }
            },
        }
    }
}

/// An asset chosen for a kind is one of the list and bears that kind's name.
pub proof fn lemma_chosen_in_regions(medias: Seq<Media>, kind: Seq<char>, regions: Seq<Seq<char>>)
    ensures
        chosen_in_regions(medias, kind, regions) matches Some(m) ==> medias.contains(m) && m.name@
            == kind,
        chosen_in_regions(medias, kind, regions) is None ==> forall|i: int, k: int|
            0 <= i < medias.len() && 0 <= k < regions.len() ==> !eligible(
                #[trigger] medias[i],
                kind,
                #[trigger] regions[k],
            ),
    decreases regions.len(),
{
    if regions.len() > 0 {
        lemma_first_eligible(medias, kind, regions[0]);
        if first_eligible(medias, kind, regions[0]) is None {
            let rest = regions.drop_first();
            lemma_chosen_in_regions(medias, kind, rest);
            if chosen_in_regions(medias, kind, rest) is None {
                assert forall|i: int, k: int|
                    0 <= i < medias.len() && 0 <= k < regions.len() implies !eligible(
                    #[trigger] medias[i],
                    kind,
                    #[trigger] regions[k],
                ) by {
                    if k > 0 {
                        assert(rest[k - 1] == regions[k]);
                    }
                }
            }
        }
    }
}

/// Where a kind has two names and the list holds assets under the second
/// name only, one of them fit for a region of the priority, the choice
/// falls on an asset under the second name.
pub proof fn lemma_secondary_synonym(
    medias: Seq<Media>,
    primary: Seq<char>,
    secondary: Seq<char>,
    regions: Seq<Seq<char>>,
    at: int,
    region: int,
)
    requires
        forall|i: int| 0 <= i < medias.len() ==> (#[trigger] medias[i]).name@ != primary,
        0 <= at < medias.len(),
        0 <= region < regions.len(),
        eligible(medias[at], secondary, regions[region]),
    ensures
        chosen(medias, seq![primary, secondary], regions) matches Some(m) && medias.contains(m)
            && m.name@ == secondary,
{
    let kinds = seq![primary, secondary];
    lemma_chosen_in_regions(medias, primary, regions);
    if chosen_in_regions(medias, primary, regions) is Some {
        let m = chosen_in_regions(medias, primary, regions).unwrap();
        let i = choose|i: int| 0 <= i < medias.len() && medias[i] == m;
        assert(medias[i].name@ != primary);
    }
    lemma_chosen_in_regions(medias, secondary, regions);
    assert(kinds.drop_first() =~= seq![secondary]);
    assert(kinds.drop_first()[0] == secondary);
    assert(chosen(medias, kinds.drop_first(), regions) == chosen_in_regions(
        medias,
        secondary,
        regions,
    )) by {
        assert(kinds.drop_first().drop_first().len() == 0);
    }
}

/// Whether a genre counts for resolution under `code`: it is principal and
/// named in that language.
pub open spec fn names_genre(genre: GenericObject, code: Seq<char>) -> bool {
    genre.principale@ == "1"@ && keyed(genre.noms@, code) is Some
}

/// The genre resolved for a language is the name that the leftmost
/// principal genre with a name in that language has in it; a genre that is
/// not principal never counts, whatever its names.
pub proof fn lemma_genre_keyed(genres: Seq<GenericObject>, code: Seq<char>)
    ensures
        match genre_keyed(genres, code) {
            Some(v) => exists|i: int|
                #![trigger genres[i]]
                0 <= i < genres.len() && names_genre(genres[i], code) && keyed(
                    genres[i].noms@,
                    code,
                ) == Some(v) && forall|j: int|
                    0 <= j < i ==> !names_genre(#[trigger] genres[j], code),
            None => forall|i: int|
                0 <= i < genres.len() ==> !names_genre(#[trigger] genres[i], code),
        },
    decreases genres.len(),
{
    if genres.len() == 0 {
    } else if names_genre(genres[0], code) {
    } else {
        let rest = genres.drop_first();
        lemma_genre_keyed(rest, code);
        assert forall|i: int| 0 <= i < rest.len() implies rest[i] == genres[i + 1] by {}
        match genre_keyed(rest, code) {
            Some(v) => {
                let i = choose|i: int|
                    #![trigger rest[i]]
                    0 <= i < rest.len() && names_genre(rest[i], code) && keyed(
                        rest[i].noms@,
                        code,
                    ) == Some(v) && forall|j: int|
                        0 <= j < i ==> !names_genre(#[trigger] rest[j], code);
                assert(names_genre(genres[i + 1], code));
                assert forall|j: int| 0 <= j < i + 1 implies !names_genre(
                    #[trigger] genres[j],
                    code,
                ) by {
                    if j > 0 {
                        assert(rest[j - 1] == genres[j]);
                    }
                }
            },
            None => {
                assert forall|i: int| 0 <= i < genres.len() implies !names_genre(
                    #[trigger] genres[i],
                    code,
                ) by {
                    if i > 0 {
                        assert(rest[i - 1] == genres[i]);
                    }
                }
            },
        }
    }
}

/// The name of a game is resolved over one list: the regions of its own
/// dump, in their order, followed by the given priority.
pub proof fn lemma_name_for(jeu: JeuInfos, fav: Seq<Seq<char>>)
    ensures
        jeu.name_for(fav) == or_unknown(resolved(jeu.noms@, rom_regions(jeu.rom) + fav)),
{
    lemma_resolved_concat(jeu.noms@, rom_regions(jeu.rom), fav);
}

/// Where the provider answers requests for a game's record.
pub const PROVIDER: &'static str = "https://www.screenscraper.fr/api2/jeuInfos.php";

/// The texts of a list of parameters.
pub open spec fn parameters(v: Seq<(&'static str, String)>) -> Seq<(Seq<char>, Seq<char>)> {
    v.map_values(|p: (&'static str, String)| (p.0@, p.1@))
}

/// The parameters of the request for a game's record: the two identities,
/// the platform and the file's name, then the file's checksum unless the
/// platform does without it, then the game's identifier unless it is `0`.
pub open spec fn request(
    conf: Conf,
    system: System,
    game: Seq<char>,
    sha1: Seq<char>,
    rom: Seq<char>,
) -> Seq<(Seq<char>, Seq<char>)> {
    seq![
        ("devid"@, conf.screenscraper.dev.login@),
        ("devpassword"@, conf.screenscraper.dev.password@),
        ("softname"@, "RomPom"@),
        ("ssid"@, conf.screenscraper.user.login@),
        ("sspassword"@, conf.screenscraper.user.password@),
        ("output"@, "json"@),
        ("systemeid"@, decimal(system.id as nat)),
        ("romnom"@, rom),
    ] + (if system.skips_checksum() {
        Seq::<(Seq<char>, Seq<char>)>::empty()
    } else {
        seq![("sha1"@, sha1)]
    }) + (if game == "0"@ {
        Seq::<(Seq<char>, Seq<char>)>::empty()
    } else {
        seq![("gameid"@, game)]
    })
}

impl JeuInfos {
    /// The parameters of the request for the record of the file `rom` on
    /// `system`, whose checksum is `sha1` and whose game is `game`, or `0`
    /// where the game is not known.
    pub fn query(conf: &Conf, system: &System, game: &String, sha1: &String, rom: &String) -> (r:
        Vec<(&'static str, String)>)
        ensures
            parameters(r@) == request(*conf, *system, game@, sha1@, rom@),
    {
        let mut query: Vec<(&'static str, String)> = Vec::new();
        query.push(("devid", conf.screenscraper.dev.login.clone()));
        query.push(("devpassword", conf.screenscraper.dev.password.clone()));
        query.push(("softname", "RomPom".to_string()));
        query.push(("ssid", conf.screenscraper.user.login.clone()));
        query.push(("sspassword", conf.screenscraper.user.password.clone()));
        query.push(("output", "json".to_string()));
        query.push(("systemeid", decimal_text(system.id)));
        query.push(("romnom", rom.clone()));
        if !system.checksum_disabled() {
            query.push(("sha1", sha1.clone()));
        }
        if !same_text(game.as_str(), "0") {
            query.push(("gameid", game.clone()));
        }
        assert(parameters(query@) =~= request(*conf, *system, game@, sha1@, rom@));
        query
    }
}

} // verus!
