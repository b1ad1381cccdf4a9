//! The package of one game: the choice of its media, its description record
//! and its package descriptor.

use vstd::prelude::*;
use vstd::string::*;
use crate::conf::System;
use crate::emulationstation::{described, Game, GameView};
use crate::jeuinfos::{choose_media, chosen, media_region_list, media_regions, JeuInfos, Media};
use crate::name::{normalize, normalized};
use crate::profile::{
    in_single_quotes, standard_profile, PackagingProfile, ProfileRegistry, APOSTROPHE,
    APOSTROPHE_ESCAPED,
};
use crate::text::{
    decimal, join, opt_text, push_decimal, push_line, replace_all, strs, tail_after,
    tail_after_text, texts,
};

verus! {

/// The package descriptor: what the package build tool is told.
///
/// `source` and `sha1sums` are parallel: the checksum at an index is that
/// of the source at the same index.
pub struct Pkgbuild {
    pub pkgname: String,
    pub romname: String,
    pub pkgver: String,
    pub pkgrel: u32,
    pub pkgdesc: String,
    pub url: String,
    pub depends: Option<String>,
    pub source: Vec<String>,
    pub sha1sums: Vec<String>,
    pub build: Vec<String>,
    pub package: Vec<String>,
}

/// What a [`Pkgbuild`] holds.
pub struct PkgbuildView {
    pub pkgname: Seq<char>,
    pub romname: Seq<char>,
    pub pkgver: Seq<char>,
    pub pkgrel: u32,
    pub pkgdesc: Seq<char>,
    pub url: Seq<char>,
    pub depends: Option<Seq<char>>,
    pub source: Seq<Seq<char>>,
    pub sha1sums: Seq<Seq<char>>,
    pub build: Seq<Seq<char>>,
    pub package: Seq<Seq<char>>,
}

impl View for Pkgbuild {
    type V = PkgbuildView;

    open spec fn view(&self) -> PkgbuildView {
        PkgbuildView {
            pkgname: self.pkgname@,
            romname: self.romname@,
            pkgver: self.pkgver@,
            pkgrel: self.pkgrel,
            pkgdesc: self.pkgdesc@,
            url: self.url@,
            depends: opt_text(self.depends),
            source: texts(self.source@),
            sha1sums: texts(self.sha1sums@),
            build: texts(self.build@),
            package: texts(self.package@),
        }
    }
}

/// A logical kind of media, whatever the provider calls it.
#[derive(Clone, Copy, PartialEq, Eq, Debug, Structural)]
pub enum MediaKind {
    Video,
    Bezel,
    Image,
    Thumbnail,
    Marquee,
    Screenshot,
    Wheel,
    Manual,
}

/// The media chosen for a game, at most one asset of each kind.
pub struct Medias {
    pub image: Option<Media>,
    pub thumbnail: Option<Media>,
    pub bezel: Option<Media>,
    pub video: Option<Media>,
    pub marquee: Option<Media>,
    pub screenshot: Option<Media>,
    pub wheel: Option<Media>,
    pub manual: Option<Media>,
}

/// One game on its way to a package.
pub struct Package {
    pub rom: String,
    pub rom_url: String,
    pub hash: String,
    pub jeu: Option<JeuInfos>,
    pub name: String,
    pub medias: Medias,
}

/// What can go wrong with a package once its files are written.
#[derive(Debug)]
pub enum Error {
    /// The file `filename` could not be written.
    WriteResult { filename: String },
}

/// The SHA-1 digest of the UTF-8 bytes of `text`, in capital hexadecimal
/// digits, as `hash_reader` of checksums computes it.
pub uninterp spec fn sha1_of(text: Seq<char>) -> Seq<char>;

/// Hashes the bytes of `text` with `hash_reader` of checksums under
/// `Algorithm::SHA1`. The result is named [`sha1_of`]: it depends on the
/// text alone.
#[verifier::external_body]
fn sha1_hex(text: &str) -> (r: String)
    ensures
        r@ == sha1_of(text@),
{
    checksums::hash_reader(&mut text.as_bytes(), checksums::Algorithm::SHA1)
}

/// The site of the metadata provider, up to a game's identifier.
pub const GAME_PAGE: &'static str = "https://screenscraper.fr/gameinfos.php?gameid=";

/// The site of the metadata provider, up to a platform's identifier.
pub const MEDIA_SITE: &'static str = "https://screenscraper.fr/medias/";

/// What parts an artifact's name from where it is fetched.
pub const RENAMED: &'static str = "::";

/// The file name of the description record.
pub const DESCRIPTION_FILE: &'static str = "description.xml";

/// What precedes the region in an asset's address.
pub const REGION_MARK: &'static str = "media=";

/// The region that stands for the whole world.
pub const WORLD: &'static str = "wor";

/// Where the description record looks for a game's media.
pub const DATA_DIR: &'static str = "./data/";

impl MediaKind {
    /// The provider's names for the kind, best first.
    pub open spec fn provider_names(self) -> Seq<Seq<char>> {
        match self {
            MediaKind::Video => seq!["video-normalized"@, "video"@],
            MediaKind::Bezel => seq!["bezel-16-9"@],
            MediaKind::Image => seq!["sstitle"@],
            MediaKind::Thumbnail => seq!["box-2D"@],
            MediaKind::Marquee => seq!["marquee"@],
            MediaKind::Screenshot => seq!["ss"@],
            MediaKind::Wheel => seq!["wheel"@],
            MediaKind::Manual => seq!["manuel"@],
        }
    }

    /// The name under which the package holds the asset.
    pub open spec fn artifact(self) -> Seq<char> {
        match self {
            MediaKind::Video => "video.mp4"@,
            MediaKind::Bezel => "bezel.png"@,
            MediaKind::Image => "image.png"@,
            MediaKind::Thumbnail => "thumbnail.png"@,
            MediaKind::Marquee => "marquee.png"@,
            MediaKind::Screenshot => "screenshot.png"@,
            MediaKind::Wheel => "wheel.png"@,
            MediaKind::Manual => "manual.pdf"@,
        }
    }

    /// The provider's names for the kind, best first.
    pub fn names(self) -> (r: Vec<&'static str>)
        ensures
            strs(r@) == self.provider_names(),
    {
        let r = match self {
            MediaKind::Video => vec!["video-normalized", "video"],
            MediaKind::Bezel => vec!["bezel-16-9"],
            MediaKind::Image => vec!["sstitle"],
            MediaKind::Thumbnail => vec!["box-2D"],
            MediaKind::Marquee => vec!["marquee"],
            MediaKind::Screenshot => vec!["ss"],
            MediaKind::Wheel => vec!["wheel"],
            MediaKind::Manual => vec!["manuel"],
        };
        assert(strs(r@) =~= self.provider_names());
        r
    }

    /// The name under which the package holds the asset.
    pub fn artifact_name(self) -> (r: &'static str)
        ensures
            r@ == self.artifact(),
    {
        match self {
            MediaKind::Video => "video.mp4",
            MediaKind::Bezel => "bezel.png",
            MediaKind::Image => "image.png",
            MediaKind::Thumbnail => "thumbnail.png",
            MediaKind::Marquee => "marquee.png",
            MediaKind::Screenshot => "screenshot.png",
            MediaKind::Wheel => "wheel.png",
            MediaKind::Manual => "manual.pdf",
        }
    }
}

impl Medias {
    /// The asset chosen for `kind`, if any.
    pub open spec fn slot(&self, kind: MediaKind) -> Option<Media> {
        match kind {
            MediaKind::Video => self.video,
            MediaKind::Bezel => self.bezel,
            MediaKind::Image => self.image,
            MediaKind::Thumbnail => self.thumbnail,
            MediaKind::Marquee => self.marquee,
            MediaKind::Screenshot => self.screenshot,
            MediaKind::Wheel => self.wheel,
            MediaKind::Manual => self.manual,
        }
    }

    /// The asset chosen for `kind`, if any.
    pub fn slot_of(&self, kind: MediaKind) -> (r: &Option<Media>)
        ensures
            *r == self.slot(kind),
    {
        match kind {
            MediaKind::Video => &self.video,
            MediaKind::Bezel => &self.bezel,
            MediaKind::Image => &self.image,
            MediaKind::Thumbnail => &self.thumbnail,
            MediaKind::Marquee => &self.marquee,
            MediaKind::Screenshot => &self.screenshot,
            MediaKind::Wheel => &self.wheel,
            MediaKind::Manual => &self.manual,
        }
    }
}

/// The asset chosen for `kind` from a game's record, by the region priority
/// [`media_regions`]; none without a record.
pub open spec fn selection(jeu: Option<JeuInfos>, kind: MediaKind) -> Option<Media> {
    match jeu {
        Some(x) => chosen(x.medias@, kind.provider_names(), media_regions()),
        None => None,
    }
}

/// The media chosen from a game's record, kind by kind.
pub open spec fn selected(jeu: Option<JeuInfos>) -> Medias {
    Medias {
        image: selection(jeu, MediaKind::Image),
        thumbnail: selection(jeu, MediaKind::Thumbnail),
        bezel: selection(jeu, MediaKind::Bezel),
        video: selection(jeu, MediaKind::Video),
        marquee: selection(jeu, MediaKind::Marquee),
        screenshot: selection(jeu, MediaKind::Screenshot),
        wheel: selection(jeu, MediaKind::Wheel),
        manual: selection(jeu, MediaKind::Manual),
    }
}

fn select(jeu: &Option<JeuInfos>, kind: MediaKind) -> (r: Option<Media>)
    ensures
        r == selection(*jeu, kind),
{
    match jeu {
        Some(x) => {
            let kinds = kind.names();
            let regions = media_region_list();
            choose_media(&x.medias, &kinds, &regions)
        },
        None => None,
    }
}

/// The region an asset is fetched for: the one it names, or the world.
pub open spec fn region_or_world(m: Media) -> Seq<char> {
    match m.region {
        Some(r) => r@,
        None => WORLD@,
    }
}

/// The region that an asset's own address names: what follows the first
/// [`REGION_MARK`] in it. The asset's `region` field is not consulted.
pub open spec fn region_in_url(m: Media) -> Option<Seq<char>> {
    tail_after(m.url@, REGION_MARK@)
}

/// The file under which the provider serves an asset of `kind`; none where
/// the region must come from the asset's address and the address names
/// none.
pub open spec fn remote_file(kind: MediaKind, m: Media) -> Option<Seq<char>> {
    match kind {
        MediaKind::Video => Some("video.mp4"@),
        MediaKind::Bezel => Some("bezel-16-9("@ + region_or_world(m) + ")."@ + m.format@),
        MediaKind::Image => match region_in_url(m) {
            Some(t) => Some(t + "."@ + m.format@),
            None => None,
        },
        MediaKind::Thumbnail => match region_in_url(m) {
            Some(t) => Some(t + ".png"@),
            None => None,
        },
        MediaKind::Marquee => Some("marquee."@ + m.format@),
        MediaKind::Screenshot => Some("ss("@ + region_or_world(m) + ")."@ + m.format@),
        MediaKind::Wheel => match region_in_url(m) {
            Some(t) => Some(t + "."@ + m.format@),
            None => None,
        },
        MediaKind::Manual => match region_in_url(m) {
            Some(t) => Some(t + ".pdf"@),
            None => None,
        },
    }
}

/// Where the provider serves the media of game `game` on platform `system`.
pub open spec fn media_location(system: u32, game: Seq<char>) -> Seq<char> {
    MEDIA_SITE@ + decimal(system as nat) + "/"@ + game + "/"@
}

/// The source and the checksum that an asset gives the descriptor: none
/// where the asset has no checksum or cannot be addressed.
pub open spec fn media_entry(kind: MediaKind, m: Media, location: Seq<char>) -> Option<
    (Seq<char>, Seq<char>),
> {
    if m.checksum().len() == 0 {
        None
    } else {
        match remote_file(kind, m) {
            Some(f) => Some((kind.artifact() + RENAMED@ + location + f, m.checksum())),
            None => None,
        }
    }
}

/// The entries that the slot of one kind gives the descriptor: one or none.
pub open spec fn slot_entries(kind: MediaKind, slot: Option<Media>, location: Seq<char>) -> Seq<
    (Seq<char>, Seq<char>),
> {
    match slot {
        Some(m) => match media_entry(kind, m, location) {
            Some(e) => seq![e],
            None => Seq::<(Seq<char>, Seq<char>)>::empty(),
        },
        None => Seq::<(Seq<char>, Seq<char>)>::empty(),
    }
}

/// The kinds of media in the order in which the descriptor lists them.
pub open spec fn manifest_order() -> Seq<MediaKind> {
    seq![
        MediaKind::Video,
        MediaKind::Bezel,
        MediaKind::Image,
        MediaKind::Thumbnail,
        MediaKind::Marquee,
        MediaKind::Screenshot,
        MediaKind::Wheel,
        MediaKind::Manual,
    ]
}

/// The entries of the media of the kinds `kinds`, in that order.
pub open spec fn entries_of(medias: Medias, kinds: Seq<MediaKind>, location: Seq<char>) -> Seq<
    (Seq<char>, Seq<char>),
>
    decreases kinds.len(),
{
    if kinds.len() == 0 {
        Seq::<(Seq<char>, Seq<char>)>::empty()
    } else {
        entries_of(medias, kinds.drop_last(), location) + slot_entries(
            kinds.last(),
            medias.slot(kinds.last()),
            location,
        )
    }
}

/// The entries of all media, in the descriptor's fixed order of kinds.
pub open spec fn media_entries(medias: Medias, location: Seq<char>) -> Seq<(Seq<char>, Seq<char>)> {
    entries_of(medias, manifest_order(), location)
}

/// The sources of a list of entries.
pub open spec fn firsts(entries: Seq<(Seq<char>, Seq<char>)>) -> Seq<Seq<char>> {
    entries.map_values(|e: (Seq<char>, Seq<char>)| e.0)
}

/// The checksums of a list of entries.
pub open spec fn seconds(entries: Seq<(Seq<char>, Seq<char>)>) -> Seq<Seq<char>> {
    entries.map_values(|e: (Seq<char>, Seq<char>)| e.1)
}

fn remote_name(kind: MediaKind, m: &Media) -> (r: Option<String>)
    ensures
        opt_text(r) == remote_file(kind, *m),
{
    match kind {
        MediaKind::Video => Some("video.mp4".to_string()),
        MediaKind::Bezel | MediaKind::Screenshot => {
            let mut r = String::new();
            match kind {
                MediaKind::Bezel => r.append("bezel-16-9("),
                _ => r.append("ss("),
            }
            match &m.region {
                Some(x) => r.append(x.as_str()),
                None => r.append(WORLD),
            }
            r.append(").");
            r.append(m.format.as_str());
            Some(r)
        },
        MediaKind::Marquee => Some(join("marquee.", m.format.as_str())),
        MediaKind::Image | MediaKind::Wheel => {
            match tail_after_text(m.url.as_str(), REGION_MARK) {
                Some(t) => {
                    let mut r = t;
                    r.append(".");
                    r.append(m.format.as_str());
                    Some(r)
                },
                None => None,
            }
        },
        MediaKind::Thumbnail => {
            match tail_after_text(m.url.as_str(), REGION_MARK) {
                Some(t) => Some(join(t.as_str(), ".png")),
                None => None,
            }
        },
        MediaKind::Manual => {
            match tail_after_text(m.url.as_str(), REGION_MARK) {
                Some(t) => Some(join(t.as_str(), ".pdf")),
                None => None,
            }
        },
    }
}

fn push_slot(
    source: &mut Vec<String>,
    sums: &mut Vec<String>,
    kind: MediaKind,
    slot: &Option<Media>,
    location: &str,
)
    ensures
        texts(final(source)@) == texts(old(source)@) + firsts(
            slot_entries(kind, *slot, location@),
        ),
        texts(final(sums)@) == texts(old(sums)@) + seconds(slot_entries(kind, *slot, location@)),
{
    let ghost entries = slot_entries(kind, *slot, location@);
    if let Some(m) = slot {
        let sum = m.authoritative_sha1();
        if !sum.as_str().is_empty() {
            if let Some(f) = remote_name(kind, m) {
                let mut s = String::new();
                s.append(kind.artifact_name());
                s.append(RENAMED);
                s.append(location);
                s.append(f.as_str());
                assert(entries == seq![(s@, sum@)]);
                assert(firsts(entries) == seq![s@]);
                assert(seconds(entries) == seq![sum@]);
                let ghost source0 = source@;
                let ghost sums0 = sums@;
                source.push(s);
                sums.push(sum);
                assert(texts(source@) == texts(source0) + seq![s@]);
                assert(texts(sums@) == texts(sums0) + seq![sum@]);
                return ;
            }
        }
    }
    assert(firsts(entries) == Seq::<Seq<char>>::empty());
    assert(seconds(entries) == Seq::<Seq<char>>::empty());
    assert(texts(source@) == texts(source@) + Seq::<Seq<char>>::empty());
    assert(texts(sums@) == texts(sums@) + Seq::<Seq<char>>::empty());
}

/// The kinds of media in the order in which the descriptor lists them.
pub fn manifest_order_list() -> (r: Vec<MediaKind>)
    ensures
        r@ == manifest_order(),
{
    let r = vec![
        MediaKind::Video,
        MediaKind::Bezel,
        MediaKind::Image,
        MediaKind::Thumbnail,
        MediaKind::Marquee,
        MediaKind::Screenshot,
        MediaKind::Wheel,
        MediaKind::Manual,
    ];
    assert(r@ =~= manifest_order());
    r
}

fn media_sources(medias: &Medias, location: &str) -> (r: (Vec<String>, Vec<String>))
    ensures
        texts(r.0@) == firsts(media_entries(*medias, location@)),
        texts(r.1@) == seconds(media_entries(*medias, location@)),
{
    let kinds = manifest_order_list();
    let mut source: Vec<String> = Vec::new();
    let mut sums: Vec<String> = Vec::new();
    let mut i: usize = 0;
    assert(texts(source@) =~= firsts(entries_of(*medias, kinds@.take(0), location@)));
    assert(texts(sums@) =~= seconds(entries_of(*medias, kinds@.take(0), location@)));
    while i < kinds.len()
        invariant
            i <= kinds.len(),
            texts(source@) == firsts(entries_of(*medias, kinds@.take(i as int), location@)),
            texts(sums@) == seconds(entries_of(*medias, kinds@.take(i as int), location@)),
        decreases kinds.len() - i,
    {
        let kind = kinds[i];
        let ghost before = entries_of(*medias, kinds@.take(i as int), location@);
        let ghost added = slot_entries(kind, medias.slot(kind), location@);
        assert(kinds@.take(i + 1).drop_last() == kinds@.take(i as int));
        assert(kinds@.take(i + 1).last() == kind);
        push_slot(&mut source, &mut sums, kind, medias.slot_of(kind), location);
        assert(firsts(before + added) =~= firsts(before) + firsts(added));
        assert(seconds(before + added) =~= seconds(before) + seconds(added));
        i += 1;
    }
    assert(kinds@.take(kinds.len() as int) == kinds@);
    (source, sums)
}

/// The description record of a package and, for a platform that is
/// started by one, its launcher script.
pub struct Synthesis {
    pub game: Game,
    pub launcher: Option<String>,
}

/// Where the description record finds the media file `stem` + `ext` of the
/// package `romname`.
pub open spec fn media_path(romname: Seq<char>, stem: Seq<char>, ext: Seq<char>) -> Seq<char> {
    DATA_DIR@ + romname + "/"@ + stem + ext
}

/// The path of the media file of a slot whose extension is the asset's
/// format.
pub open spec fn formatted_path(slot: Option<Media>, romname: Seq<char>, stem: Seq<char>) -> Option<
    Seq<char>,
> {
    match slot {
        Some(x) => Some(media_path(romname, stem, x.format@)),
        None => None,
    }
}

/// The path of the media file of a slot whose extension is fixed.
pub open spec fn fixed_path(slot: Option<Media>, romname: Seq<char>, stem: Seq<char>, ext: Seq<
    char,
>) -> Option<Seq<char>> {
    match slot {
        Some(_x) => Some(media_path(romname, stem, ext)),
        None => None,
    }
}

fn formatted_media_path(slot: &Option<Media>, romname: &str, stem: &str) -> (r: Option<String>)
    ensures
        opt_text(r) == formatted_path(*slot, romname@, stem@),
{
    match slot {
        Some(x) => {
            let mut r = String::new();
            r.append(DATA_DIR);
            r.append(romname);
            r.append("/");
            r.append(stem);
            r.append(x.format.as_str());
            Some(r)
        },
        None => None,
    }
}

fn fixed_media_path(slot: &Option<Media>, romname: &str, stem: &str, ext: &str) -> (r: Option<
    String,
>)
    ensures
        opt_text(r) == fixed_path(*slot, romname@, stem@, ext@),
{
    match slot {
        Some(_x) => {
            let mut r = String::new();
            r.append(DATA_DIR);
            r.append(romname);
            r.append("/");
            r.append(stem);
            r.append(ext);
            Some(r)
        },
        None => None,
    }
}

impl Package {
    /// The two entries every descriptor starts with: the game's file, under
    /// its own name, and the description record.
    pub open spec fn seed_entries(&self, description_sha1: Seq<char>) -> Seq<
        (Seq<char>, Seq<char>),
    > {
        seq![
            (in_single_quotes(self.rom@) + RENAMED@ + self.rom_url@, self.hash@),
            (DESCRIPTION_FILE@, description_sha1),
        ]
    }

    /// The entries of the chosen media on platform `system`; none for a
    /// game without a record.
    pub open spec fn media_part(&self, system: u32) -> Seq<(Seq<char>, Seq<char>)> {
        match self.jeu {
            Some(x) => media_entries(self.medias, media_location(system, x.id@)),
            None => Seq::<(Seq<char>, Seq<char>)>::empty(),
        }
    }

    /// All entries of the descriptor, each a source with its checksum.
    pub open spec fn entries(&self, system: u32, description_sha1: Seq<char>) -> Seq<
        (Seq<char>, Seq<char>),
    > {
        self.seed_entries(description_sha1) + self.media_part(system)
    }

    /// The descriptor of the package under the profile `kind`.
    pub open spec fn manifest<P: PackagingProfile>(
        &self,
        kind: P,
        system: System,
        game: Game,
        description_sha1: Seq<char>,
    ) -> PkgbuildView {
        PkgbuildView {
            pkgname: system.basename@ + normalized(self.name@),
            romname: normalized(self.name@),
            pkgver: "1"@,
            pkgrel: 1,
            pkgdesc: game.name@,
            url: match self.jeu {
                Some(x) => GAME_PAGE@ + x.id@,
                None => Seq::<char>::empty(),
            },
            depends: opt_text(system.depends),
            source: firsts(self.entries(system.id, description_sha1)),
            sha1sums: seconds(self.entries(system.id, description_sha1)),
            build: kind.build_lines(),
            package: kind.install_lines(system.dir@, self.rom@),
        }
    }

    /// The description record of the package under the profile `kind`: the
    /// resolved record, with the path the profile points at and the paths
    /// of the chosen media.
    pub open spec fn description<P: PackagingProfile>(&self, kind: P) -> GameView {
        let base = described(self.jeu, self.rom@);
        let romname = normalized(self.name@);
        GameView {
            path: kind.described_path(base.path, romname, base.name),
            image: formatted_path(self.medias.thumbnail, romname, "thumbnail."@),
            thumbnail: formatted_path(self.medias.image, romname, "image."@),
            video: fixed_path(self.medias.video, romname, "video."@, "mp4"@),
            marquee: formatted_path(self.medias.marquee, romname, "marquee."@),
            screenshot: formatted_path(self.medias.screenshot, romname, "screenshot."@),
            wheel: formatted_path(self.medias.wheel, romname, "wheel."@),
            manual: fixed_path(self.medias.manual, romname, "manual."@, "pdf"@),
            ..base
        }
    }

    /// The package-safe form of the package's name.
    pub fn name_normalize(&self) -> (r: String)
        ensures
            r@ == normalized(self.name@),
    {
        normalize(self.name.as_str())
    }

    /// The package of the file `file`, fetched from `url`, whose checksum
    /// is `hash`: it is named after the file, and holds for each kind of
    /// media the asset chosen from the record, if the game has a record.
    pub fn new(jeu: Option<JeuInfos>, file: &String, url: &String, hash: &String) -> (r: Result<
        Package,
        Error,
    >)
        ensures
            r matches Ok(p) && p.rom@ == file@ && p.rom_url@ == url@ && p.hash@ == hash@ && p.jeu
                == jeu && p.name@ == file@ && p.medias == selected(jeu),
    {
        let medias = Medias {
            image: select(&jeu, MediaKind::Image),
            thumbnail: select(&jeu, MediaKind::Thumbnail),
            bezel: select(&jeu, MediaKind::Bezel),
            video: select(&jeu, MediaKind::Video),
            marquee: select(&jeu, MediaKind::Marquee),
            screenshot: select(&jeu, MediaKind::Screenshot),
            wheel: select(&jeu, MediaKind::Wheel),
            manual: select(&jeu, MediaKind::Manual),
        };
        Ok(
            Package {
                rom: file.clone(),
                rom_url: url.clone(),
                hash: hash.clone(),
                jeu,
                name: file.clone(),
                medias,
            },
        )
    }

    /// Names the package `name`; nothing else changes.
    pub fn set_pkgname(&mut self, name: &String)
        ensures
            final(self).name@ == name@,
            final(self).rom == old(self).rom,
            final(self).rom_url == old(self).rom_url,
            final(self).hash == old(self).hash,
            final(self).jeu == old(self).jeu,
            final(self).medias == old(self).medias,
    {
        self.name = name.clone();
    }

    /// The description record of the package, and its launcher where the
    /// platform's profile in `registry` has one. The package is left as it
    /// was.
    pub fn build_with<P: PackagingProfile>(
        &mut self,
        registry: &ProfileRegistry<P>,
        system: &System,
    ) -> (r: Synthesis)
        ensures
            *final(self) == *old(self),
            r.game@ == old(self).description(registry.profile_for(system.id)),
            opt_text(r.launcher) == registry.profile_for(system.id).launcher_for(old(self).rom@),
    {
        let romname = self.name_normalize();
        let kind = registry.lookup(system.id);
        let base = Game::french(&self.jeu, &self.rom);
        let path = kind.description_path(base.path.clone(), romname.as_str(), base.name.as_str());
        let game = Game {
            path,
            image: formatted_media_path(&self.medias.thumbnail, romname.as_str(), "thumbnail."),
            thumbnail: formatted_media_path(&self.medias.image, romname.as_str(), "image."),
            video: fixed_media_path(&self.medias.video, romname.as_str(), "video.", "mp4"),
            marquee: formatted_media_path(&self.medias.marquee, romname.as_str(), "marquee."),
            screenshot: formatted_media_path(
                &self.medias.screenshot,
                romname.as_str(),
                "screenshot.",
            ),
            wheel: formatted_media_path(&self.medias.wheel, romname.as_str(), "wheel."),
            manual: fixed_media_path(&self.medias.manual, romname.as_str(), "manual.", "pdf"),
            ..base
        };
        Synthesis { game, launcher: kind.launcher_text(self.rom.as_str()) }
    }

    /// [`Package::build_with`] under the registry of the standard platforms.
    pub fn build(&mut self, system: &System) -> (r: Synthesis)
        ensures
            *final(self) == *old(self),
            r.game@ == old(self).description(standard_profile(system.id)),
            opt_text(r.launcher) == standard_profile(system.id).launcher_for(old(self).rom@),
    {
        let registry = ProfileRegistry::standard();
        self.build_with(&registry, system)
    }

    /// The descriptor of the package for `system`, whose profile `registry`
    /// tells, with `game` as its description record and `description_sha1`
    /// as the checksum of the written record. The sources and their
    /// checksums come in pairs: the game's file, the description record,
    /// then the media in the fixed order of kinds, an asset without a
    /// checksum or an address being left out of both lists. The package is
    /// left as it was.
    pub fn build_pkgbuild_with<P: PackagingProfile>(
        &mut self,
        registry: &ProfileRegistry<P>,
        system: &System,
        game: &Game,
        description_sha1: &str,
    ) -> (r: Pkgbuild)
        ensures
            *final(self) == *old(self),
            r@ == old(self).manifest(
                registry.profile_for(system.id),
                *system,
                *game,
                description_sha1@,
            ),
            r.source@.len() == r.sha1sums@.len(),
    {
        let romname = self.name_normalize();
        let kind = registry.lookup(system.id);
        let mut first = replace_all(self.rom.as_str(), APOSTROPHE, APOSTROPHE_ESCAPED);
        first.append(RENAMED);
        first.append(self.rom_url.as_str());
        let mut source: Vec<String> = Vec::new();
        let mut sha1sums: Vec<String> = Vec::new();
        source.push(first);
        sha1sums.push(self.hash.clone());
        push_line(&mut source, DESCRIPTION_FILE);
        push_line(&mut sha1sums, description_sha1);
        assert(texts(source@) =~= firsts(self.seed_entries(description_sha1@)));
        assert(texts(sha1sums@) =~= seconds(self.seed_entries(description_sha1@)));
        let mut pkg = Pkgbuild {
            pkgname: join(system.basename.as_str(), romname.as_str()),
            romname,
            pkgver: "1".to_string(),
            pkgrel: 1,
            pkgdesc: game.name.clone(),
            url: match &self.jeu {
                Some(x) => join(GAME_PAGE, x.id.as_str()),
                None => String::new(),
            },
            depends: system.depends.clone(),
            source,
            sha1sums,
            build: Vec::new(),
            package: Vec::new(),
        };
        assert(pkg@.build =~= Seq::<Seq<char>>::empty());
        assert(pkg@.package =~= Seq::<Seq<char>>::empty());
        kind.contribute_extra_sources(&mut pkg, self, system);
        kind.contribute_build_steps(&mut pkg);
        kind.contribute_install_steps(&mut pkg, system, self.rom.as_str());
        proof {
            let e = self.entries(system.id, description_sha1@);
            let seed = self.seed_entries(description_sha1@);
            let media = self.media_part(system.id);
            assert(firsts(e) =~= firsts(seed) + firsts(media));
            assert(seconds(e) =~= seconds(seed) + seconds(media));
            assert(pkg@.build =~= kind.build_lines());
            assert(pkg@.package =~= kind.install_lines(system.dir@, self.rom@));
        }
        pkg
    }

    /// The descriptor of the package for `system` under the registry of
    /// the standard platforms, with `game` as its description record and
    /// `document` as the description file: the file's checksum is computed
    /// here, from the text, before anything is written. Everything else is
    /// as [`Package::build_pkgbuild_with`] has it.
    pub fn build_pkgbuild(&mut self, system: &System, game: &Game, document: &str) -> (r: Pkgbuild)
        ensures
            *final(self) == *old(self),
            r@ == old(self).manifest(
                standard_profile(system.id),
                *system,
                *game,
                sha1_of(document@),
            ),
            r.source@.len() == r.sha1sums@.len(),
    {
        let registry = ProfileRegistry::standard();
        let checksum = sha1_hex(document);
        self.build_pkgbuild_with(&registry, system, game, checksum.as_str())
    }
}

/// Appends the sources of the package's media to the descriptor, each with
/// its checksum at the same place of the other list.
pub fn add_media_sources(pkg: &mut Pkgbuild, package: &Package, system: &System)
    ensures
        final(pkg)@ == (PkgbuildView {
            source: old(pkg)@.source + firsts(package.media_part(system.id)),
            sha1sums: old(pkg)@.sha1sums + seconds(package.media_part(system.id)),
            ..old(pkg)@
        }),
{
    if let Some(x) = &package.jeu {
        let mut location = String::new();
        location.append(MEDIA_SITE);
        push_decimal(&mut location, system.id);
        location.append("/");
        location.append(x.id.as_str());
        location.append("/");
        let (mut source, mut sums) = media_sources(&package.medias, location.as_str());
        pkg.source.append(&mut source);
        pkg.sha1sums.append(&mut sums);
        assert(texts(pkg.source@) =~= texts(old(pkg).source@) + firsts(
            package.media_part(system.id),
        ));
        assert(texts(pkg.sha1sums@) =~= texts(old(pkg).sha1sums@) + seconds(
            package.media_part(system.id),
        ));
    } else {
        assert(texts(pkg.source@) =~= texts(pkg.source@) + Seq::<Seq<char>>::empty());
        assert(texts(pkg.sha1sums@) =~= texts(pkg.sha1sums@) + Seq::<Seq<char>>::empty());
    }
}

/// The sources and the checksums of a descriptor are the two sides of one
/// list of entries: there are as many of one as of the other, and those at
/// one index belong to one artifact. The first two are the game's file and
/// the description record.
pub proof fn lemma_manifest_paired<P: PackagingProfile>(
    package: Package,
    kind: P,
    system: System,
    game: Game,
    description_sha1: Seq<char>,
)
    ensures
        ({
            let m = package.manifest(kind, system, game, description_sha1);
            let e = package.entries(system.id, description_sha1);
            &&& m.source.len() == m.sha1sums.len()
            &&& m.source.len() == e.len()
            &&& m.source.len() >= 2
            &&& forall|i: int| 0 <= i < e.len() ==> (m.source[i], m.sha1sums[i]) == e[i]
            &&& m.sha1sums[0] == package.hash@
            &&& m.source[1] == DESCRIPTION_FILE@
            &&& m.sha1sums[1] == description_sha1
            &&& package.jeu is None ==> m.source.len() == 2
        }),
{
}

/// The lines of a list, each between two spaces with an apostrophe and an
/// apostrophe with a line end.
pub open spec fn quoted_lines(items: Seq<Seq<char>>) -> Seq<char>
    decreases items.len(),
{
    if items.len() == 0 {
        Seq::<char>::empty()
    } else {
        quoted_lines(items.drop_last()) + "  '"@ + items.last() + "'\n"@
    }
}

/// The lines of a script, each with its line end.
pub open spec fn script_lines(items: Seq<Seq<char>>) -> Seq<char>
    decreases items.len(),
{
    if items.len() == 0 {
        Seq::<char>::empty()
    } else {
        script_lines(items.drop_last()) + items.last() + "\n"@
    }
}

/// The line that names the package's one dependency, if it has one.
pub open spec fn depends_line(depends: Option<Seq<char>>) -> Seq<char> {
    match depends {
        Some(x) => "depends=('"@ + x + "')\n"@,
        None => Seq::<char>::empty(),
    }
}

/// The descriptor as the text of its file.
pub open spec fn rendered(p: PkgbuildView) -> Seq<char> {
    "pkgname=('"@ + p.pkgname + "')\n"@ + "_romname=\""@ + p.romname + "\"\n"@ + "pkgver="@
        + p.pkgver + "\n"@ + "pkgrel="@ + decimal(p.pkgrel as nat) + "\n"@ + "pkgdesc=\""@
        + p.pkgdesc + "\"\n"@ + "arch=('any')\n"@ + "url=\""@ + p.url + "\"\n"@
        + "license=('All rights reserved')\n"@ + depends_line(p.depends) + "source=(\n"@
        + quoted_lines(p.source) + ")\n"@ + "sha1sums=(\n"@ + quoted_lines(p.sha1sums) + ")\n"@
        + "build()\n{\n"@ + script_lines(p.build) + "}\n"@ + "package()\n{\n"@ + script_lines(
        p.package,
    ) + "}\n"@
}

fn append_quoted(out: &mut String, items: &Vec<String>)
    ensures
        final(out)@ == old(out)@ + quoted_lines(texts(items@)),
{
    let mut i: usize = 0;
    assert(texts(items@).take(0) == Seq::<Seq<char>>::empty());
    assert(out@ == out@ + Seq::<char>::empty());
    while i < items.len()
        invariant
            i <= items.len(),
            out@ == old(out)@ + quoted_lines(texts(items@).take(i as int)),
        decreases items.len() - i,
    {
        let ghost before = quoted_lines(texts(items@).take(i as int));
        assert(texts(items@).take(i + 1).drop_last() == texts(items@).take(i as int));
        assert(texts(items@).take(i + 1).last() == items@[i as int]@);
        out.append("  '");
        out.append(items[i].as_str());
        out.append("'\n");
        assert(out@ == old(out)@ + (before + "  '"@ + items@[i as int]@ + "'\n"@));
        i += 1;
    }
    assert(texts(items@).take(items.len() as int) == texts(items@));
}

fn append_script(out: &mut String, items: &Vec<String>)
    ensures
        final(out)@ == old(out)@ + script_lines(texts(items@)),
{
    let mut i: usize = 0;
    assert(texts(items@).take(0) == Seq::<Seq<char>>::empty());
    assert(out@ == out@ + Seq::<char>::empty());
    while i < items.len()
        invariant
            i <= items.len(),
            out@ == old(out)@ + script_lines(texts(items@).take(i as int)),
        decreases items.len() - i,
    {
        let ghost before = script_lines(texts(items@).take(i as int));
        assert(texts(items@).take(i + 1).drop_last() == texts(items@).take(i as int));
        assert(texts(items@).take(i + 1).last() == items@[i as int]@);
        out.append(items[i].as_str());
        out.append("\n");
        assert(out@ == old(out)@ + (before + items@[i as int]@ + "\n"@));
        i += 1;
    }
    assert(texts(items@).take(items.len() as int) == texts(items@));
}

impl Pkgbuild {
    /// Whether the sources and the checksums come in pairs.
    pub open spec fn paired(&self) -> bool {
        self.source@.len() == self.sha1sums@.len()
    }

    /// The descriptor as the text of its file.
    pub fn render(&self) -> (r: String)
        ensures
            r@ == rendered(self@),
    {
        let mut s = String::new();
        s.append("pkgname=('");
        s.append(self.pkgname.as_str());
        s.append("')\n");
        s.append("_romname=\"");
        s.append(self.romname.as_str());
        s.append("\"\n");
        s.append("pkgver=");
        s.append(self.pkgver.as_str());
        s.append("\n");
        s.append("pkgrel=");
        push_decimal(&mut s, self.pkgrel);
        s.append("\n");
        s.append("pkgdesc=\"");
        s.append(self.pkgdesc.as_str());
        s.append("\"\n");
        s.append("arch=('any')\n");
        s.append("url=\"");
        s.append(self.url.as_str());
        s.append("\"\n");
        s.append("license=('All rights reserved')\n");
        let ghost head = s@;
        match &self.depends {
            Some(x) => {
                s.append("depends=('");
                s.append(x.as_str());
                s.append("')\n");
                assert(s@ == head + ("depends=('"@ + x@ + "')\n"@));
            },
            None => {
                assert(s@ == head + Seq::<char>::empty());
            },
        }
        assert(s@ == head + depends_line(self@.depends));
        s.append("source=(\n");
        append_quoted(&mut s, &self.source);
        s.append(")\n");
        s.append("sha1sums=(\n");
        append_quoted(&mut s, &self.sha1sums);
        s.append(")\n");
        s.append("build()\n{\n");
        append_script(&mut s, &self.build);
        s.append("}\n");
        s.append("package()\n{\n");
        append_script(&mut s, &self.package);
        s.append("}\n");
        s
    }
}

} // verus!
