//! The packaging profiles: what each kind of target platform adds to the
//! build and install scripts of a package, and the registry that tells
//! which profile a platform has.

use vstd::prelude::*;
use vstd::string::*;
use crate::conf::System;
use crate::package::{add_media_sources, firsts, seconds, Package, Pkgbuild, PkgbuildView};
use crate::text::{
    join, opt_text, push_line, push_line3, push_line5, replace_all, replaced, texts,
};

verus! {

/// A build that does nothing.
pub const NO_BUILD: &'static str = "  true";

/// Lets the shell split lists at line ends only.
pub const SET_IFS: &'static str = "  IFS=$'\\n'";

/// Ends a shell loop.
pub const DONE: &'static str = "  done";

/// Finds the cue sheet.
pub const FIND_CUE: &'static str = "  cuefile=$(ls *.cue)";

/// Points the tracks named in the cue sheet into the game's data directory.
pub const REWRITE_CUE: &'static str =
    "  sed -i \"s@FILE \\\"@FILE \\\"data/$_romname/@g\" ${cuefile}";

/// Makes the data directory of a disc image.
pub const MAKE_DISC_DIR: &'static str =
    "  mkdir -m 0700 -p \"$pkgdir/userdata/roms/segacd/data/$_romname/\"";

/// Installs the cue sheet.
pub const INSTALL_CUE: &'static str =
    "  install -Dm600 ${cuefile} \"$pkgdir\"/userdata/roms/segacd/${cuefile}";

/// Starts the loop over the binary tracks.
pub const EACH_BIN: &'static str = "  for file in $(ls *.bin); do";

/// Installs one binary track.
pub const INSTALL_BIN: &'static str =
    "    install -Dm600 {,\"$pkgdir\"/userdata/roms/segacd/data/$_romname/}${file}";

/// Before the file name in the line that repoints the description record.
pub const REPOINT_HEAD: &'static str = "  sed -i \"s|";

/// After the file name in the line that repoints the description record.
pub const REPOINT_TAIL: &'static str = "|$cuefile|\" description.xml";

/// Starts the loop over the media and description files of a disc.
pub const EACH_DISC_MEDIA: &'static str = "  for file in $(ls *.mp4 *.png *.xml *.pdf, *.jpg); do";

/// Starts the loop over the media and description files.
pub const EACH_MEDIA: &'static str = "  for file in $(ls *.mp4 *.png *.jpg *.xml *.pdf); do";

/// Before the directory in the line that installs one media file.
pub const INSTALL_MEDIA_HEAD: &'static str = "    install -Dm600 {,\"$pkgdir\"/userdata/roms/";

/// After the directory in the line that installs one media file.
pub const INSTALL_MEDIA_TAIL: &'static str = "/data/$_romname/}$file";

/// Starts the loop over the compressed tracks.
pub const EACH_CHD: &'static str = "  for file in $(ls *.chd); do";

/// Lists one compressed track in the playlist.
pub const LIST_CHD: &'static str = "    echo \".data/$_romname/${file}\" >>${_romname}.m3u";

/// Before the directory in the line that makes the data directory.
pub const MAKE_DIRS_HEAD: &'static str = "  mkdir -m 0700 -p \"$pkgdir/userdata/roms/";

/// After the directory in the line that makes the data directory.
pub const MAKE_DIRS_TAIL: &'static str = "/data/$_romname/\" \\";

/// Makes the catalog directory, as the second half of a command.
pub const MAKE_CATALOG_DIR: &'static str =
    "                   \"$pkgdir/userdata/system/pacman/batoexec/\"";

/// Before the first directory in the line that makes the hidden directory.
pub const MAKE_HIDDEN_HEAD: &'static str = "  mkdir -p 0700 -p \"$pkgdir/userdata/roms/";

/// Between the two directories in the line that makes the hidden directory.
pub const MAKE_HIDDEN_MID: &'static str = "/data/$_romname/\" \"$pkgdir/userdata/roms/";

/// After the second directory in the line that makes the hidden directory.
pub const MAKE_HIDDEN_TAIL: &'static str = "/.data/$_romname\"";

/// Before the directory in the line that installs the compressed tracks.
pub const INSTALL_CHD_HEAD: &'static str = "  install -m 0600 *.chd \"$pkgdir/userdata/roms/";

/// After the directory in the line that installs the compressed tracks.
pub const INSTALL_CHD_TAIL: &'static str = "/.data/$_romname/\"";

/// Before the directory in the line that installs the playlist.
pub const INSTALL_M3U_HEAD: &'static str =
    "  install -m 0600 \"${_romname}.m3u\" \"$pkgdir/userdata/roms/";

/// After the directory in the line that installs the playlist.
pub const INSTALL_M3U_TAIL: &'static str = "/\"";

/// Before the directory in the first line of the catalog entry.
pub const CATALOG_HEAD: &'static str = "   echo \"gamelist = ";

/// After the directory in the first line of the catalog entry.
pub const CATALOG_TAIL: &'static str =
    "\" >  \"$pkgdir\"/userdata/system/pacman/batoexec/${pkgname[0]}";

/// Adds the description record to the catalog entry.
pub const CATALOG_BODY: &'static str =
    "   cat description.xml          >> \"$pkgdir\"/userdata/system/pacman/batoexec/${pkgname[0]}";

/// Before the file name in the line that installs the game's file.
pub const INSTALL_ROM_HEAD: &'static str = "  install -Dm600 \"";

/// Between file name and directory in the line that installs the game's file.
pub const INSTALL_ROM_MID: &'static str = "\" \"$pkgdir\"/userdata/roms/";

/// Between directory and file name in the line that installs the game's file.
pub const INSTALL_ROM_SEP: &'static str = "/\"";

/// Closes a double quote.
pub const QUOTE: &'static str = "\"";

/// A dollar sign.
pub const DOLLAR: &'static str = "$";

/// A dollar sign that a double-quoted shell word takes literally.
pub const DOLLAR_ESCAPED: &'static str = "\\$";

/// An apostrophe.
pub const APOSTROPHE: &'static str = "'";

/// An apostrophe that a single-quoted shell word takes literally.
pub const APOSTROPHE_ESCAPED: &'static str = "'\\''";

/// The launcher, up to the game's file.
pub const LAUNCHER_HEAD: &'static str =
    "DIR=\"$(dirname \"$(readlink -f \"$0\")\")\"\ncd ${DIR}/.data/\n\nexport LD_LIBRARY_PATH=\"${DIR}/.data/lib/\"\n./OpenBOR '";

/// Closes the single quote round the game's file in the launcher.
pub const LAUNCHER_TAIL: &'static str = "'";

/// `name` as it stands between double quotes in a shell script: each dollar
/// sign is escaped.
pub open spec fn in_double_quotes(name: Seq<char>) -> Seq<char> {
    replaced(name, DOLLAR@, DOLLAR_ESCAPED@)
}

/// `name` as it stands between single quotes in a shell script: each
/// apostrophe closes the quote, stands escaped, and opens the quote again.
pub open spec fn in_single_quotes(name: Seq<char>) -> Seq<char> {
    replaced(name, APOSTROPHE@, APOSTROPHE_ESCAPED@)
}

/// The script that starts a game of the standalone engine: it enters the
/// data directory beside itself, sets the library search path, and runs the
/// engine on the game's file alone.
pub open spec fn launcher(rom: Seq<char>) -> Seq<char> {
    LAUNCHER_HEAD@ + in_single_quotes(rom) + LAUNCHER_TAIL@
}

/// The launcher script for the game file `rom`.
pub fn launcher_script(rom: &str) -> (r: String)
    ensures
        r@ == launcher(rom@),
{
    let quoted = replace_all(rom, APOSTROPHE, APOSTROPHE_ESCAPED);
    let mut r = String::new();
    r.append(LAUNCHER_HEAD);
    r.append(quoted.as_str());
    r.append(LAUNCHER_TAIL);
    r
}

/// The rule set by which a platform's package is assembled: what it gives
/// to the build and install scripts, where it points the description
/// record, and the launcher it comes with. A registry holds one for each
/// platform it knows; new rule sets are new implementations.
pub trait PackagingProfile {
    /// The lines the profile gives to the build script.
    spec fn build_lines(&self) -> Seq<Seq<char>>;

    /// The lines the profile gives to the install script of the game file
    /// `rom` on a platform whose directory is `dir`.
    spec fn install_lines(&self, dir: Seq<char>, rom: Seq<char>) -> Seq<Seq<char>>;

    /// Where the description record points for a game whose file is at
    /// `path`, whose package is `romname` and whose name is `game`.
    spec fn described_path(&self, path: Seq<char>, romname: Seq<char>, game: Seq<char>) -> Seq<
        char,
    >;

    /// The launcher script that comes with the package, where the profile
    /// has one.
    spec fn launcher_for(&self, rom: Seq<char>) -> Option<Seq<char>>;

    /// The lines the profile gives to the build script.
    fn build_steps(&self) -> (r: Vec<String>)
        ensures
            texts(r@) == self.build_lines(),
    ;

    /// The lines the profile gives to the install script.
    fn install_steps(&self, dir: &str, rom: &str) -> (r: Vec<String>)
        ensures
            texts(r@) == self.install_lines(dir@, rom@),
    ;

    /// Where the description record points for the game.
    fn description_path(&self, path: String, romname: &str, game: &str) -> (r: String)
        ensures
            r@ == self.described_path(path@, romname@, game@),
    ;

    /// The launcher script that comes with the package, where the profile
    /// has one.
    fn launcher_text(&self, rom: &str) -> (r: Option<String>)
        ensures
            opt_text(r) == self.launcher_for(rom@),
    ;

    /// Appends the sources of the package's media to the descriptor, each
    /// with its checksum at the same place of the other list.
    fn contribute_extra_sources(&self, pkg: &mut Pkgbuild, package: &Package, system: &System)
        ensures
            final(pkg)@ == (PkgbuildView {
                source: old(pkg)@.source + firsts(package.media_part(system.id)),
                sha1sums: old(pkg)@.sha1sums + seconds(package.media_part(system.id)),
                ..old(pkg)@
            }),
    {
        add_media_sources(pkg, package, system);
    }

    /// Appends the profile's lines to the build script.
    fn contribute_build_steps(&self, pkg: &mut Pkgbuild)
        ensures
            final(pkg)@ == (PkgbuildView {
                build: old(pkg)@.build + self.build_lines(),
                ..old(pkg)@
            }),
    {
        let mut steps = self.build_steps();
        pkg.build.append(&mut steps);
        assert(texts(pkg.build@) =~= texts(old(pkg).build@) + self.build_lines());
    }

    /// Appends the profile's lines to the install script of the game file
    /// `rom` on `system`.
    fn contribute_install_steps(&self, pkg: &mut Pkgbuild, system: &System, rom: &str)
        ensures
            final(pkg)@ == (PkgbuildView {
                package: old(pkg)@.package + self.install_lines(system.dir@, rom@),
                ..old(pkg)@
            }),
    {
        let mut steps = self.install_steps(system.dir.as_str(), rom);
        pkg.package.append(&mut steps);
        assert(texts(pkg.package@) =~= texts(old(pkg).package@) + self.install_lines(
            system.dir@,
            rom@,
        ));
    }
}

/// The profiles that come with the library.
#[derive(Clone, Copy, PartialEq, Eq, Debug, Structural)]
pub enum ProfileKind {
    /// One file, installed as it is.
    Default,
    /// A cue sheet and the binary tracks it names.
    DiscImage,
    /// Compressed tracks behind a playlist.
    MultiTrack,
    /// A game of a standalone engine, started by a launcher script.
    Launcher,
}

/// The line that installs one media file under `dir`.
pub open spec fn install_media_line(dir: Seq<char>) -> Seq<char> {
    INSTALL_MEDIA_HEAD@ + dir + INSTALL_MEDIA_TAIL@
}

/// The two lines that enter the game in the catalog of `dir`.
pub open spec fn catalog_lines(dir: Seq<char>) -> Seq<Seq<char>> {
    seq![CATALOG_HEAD@ + dir + CATALOG_TAIL@, CATALOG_BODY@]
}

/// The install steps of the default profile.
pub open spec fn default_install(dir: Seq<char>, rom: Seq<char>) -> Seq<Seq<char>> {
    seq![
        MAKE_DIRS_HEAD@ + dir + MAKE_DIRS_TAIL@,
        MAKE_CATALOG_DIR@,
        INSTALL_ROM_HEAD@ + in_double_quotes(rom) + INSTALL_ROM_MID@ + dir + INSTALL_ROM_SEP@
            + in_double_quotes(rom) + QUOTE@,
        EACH_MEDIA@,
        install_media_line(dir),
        DONE@,
    ] + catalog_lines(dir)
}

/// The install steps of a disc image.
pub open spec fn disc_image_install(dir: Seq<char>, rom: Seq<char>) -> Seq<Seq<char>> {
    seq![
        SET_IFS@,
        MAKE_DISC_DIR@,
        FIND_CUE@,
        INSTALL_CUE@,
        EACH_BIN@,
        INSTALL_BIN@,
        DONE@,
        REPOINT_HEAD@ + in_double_quotes(rom) + REPOINT_TAIL@,
        EACH_DISC_MEDIA@,
        install_media_line(dir),
        DONE@,
    ]
}

/// The install steps of compressed tracks behind a playlist.
pub open spec fn multi_track_install(dir: Seq<char>) -> Seq<Seq<char>> {
    seq![
        MAKE_DIRS_HEAD@ + dir + MAKE_DIRS_TAIL@,
        MAKE_CATALOG_DIR@,
        MAKE_HIDDEN_HEAD@ + dir + MAKE_HIDDEN_MID@ + dir + MAKE_HIDDEN_TAIL@,
        INSTALL_CHD_HEAD@ + dir + INSTALL_CHD_TAIL@,
        INSTALL_M3U_HEAD@ + dir + INSTALL_M3U_TAIL@,
        EACH_DISC_MEDIA@,
        install_media_line(dir),
        DONE@,
    ] + catalog_lines(dir)
}

impl PackagingProfile for ProfileKind {
    open spec fn build_lines(&self) -> Seq<Seq<char>> {
        match *self {
            ProfileKind::DiscImage => seq![SET_IFS@, FIND_CUE@, REWRITE_CUE@],
            ProfileKind::MultiTrack => seq![SET_IFS@, EACH_CHD@, LIST_CHD@, DONE@],
            _ => seq![NO_BUILD@],
        }
    }

    open spec fn install_lines(&self, dir: Seq<char>, rom: Seq<char>) -> Seq<Seq<char>> {
        match *self {
            ProfileKind::DiscImage => disc_image_install(dir, rom),
            ProfileKind::MultiTrack => multi_track_install(dir),
            _ => default_install(dir, rom),
        }
    }

    open spec fn described_path(
        &self,
        path: Seq<char>,
        romname: Seq<char>,
        game: Seq<char>,
    ) -> Seq<char> {
        match *self {
            ProfileKind::Launcher => "./"@ + game + ".sh"@,
            ProfileKind::MultiTrack => "./"@ + romname + ".m3u"@,
            _ => path,
        }
    }

    open spec fn launcher_for(&self, rom: Seq<char>) -> Option<Seq<char>> {
        match *self {
            ProfileKind::Launcher => Some(launcher(rom)),
            _ => None,
        }
    }

    fn build_steps(&self) -> (r: Vec<String>) {
        let mut v: Vec<String> = Vec::new();
        assert(texts(v@) == Seq::<Seq<char>>::empty());
        match *self {
            ProfileKind::DiscImage => {
                push_line(&mut v, SET_IFS);
                push_line(&mut v, FIND_CUE);
                push_line(&mut v, REWRITE_CUE);
            },
            ProfileKind::MultiTrack => {
                push_line(&mut v, SET_IFS);
                push_line(&mut v, EACH_CHD);
                push_line(&mut v, LIST_CHD);
                push_line(&mut v, DONE);
            },
            _ => {
                push_line(&mut v, NO_BUILD);
            },
        }
        v
    }

    fn install_steps(&self, dir: &str, rom: &str) -> (r: Vec<String>) {
        let mut v: Vec<String> = Vec::new();
        assert(texts(v@) == Seq::<Seq<char>>::empty());
        match *self {
            ProfileKind::DiscImage => {
                let name = replace_all(rom, DOLLAR, DOLLAR_ESCAPED);
                push_line(&mut v, SET_IFS);
                push_line(&mut v, MAKE_DISC_DIR);
                push_line(&mut v, FIND_CUE);
                push_line(&mut v, INSTALL_CUE);
                push_line(&mut v, EACH_BIN);
                push_line(&mut v, INSTALL_BIN);
                push_line(&mut v, DONE);
                push_line3(&mut v, REPOINT_HEAD, name.as_str(), REPOINT_TAIL);
                push_line(&mut v, EACH_DISC_MEDIA);
                push_line3(&mut v, INSTALL_MEDIA_HEAD, dir, INSTALL_MEDIA_TAIL);
                push_line(&mut v, DONE);
            },
            ProfileKind::MultiTrack => {
                push_line3(&mut v, MAKE_DIRS_HEAD, dir, MAKE_DIRS_TAIL);
                push_line(&mut v, MAKE_CATALOG_DIR);
                push_line5(&mut v, MAKE_HIDDEN_HEAD, dir, MAKE_HIDDEN_MID, dir, MAKE_HIDDEN_TAIL);
                push_line3(&mut v, INSTALL_CHD_HEAD, dir, INSTALL_CHD_TAIL);
                push_line3(&mut v, INSTALL_M3U_HEAD, dir, INSTALL_M3U_TAIL);
                push_line(&mut v, EACH_DISC_MEDIA);
                push_line3(&mut v, INSTALL_MEDIA_HEAD, dir, INSTALL_MEDIA_TAIL);
                push_line(&mut v, DONE);
                push_line3(&mut v, CATALOG_HEAD, dir, CATALOG_TAIL);
                push_line(&mut v, CATALOG_BODY);
                assert(texts(v@) =~= multi_track_install(dir@));
            },
            _ => {
                let name = replace_all(rom, DOLLAR, DOLLAR_ESCAPED);
                let target = join(INSTALL_ROM_SEP, name.as_str());
                push_line3(&mut v, MAKE_DIRS_HEAD, dir, MAKE_DIRS_TAIL);
                push_line(&mut v, MAKE_CATALOG_DIR);
                let source = join(INSTALL_ROM_HEAD, name.as_str());
                push_line5(
                    &mut v,
                    source.as_str(),
                    INSTALL_ROM_MID,
                    dir,
                    target.as_str(),
                    QUOTE,
                );
                assert(source@ + INSTALL_ROM_MID@ + dir@ + target@ + QUOTE@ =~= INSTALL_ROM_HEAD@
                    + name@ + INSTALL_ROM_MID@ + dir@ + INSTALL_ROM_SEP@ + name@ + QUOTE@);
                push_line(&mut v, EACH_MEDIA);
                push_line3(&mut v, INSTALL_MEDIA_HEAD, dir, INSTALL_MEDIA_TAIL);
                push_line(&mut v, DONE);
                push_line3(&mut v, CATALOG_HEAD, dir, CATALOG_TAIL);
                push_line(&mut v, CATALOG_BODY);
                assert(texts(v@) =~= default_install(dir@, rom@));
            },
        }
        v
    }

    fn description_path(&self, path: String, romname: &str, game: &str) -> (r: String) {
        match *self {
            ProfileKind::Launcher => {
                let mut r = String::new();
                r.append("./");
                r.append(game);
                r.append(".sh");
                r
            },
            ProfileKind::MultiTrack => {
                let mut r = String::new();
                r.append("./");
                r.append(romname);
                r.append(".m3u");
                r
            },
            _ => path,
        }
    }

    fn launcher_text(&self, rom: &str) -> (r: Option<String>) {
        match *self {
            ProfileKind::Launcher => Some(launcher_script(rom)),
            _ => None,
        }
    }
}

/// One line of the registry: a platform and its profile.
#[derive(Debug)]
pub struct ProfileEntry<P> {
    pub id: u32,
    pub profile: P,
}

/// The table that a list of registrations amounts to: a later registration
/// of a platform replaces an earlier one.
pub open spec fn table<P>(entries: Seq<ProfileEntry<P>>) -> Map<u32, P>
    decreases entries.len(),
{
    if entries.len() == 0 {
        Map::<u32, P>::empty()
    } else {
        table(entries.drop_last()).insert(entries.last().id, entries.last().profile)
    }
}

/// The profile a table gives a platform: the registered one, and
/// `fallback` for a platform that is not registered.
pub open spec fn profile_of<P>(table: Map<u32, P>, fallback: P, id: u32) -> P {
    if table.contains_key(id) {
        table[id]
    } else {
        fallback
    }
}

/// The platforms that come registered: one disc-image platform, two
/// multi-track platforms and the standalone engine.
pub open spec fn standard_table() -> Map<u32, ProfileKind> {
    Map::<u32, ProfileKind>::empty().insert(20, ProfileKind::DiscImage).insert(
        22,
        ProfileKind::MultiTrack,
    ).insert(57, ProfileKind::MultiTrack).insert(214, ProfileKind::Launcher)
}

/// The profile of a platform among the platforms that come registered.
pub open spec fn standard_profile(id: u32) -> ProfileKind {
    if id == 20 {
        ProfileKind::DiscImage
    } else if id == 22 || id == 57 {
        ProfileKind::MultiTrack
    } else if id == 214 {
        ProfileKind::Launcher
    } else {
        ProfileKind::Default
    }
}

/// The registry of packaging profiles, open to new platforms and, through
/// its profile type, to new rule sets.
#[derive(Debug)]
pub struct ProfileRegistry<P> {
    entries: Vec<ProfileEntry<P>>,
    fallback: P,
}

impl<P> View for ProfileRegistry<P> {
    type V = Map<u32, P>;

    closed spec fn view(&self) -> Map<u32, P> {
        table(self.entries@)
    }
}

impl<P> ProfileRegistry<P> {
    /// The profile of the platforms that are not registered.
    pub closed spec fn fallback(&self) -> P {
        self.fallback
    }

    /// The profile of platform `id`.
    pub open spec fn profile_for(&self, id: u32) -> P {
        profile_of(self@, self.fallback(), id)
    }

    /// A registry without any platform: every platform has the profile
    /// `fallback`.
    pub fn new(fallback: P) -> (r: ProfileRegistry<P>)
        ensures
            r@ == Map::<u32, P>::empty(),
            r.fallback() == fallback,
    {
        ProfileRegistry { entries: Vec::new(), fallback }
    }

    /// Gives platform `id` the profile `profile`, in place of any it had.
    pub fn register(&mut self, id: u32, profile: P)
        ensures
            final(self)@ == old(self)@.insert(id, profile),
            final(self).fallback() == old(self).fallback(),
    {
        self.entries.push(ProfileEntry { id, profile });
        assert(self.entries@.drop_last() == old(self).entries@);
    }

    /// The profile of platform `id`, by exact match; the fallback where
    /// the platform is not registered.
    pub fn lookup(&self, id: u32) -> (r: &P)
        ensures
            *r == self.profile_for(id),
    {
        let mut i: usize = self.entries.len();
        assert(self.entries@.take(i as int) == self.entries@);
        while i > 0
            invariant
                i <= self.entries.len(),
                profile_of(table(self.entries@), self.fallback, id) == profile_of(
                    table(self.entries@.take(i as int)),
                    self.fallback,
                    id,
                ),
            decreases i,
        {
            assert(self.entries@.take(i as int).drop_last() == self.entries@.take(i - 1));
            if self.entries[i - 1].id == id {
                return &self.entries[i - 1].profile;
            }
            i -= 1;
        }
        &self.fallback
    }
}

impl ProfileRegistry<ProfileKind> {
    /// The registry of the platforms of [`standard_table`], with the
    /// default profile for every other platform.
    pub fn standard() -> (r: ProfileRegistry<ProfileKind>)
        ensures
            r@ == standard_table(),
            r.fallback() == ProfileKind::Default,
            forall|id: u32| #[trigger] r.profile_for(id) == standard_profile(id),
    {
        let mut r = ProfileRegistry::new(ProfileKind::Default);
        r.register(20, ProfileKind::DiscImage);
        r.register(22, ProfileKind::MultiTrack);
        r.register(57, ProfileKind::MultiTrack);
        r.register(214, ProfileKind::Launcher);
        r
    }
}

} // verus!
