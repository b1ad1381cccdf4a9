use rompom::conf::System;
use rompom::emulationstation::{Game, Rating};
use rompom::jeuinfos::{GenericRegionText, JeuInfos, Media};
use rompom::package::{manifest_order_list, MediaKind, Package, Pkgbuild};
use rompom::profile::{PackagingProfile, ProfileKind, ProfileRegistry};

fn media(name: &str, region: Option<&str>, url: &str, sha1: &str, format: &str) -> Media {
    Media {
        name: name.to_string(),
        parent: "jeu".to_string(),
        url: url.to_string(),
        region: region.map(|r| r.to_string()),
        crc: "c".to_string(),
        md5: "m".to_string(),
        sha1: sha1.to_string(),
        format: format.to_string(),
        verified: None,
    }
}

fn record(medias: Vec<Media>) -> JeuInfos {
    JeuInfos {
        id: "42".to_string(),
        romid: None,
        notgame: "false".to_string(),
        noms: vec![GenericRegionText { region: "wor".to_string(), text: "Sonic".to_string() }],
        systemeid: "1".to_string(),
        systemenom: "Megadrive".to_string(),
        editeur: None,
        developpeur: None,
        joueurs: None,
        note: None,
        topstaff: "0".to_string(),
        rotation: "0".to_string(),
        synopsis: None,
        classifications: None,
        dates: None,
        genres: None,
        modes: None,
        familles: None,
        styles: None,
        medias,
        roms: Vec::new(),
        rom: None,
    }
}

fn system(id: u32, dir: &str) -> System {
    System {
        name: dir.to_string(),
        id,
        basename: format!("{}-rom-", dir),
        depends: None,
        dir: dir.to_string(),
        checksum: None,
        ia_items: None,
    }
}

fn package(jeu: Option<JeuInfos>, file: &str) -> Package {
    Package::new(
        jeu,
        &file.to_string(),
        &format!("https://archive.org/download/set/{}", file),
        &"romsha1".to_string(),
    )
    .unwrap()
}

fn descriptor(p: &mut Package, sys: &System, game: &Game, checksum: &str) -> Pkgbuild {
    p.build_pkgbuild_with(&ProfileRegistry::standard(), sys, game, checksum)
}

fn all_media() -> Vec<Media> {
    vec![
        media("sstitle", Some("us"), "https://x/api?media=sstitle(wor)", "h-image", "png"),
        media("box-2D", Some("us"), "https://x/api?media=box-2D(us)", "h-thumb", "jpg"),
        media("bezel-16-9", Some("eu"), "https://x/api?media=bezel", "h-bezel", "png"),
        media("video", None, "https://x/api?media=video", "h-video", "mp4"),
        media("marquee", None, "https://x/api?media=marquee", "h-marquee", "png"),
        media("ss", None, "https://x/api?media=ss(wor)", "h-shot", "png"),
        media("wheel", Some("jp"), "https://x/api?media=wheel(jp)", "h-wheel", "png"),
        media("manuel", Some("fr"), "https://x/api?media=manuel(fr)", "h-manual", "pdf"),
    ]
}

#[test]
fn a_new_package_is_named_after_its_file() {
    let p = package(None, "Sonic (USA).md");
    assert_eq!(p.rom, "Sonic (USA).md");
    assert_eq!(p.name, "Sonic (USA).md");
    assert_eq!(p.rom_url, "https://archive.org/download/set/Sonic (USA).md");
    assert_eq!(p.hash, "romsha1");
    assert!(p.jeu.is_none());
    assert_eq!(p.name_normalize(), "sonicusa.md");
}

#[test]
fn a_package_without_record_has_no_media() {
    let p = package(None, "game.md");
    for kind in manifest_order_list() {
        assert!(p.medias.slot_of(kind).is_none());
    }
}

#[test]
fn a_new_package_holds_the_chosen_media() {
    let p = package(Some(record(all_media())), "game.md");
    assert_eq!(p.jeu.as_ref().map(|j| j.id.clone()), Some("42".to_string()));
    assert_eq!(p.medias.image.as_ref().map(|m| m.sha1.clone()), Some("h-image".to_string()));
    assert_eq!(p.medias.thumbnail.as_ref().map(|m| m.sha1.clone()), Some("h-thumb".to_string()));
    assert_eq!(p.medias.bezel.as_ref().map(|m| m.sha1.clone()), Some("h-bezel".to_string()));
    assert_eq!(p.medias.video.as_ref().map(|m| m.sha1.clone()), Some("h-video".to_string()));
    assert_eq!(p.medias.marquee.as_ref().map(|m| m.sha1.clone()), Some("h-marquee".to_string()));
    assert_eq!(p.medias.screenshot.as_ref().map(|m| m.sha1.clone()), Some("h-shot".to_string()));
    assert_eq!(p.medias.wheel.as_ref().map(|m| m.sha1.clone()), Some("h-wheel".to_string()));
    assert_eq!(p.medias.manual.as_ref().map(|m| m.sha1.clone()), Some("h-manual".to_string()));
}

#[test]
fn the_normalized_video_is_preferred_and_the_plain_one_still_taken() {
    let both = vec![
        media("video", Some("fr"), "u", "plain", "mp4"),
        media("video-normalized", Some("ss"), "u", "normalized", "mp4"),
    ];
    let p = package(Some(record(both)), "game.md");
    assert_eq!(p.medias.video.map(|m| m.sha1), Some("normalized".to_string()));
    let plain = vec![media("video", Some("us"), "u", "plain", "mp4")];
    let p = package(Some(record(plain)), "game.md");
    assert_eq!(p.medias.video.map(|m| m.sha1), Some("plain".to_string()));
}

#[test]
fn the_kinds_have_their_names_and_artifacts() {
    assert_eq!(MediaKind::Video.names(), vec!["video-normalized", "video"]);
    assert_eq!(MediaKind::Bezel.names(), vec!["bezel-16-9"]);
    assert_eq!(MediaKind::Image.names(), vec!["sstitle"]);
    assert_eq!(MediaKind::Thumbnail.names(), vec!["box-2D"]);
    assert_eq!(MediaKind::Marquee.names(), vec!["marquee"]);
    assert_eq!(MediaKind::Screenshot.names(), vec!["ss"]);
    assert_eq!(MediaKind::Wheel.names(), vec!["wheel"]);
    assert_eq!(MediaKind::Manual.names(), vec!["manuel"]);
    assert_eq!(MediaKind::Video.artifact_name(), "video.mp4");
    assert_eq!(MediaKind::Manual.artifact_name(), "manual.pdf");
    assert_eq!(
        manifest_order_list(),
        vec![
            MediaKind::Video,
            MediaKind::Bezel,
            MediaKind::Image,
            MediaKind::Thumbnail,
            MediaKind::Marquee,
            MediaKind::Screenshot,
            MediaKind::Wheel,
            MediaKind::Manual,
        ]
    );
}

#[test]
fn set_pkgname_renames_only() {
    let mut p = package(None, "game.md");
    p.set_pkgname(&"Sonic & Knuckles".to_string());
    assert_eq!(p.name, "Sonic & Knuckles");
    assert_eq!(p.rom, "game.md");
    assert_eq!(p.hash, "romsha1");
    assert_eq!(p.name_normalize(), "sonicandknuckles");
}

#[test]
fn an_unknown_game_gives_two_pairs() {
    let mut p = package(None, "game.md");
    let sys = system(0, "unknown");
    let built = p.build(&sys);
    assert_eq!(built.game.name, "Unknown");
    assert!(matches!(built.game.rating, Rating::Neutral));
    assert_eq!(built.game.image, None);
    assert_eq!(built.game.thumbnail, None);
    assert_eq!(built.game.video, None);
    assert_eq!(built.game.marquee, None);
    assert_eq!(built.game.screenshot, None);
    assert_eq!(built.game.wheel, None);
    assert_eq!(built.game.manual, None);
    assert_eq!(built.launcher, None);
    let pkg = descriptor(&mut p, &sys, &built.game, "descsha1");
    assert_eq!(
        pkg.source,
        vec!["game.md::https://archive.org/download/set/game.md", "description.xml"]
    );
    assert_eq!(pkg.sha1sums, vec!["romsha1", "descsha1"]);
    assert_eq!(pkg.pkgname, "unknown-rom-game.md");
    assert_eq!(pkg.romname, "game.md");
    assert_eq!(pkg.pkgver, "1");
    assert_eq!(pkg.pkgrel, 1);
    assert_eq!(pkg.pkgdesc, "Unknown");
    assert_eq!(pkg.url, "");
    assert_eq!(pkg.depends, None);
    assert_eq!(pkg.build, ProfileKind::Default.build_steps());
    assert_eq!(pkg.package, ProfileKind::Default.install_steps("unknown", "game.md"));
}

#[test]
fn every_asset_gives_its_pair_in_the_fixed_order() {
    let mut p = package(Some(record(all_media())), "Sonic's.md");
    let mut sys = system(1, "megadrive");
    sys.depends = Some("retroarch".to_string());
    let built = p.build(&sys);
    let pkg = descriptor(&mut p, &sys, &built.game, "descsha1");
    assert_eq!(
        pkg.source,
        vec![
            "Sonic'\\''s.md::https://archive.org/download/set/Sonic's.md",
            "description.xml",
            "video.mp4::https://screenscraper.fr/medias/1/42/video.mp4",
            "bezel.png::https://screenscraper.fr/medias/1/42/bezel-16-9(eu).png",
            "image.png::https://screenscraper.fr/medias/1/42/sstitle(wor).png",
            "thumbnail.png::https://screenscraper.fr/medias/1/42/box-2D(us).png",
            "marquee.png::https://screenscraper.fr/medias/1/42/marquee.png",
            "screenshot.png::https://screenscraper.fr/medias/1/42/ss(wor).png",
            "wheel.png::https://screenscraper.fr/medias/1/42/wheel(jp).png",
            "manual.pdf::https://screenscraper.fr/medias/1/42/manuel(fr).pdf",
        ]
    );
    assert_eq!(
        pkg.sha1sums,
        vec![
            "romsha1", "descsha1", "h-video", "h-bezel", "h-image", "h-thumb", "h-marquee",
            "h-shot", "h-wheel", "h-manual",
        ]
    );
    assert_eq!(pkg.pkgname, "megadrive-rom-sonics.md");
    assert_eq!(pkg.romname, "sonics.md");
    assert_eq!(pkg.pkgdesc, "Sonic");
    assert_eq!(pkg.url, "https://screenscraper.fr/gameinfos.php?gameid=42");
    assert_eq!(pkg.depends, Some("retroarch".to_string()));
}

#[test]
fn sources_and_checksums_come_in_pairs_for_every_profile() {
    let subsets: Vec<Vec<Media>> = vec![
        Vec::new(),
        all_media().into_iter().take(1).collect(),
        all_media().into_iter().skip(3).collect(),
        all_media(),
    ];
    for id in [0, 1, 20, 22, 57, 214] {
        for medias in &subsets {
            let copy: Vec<Media> = medias.iter().map(|m| m.clone()).collect();
            let n = copy.len();
            let mut p = package(Some(record(copy)), "game.cue");
            let sys = system(id, "somewhere");
            let built = p.build(&sys);
            let pkg = descriptor(&mut p, &sys, &built.game, "d");
            assert_eq!(pkg.source.len(), pkg.sha1sums.len());
            assert_eq!(pkg.source.len(), 2 + n);
        }
    }
}

#[test]
fn an_asset_without_checksum_is_left_out_of_both_lists() {
    let medias = vec![
        media("video", None, "u", "", "mp4"),
        media("marquee", None, "u", "h-marquee", "png"),
    ];
    let mut p = package(Some(record(medias)), "game.md");
    let sys = system(1, "megadrive");
    let built = p.build(&sys);
    let pkg = descriptor(&mut p, &sys, &built.game, "d");
    assert_eq!(
        pkg.source,
        vec![
            "game.md::https://archive.org/download/set/game.md",
            "description.xml",
            "marquee.png::https://screenscraper.fr/medias/1/42/marquee.png",
        ]
    );
    assert_eq!(pkg.sha1sums, vec!["romsha1", "d", "h-marquee"]);
}

#[test]
fn an_asset_whose_address_names_no_region_is_left_out_of_both_lists() {
    let medias = vec![
        media("wheel", Some("us"), "https://x/api?game=42", "h-wheel", "png"),
        media("ss", Some("us"), "https://x/api?game=42", "h-shot", "png"),
    ];
    let mut p = package(Some(record(medias)), "game.md");
    let sys = system(1, "megadrive");
    let built = p.build(&sys);
    let pkg = descriptor(&mut p, &sys, &built.game, "d");
    assert_eq!(
        pkg.source,
        vec![
            "game.md::https://archive.org/download/set/game.md",
            "description.xml",
            "screenshot.png::https://screenscraper.fr/medias/1/42/ss(us).png",
        ]
    );
    assert_eq!(pkg.sha1sums, vec!["romsha1", "d", "h-shot"]);
}

#[test]
fn the_region_comes_from_the_address_not_from_the_field() {
    let medias = vec![media("wheel", Some("us"), "https://x/api?media=wheel(wor)", "h", "png")];
    let mut p = package(Some(record(medias)), "game.md");
    let sys = system(75, "mame");
    let built = p.build(&sys);
    let pkg = descriptor(&mut p, &sys, &built.game, "d");
    assert_eq!(pkg.source[2], "wheel.png::https://screenscraper.fr/medias/75/42/wheel(wor).png");
}

#[test]
fn the_verified_checksum_replaces_the_declared_one() {
    let mut video = media("video", None, "u", "declared", "mp4");
    video.record_download("computed".to_string());
    let mut p = package(Some(record(vec![video])), "game.md");
    let sys = system(1, "megadrive");
    let built = p.build(&sys);
    let pkg = descriptor(&mut p, &sys, &built.game, "d");
    assert_eq!(pkg.sha1sums, vec!["romsha1", "d", "computed"]);
}

#[test]
fn a_disc_image_rewrites_its_cue_sheet_and_repoints_the_description() {
    let mut p = package(Some(record(Vec::new())), "game.cue");
    let sys = system(20, "segacd");
    let built = p.build(&sys);
    assert_eq!(built.game.path, "./game.cue");
    let pkg = descriptor(&mut p, &sys, &built.game, "d");
    assert!(pkg
        .build
        .contains(&"  sed -i \"s@FILE \\\"@FILE \\\"data/$_romname/@g\" ${cuefile}".to_string()));
    assert!(pkg.package.contains(&"  sed -i \"s|game.cue|$cuefile|\" description.xml".to_string()));
    assert_eq!(pkg.build, ProfileKind::DiscImage.build_steps());
    assert_eq!(pkg.package, ProfileKind::DiscImage.install_steps("segacd", "game.cue"));
}

#[test]
fn a_multi_track_game_is_described_by_its_playlist() {
    for id in [22, 57] {
        let mut p = package(Some(record(Vec::new())), "Final (Disc 1).chd");
        let sys = system(id, "psx");
        let built = p.build(&sys);
        assert_eq!(built.game.path, "./finaldisc1.chd.m3u");
        assert_eq!(built.launcher, None);
        let pkg = descriptor(&mut p, &sys, &built.game, "d");
        assert_eq!(pkg.build, ProfileKind::MultiTrack.build_steps());
        assert_eq!(pkg.package, ProfileKind::MultiTrack.install_steps("psx", "Final (Disc 1).chd"));
    }
}

#[test]
fn a_launcher_game_is_described_by_its_launcher() {
    let mut p = package(Some(record(Vec::new())), "it's.pak");
    let sys = system(214, "openbor");
    let built = p.build(&sys);
    assert_eq!(built.game.path, "./Sonic.sh");
    assert_eq!(
        built.launcher,
        Some(
            "DIR=\"$(dirname \"$(readlink -f \"$0\")\")\"\ncd ${DIR}/.data/\n\nexport LD_LIBRARY_PATH=\"${DIR}/.data/lib/\"\n./OpenBOR 'it'\\''s.pak'"
                .to_string()
        )
    );
    let pkg = descriptor(&mut p, &sys, &built.game, "d");
    assert_eq!(pkg.build, vec!["  true"]);
}

#[test]
fn the_description_refers_to_the_chosen_media() {
    let mut p = package(Some(record(all_media())), "Sonic (USA).md");
    let sys = system(1, "megadrive");
    let game = p.build(&sys).game;
    assert_eq!(game.path, "./Sonic (USA).md");
    assert_eq!(game.image, Some("./data/sonicusa.md/thumbnail.jpg".to_string()));
    assert_eq!(game.thumbnail, Some("./data/sonicusa.md/image.png".to_string()));
    assert_eq!(game.video, Some("./data/sonicusa.md/video.mp4".to_string()));
    assert_eq!(game.marquee, Some("./data/sonicusa.md/marquee.png".to_string()));
    assert_eq!(game.screenshot, Some("./data/sonicusa.md/screenshot.png".to_string()));
    assert_eq!(game.wheel, Some("./data/sonicusa.md/wheel.png".to_string()));
    assert_eq!(game.manual, Some("./data/sonicusa.md/manual.pdf".to_string()));
    assert_eq!(game.name, "Sonic");
}

#[test]
fn another_registry_gives_another_profile() {
    let mut registry = ProfileRegistry::new(ProfileKind::Default);
    registry.register(1, ProfileKind::MultiTrack);
    let mut p = package(None, "game.chd");
    let sys = system(1, "megadrive");
    let built = p.build_with(&registry, &sys);
    assert_eq!(built.game.path, "./game.chd.m3u");
    let pkg = p.build_pkgbuild_with(&registry, &sys, &built.game, "d");
    assert_eq!(pkg.build, ProfileKind::MultiTrack.build_steps());
    let sys20 = system(20, "segacd");
    let pkg = p.build_pkgbuild_with(&registry, &sys20, &built.game, "d");
    assert_eq!(pkg.build, vec!["  true"]);
}

#[test]
fn the_profile_contributions_append() {
    let mut pkg = Pkgbuild {
        pkgname: "n".to_string(),
        romname: "r".to_string(),
        pkgver: "1".to_string(),
        pkgrel: 1,
        pkgdesc: "d".to_string(),
        url: "".to_string(),
        depends: None,
        source: vec!["s".to_string()],
        sha1sums: vec!["h".to_string()],
        build: vec!["  first".to_string()],
        package: vec!["  first".to_string()],
    };
    let p = package(Some(record(all_media().into_iter().skip(3).take(1).collect())), "game.md");
    let sys = system(3, "nes");
    ProfileKind::Default.contribute_build_steps(&mut pkg);
    ProfileKind::DiscImage.contribute_install_steps(&mut pkg, &sys, "game.cue");
    ProfileKind::Default.contribute_extra_sources(&mut pkg, &p, &sys);
    assert_eq!(pkg.build, vec!["  first", "  true"]);
    assert_eq!(pkg.package.len(), 12);
    assert_eq!(pkg.package[0], "  first");
    assert_eq!(pkg.source, vec!["s", "video.mp4::https://screenscraper.fr/medias/3/42/video.mp4"]);
    assert_eq!(pkg.sha1sums, vec!["h", "h-video"]);
    assert_eq!(pkg.pkgname, "n");
}

#[test]
fn the_descriptor_is_rendered_line_by_line() {
    let pkg = Pkgbuild {
        pkgname: "megadrive-rom-sonic".to_string(),
        romname: "sonic".to_string(),
        pkgver: "1".to_string(),
        pkgrel: 12,
        pkgdesc: "Sonic".to_string(),
        url: "https://screenscraper.fr/gameinfos.php?gameid=42".to_string(),
        depends: Some("retroarch".to_string()),
        source: vec!["a::b".to_string(), "description.xml".to_string()],
        sha1sums: vec!["h1".to_string(), "h2".to_string()],
        build: vec!["  true".to_string()],
        package: vec!["  one".to_string(), "  two".to_string()],
    };
    assert_eq!(
        pkg.render(),
        "pkgname=('megadrive-rom-sonic')\n\
         _romname=\"sonic\"\n\
         pkgver=1\n\
         pkgrel=12\n\
         pkgdesc=\"Sonic\"\n\
         arch=('any')\n\
         url=\"https://screenscraper.fr/gameinfos.php?gameid=42\"\n\
         license=('All rights reserved')\n\
         depends=('retroarch')\n\
         source=(\n  'a::b'\n  'description.xml'\n)\n\
         sha1sums=(\n  'h1'\n  'h2'\n)\n\
         build()\n{\n  true\n}\n\
         package()\n{\n  one\n  two\n}\n"
    );
}

#[test]
fn the_descriptor_without_dependency_has_no_such_line() {
    let pkg = Pkgbuild {
        pkgname: "p".to_string(),
        romname: "r".to_string(),
        pkgver: "1".to_string(),
        pkgrel: 1,
        pkgdesc: "".to_string(),
        url: "".to_string(),
        depends: None,
        source: Vec::new(),
        sha1sums: Vec::new(),
        build: Vec::new(),
        package: Vec::new(),
    };
    assert_eq!(
        pkg.render(),
        "pkgname=('p')\n_romname=\"r\"\npkgver=1\npkgrel=1\npkgdesc=\"\"\narch=('any')\nurl=\"\"\nlicense=('All rights reserved')\nsource=(\n)\nsha1sums=(\n)\nbuild()\n{\n}\npackage()\n{\n}\n"
    );
}

#[test]
fn the_description_file_is_hashed_from_its_text() {
    let mut p = package(None, "game.md");
    let sys = system(1, "megadrive");
    let built = p.build(&sys);
    let pkg = p.build_pkgbuild(&sys, &built.game, "abc");
    assert_eq!(pkg.source, vec!["game.md::https://archive.org/download/set/game.md", "description.xml"]);
    assert_eq!(pkg.sha1sums, vec!["romsha1", "A9993E364706816ABA3E25717850C26C9CD0D89D"]);
    let pkg = p.build_pkgbuild(&sys, &built.game, "");
    assert_eq!(pkg.sha1sums[1], "DA39A3EE5E6B4B0D3255BFEF95601890AFD80709");
    let same = descriptor(&mut p, &sys, &built.game, "DA39A3EE5E6B4B0D3255BFEF95601890AFD80709");
    assert_eq!(pkg.render(), same.render());
}

#[test]
fn the_standard_descriptor_goes_by_the_standard_registry() {
    let mut p = package(None, "game.cue");
    let sys = system(20, "segacd");
    let built = p.build(&sys);
    let pkg = p.build_pkgbuild(&sys, &built.game, "<game/>");
    assert_eq!(pkg.build, ProfileKind::DiscImage.build_steps());
    assert_eq!(pkg.source.len(), 2);
    assert_eq!(pkg.sha1sums.len(), 2);
}

#[test]
fn a_game_record_keeps_its_fields_through_the_descriptor() {
    let game = Game::french(&None, &"x".to_string());
    let mut p = package(None, "x");
    let pkg = descriptor(&mut p, &system(9, "snes"), &game, "d");
    assert_eq!(pkg.pkgdesc, game.name);
    assert_eq!(p.rom, "x");
}
