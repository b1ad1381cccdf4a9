use rompom::jeuinfos::{
    choose_media, media_region_list, GenericLangueText, GenericObject, GenericRegionText,
    JeuInfos, Media, Rom,
};
use rompom::resolve::{lookup, resolve};

fn region_text(region: &str, text: &str) -> GenericRegionText {
    GenericRegionText { region: region.to_string(), text: text.to_string() }
}

fn langue_text(langue: &str, text: &str) -> GenericLangueText {
    GenericLangueText { langue: langue.to_string(), text: text.to_string() }
}

fn genre(principale: &str, noms: Vec<GenericLangueText>) -> GenericObject {
    GenericObject {
        id: "1".to_string(),
        principale: principale.to_string(),
        parentid: "0".to_string(),
        noms,
    }
}

fn rom(regions: Option<&str>) -> Rom {
    Rom {
        id: None,
        romsize: None,
        romfilename: "game.zip".to_string(),
        romregions: regions.map(|r| r.to_string()),
        romnumsupport: None,
        romtotalsupport: None,
        romcloneof: "0".to_string(),
        romcrc: None,
        rommd5: None,
        romsha1: None,
        beta: "0".to_string(),
        demo: "0".to_string(),
        proto: "0".to_string(),
        trad: "0".to_string(),
        hack: "0".to_string(),
        unl: "0".to_string(),
        alt: "0".to_string(),
        best: "0".to_string(),
        netplay: "0".to_string(),
    }
}

fn media(name: &str, region: Option<&str>, url: &str) -> Media {
    Media {
        name: name.to_string(),
        parent: "jeu".to_string(),
        url: url.to_string(),
        region: region.map(|r| r.to_string()),
        crc: "c".to_string(),
        md5: "m".to_string(),
        sha1: "s".to_string(),
        format: "png".to_string(),
        verified: None,
    }
}

fn blank_game() -> JeuInfos {
    JeuInfos {
        id: "42".to_string(),
        romid: None,
        notgame: "false".to_string(),
        noms: Vec::new(),
        systemeid: "1".to_string(),
        systemenom: "Megadrive".to_string(),
        editeur: None,
        developpeur: None,
        joueurs: None,
        note: None,
        topstaff: "0".to_string(),
        rotation: "0".to_string(),
        synopsis: None,
        classifications: None,
        dates: None,
        genres: None,
        modes: None,
        familles: None,
        styles: None,
        medias: Vec::new(),
        roms: Vec::new(),
        rom: None,
    }
}

fn prefs() -> Vec<&'static str> {
    vec!["fr", "eu", "en", "us", "wor", "jp", "ss"]
}

#[test]
fn lookup_finds_the_first_entry_with_the_code() {
    let entries = vec![region_text("us", "A"), region_text("fr", "B"), region_text("us", "C")];
    assert_eq!(lookup(&entries, "us"), Some("A".to_string()));
    assert_eq!(lookup(&entries, "fr"), Some("B".to_string()));
    assert_eq!(lookup(&entries, "jp"), None);
    assert_eq!(lookup(&Vec::<GenericRegionText>::new(), "fr"), None);
}

#[test]
fn resolve_goes_by_the_first_preference_present() {
    let entries = vec![region_text("us", "Sonic"), region_text("jp", "Sonikku")];
    let order = vec!["fr".to_string(), "jp".to_string(), "us".to_string()];
    assert_eq!(resolve(&entries, &order), Some("Sonikku".to_string()));
    let none = vec!["fr".to_string(), "eu".to_string()];
    assert_eq!(resolve(&entries, &none), None);
    assert_eq!(resolve(&entries, &Vec::new()), None);
}

#[test]
fn find_name_prefers_the_regions_of_the_rom() {
    let mut game = blank_game();
    game.noms = vec![region_text("fr", "Nom"), region_text("jp", "Namae"), region_text("us", "Name")];
    game.rom = Some(rom(Some("br,jp,us")));
    assert_eq!(game.find_name(&prefs()), "Namae");
}

#[test]
fn find_name_falls_back_on_the_priority_list() {
    let mut game = blank_game();
    game.noms = vec![region_text("us", "Name"), region_text("eu", "Euro Name")];
    game.rom = Some(rom(Some("br,kr")));
    assert_eq!(game.find_name(&prefs()), "Euro Name");
    game.rom = Some(rom(None));
    assert_eq!(game.find_name(&prefs()), "Euro Name");
    game.rom = None;
    assert_eq!(game.find_name(&prefs()), "Euro Name");
}

#[test]
fn find_name_is_unknown_without_a_match() {
    let mut game = blank_game();
    assert_eq!(game.find_name(&prefs()), "Unknown");
    game.noms = vec![region_text("kr", "Name")];
    assert_eq!(game.find_name(&prefs()), "Unknown");
    assert_eq!(game.find_name(&Vec::new()), "Unknown");
}

#[test]
fn find_desc_goes_by_language() {
    let mut game = blank_game();
    assert_eq!(game.find_desc(&prefs()), "Unknown");
    game.synopsis = Some(vec![langue_text("en", "A game."), langue_text("fr", "Un jeu.")]);
    assert_eq!(game.find_desc(&prefs()), "Un jeu.");
    assert_eq!(game.find_desc(&vec!["de", "en"]), "A game.");
    assert_eq!(game.find_desc(&vec!["de"]), "Unknown");
}

#[test]
fn find_date_goes_by_region() {
    let mut game = blank_game();
    assert_eq!(game.find_date(&prefs()), "Unknown");
    game.dates = Some(vec![region_text("jp", "1991-07-26"), region_text("us", "1991")]);
    assert_eq!(game.find_date(&prefs()), "1991");
    assert_eq!(game.find_date(&vec!["jp"]), "1991-07-26");
    assert_eq!(game.find_date(&vec!["fr"]), "Unknown");
}

#[test]
fn find_genre_passes_over_genres_that_are_not_principal() {
    let mut game = blank_game();
    assert_eq!(game.find_genre(&prefs()), "Unknown");
    game.genres = Some(vec![
        genre("0", vec![langue_text("fr", "Plateforme / Course")]),
        genre("1", vec![langue_text("en", "Platform"), langue_text("fr", "Plateforme")]),
    ]);
    assert_eq!(game.find_genre(&prefs()), "Plateforme");
    game.genres = Some(vec![genre("0", vec![langue_text("fr", "Plateforme")])]);
    assert_eq!(game.find_genre(&prefs()), "Unknown");
}

#[test]
fn find_genre_tries_each_language_over_all_principal_genres() {
    let mut game = blank_game();
    game.genres = Some(vec![
        genre("1", vec![langue_text("en", "Platform")]),
        genre("1", vec![langue_text("fr", "Action")]),
    ]);
    assert_eq!(game.find_genre(&vec!["fr", "en"]), "Action");
    assert_eq!(game.find_genre(&vec!["en", "fr"]), "Platform");
}

#[test]
fn media_goes_by_region_priority() {
    let mut game = blank_game();
    game.medias = vec![
        media("wheel", Some("jp"), "u1"),
        media("wheel", Some("us"), "u2"),
        media("ss", Some("fr"), "u3"),
        media("wheel", Some("eu"), "u4"),
    ];
    assert_eq!(game.media("wheel").map(|m| m.url), Some("u4".to_string()));
    assert_eq!(game.media("ss").map(|m| m.url), Some("u3".to_string()));
    assert_eq!(game.media("marquee").map(|m| m.url), None);
}

#[test]
fn media_without_region_fits_any_region() {
    let mut game = blank_game();
    game.medias = vec![media("video", Some("us"), "u1"), media("video", None, "u2")];
    assert_eq!(game.media("video").map(|m| m.url), Some("u2".to_string()));
    game.medias = vec![media("video", Some("kr"), "u1")];
    assert_eq!(game.media("video").map(|m| m.url), None);
}

#[test]
fn media_returns_a_copy_and_leaves_the_record() {
    let mut game = blank_game();
    game.medias = vec![media("wheel", Some("wor"), "u1")];
    let found = game.media("wheel").unwrap();
    assert_eq!(found.name, "wheel");
    assert_eq!(found.region, Some("wor".to_string()));
    assert_eq!(found.sha1, "s");
    assert_eq!(found.format, "png");
    assert_eq!(game.medias.len(), 1);
}

#[test]
fn choose_media_tries_each_name_over_all_regions() {
    let medias = vec![media("video", Some("fr"), "plain"), media("video-normalized", Some("ss"), "norm")];
    let regions = media_region_list();
    let found = choose_media(&medias, &vec!["video-normalized", "video"], &regions);
    assert_eq!(found.map(|m| m.url), Some("norm".to_string()));
}

#[test]
fn choose_media_takes_the_second_name_where_the_first_is_missing() {
    let medias = vec![media("ss", Some("fr"), "shot"), media("video", Some("us"), "plain")];
    let regions = media_region_list();
    let found = choose_media(&medias, &vec!["video-normalized", "video"], &regions);
    assert_eq!(found.map(|m| m.url), Some("plain".to_string()));
}

#[test]
fn choose_media_finds_nothing_without_names_or_regions() {
    let medias = vec![media("video", None, "plain")];
    assert!(choose_media(&medias, &Vec::new(), &media_region_list()).is_none());
    assert!(choose_media(&medias, &vec!["video"], &Vec::new()).is_none());
    assert!(choose_media(&Vec::new(), &vec!["video"], &media_region_list()).is_none());
}

#[test]
fn media_region_list_is_the_fixed_priority() {
    assert_eq!(media_region_list(), vec!["fr", "eu", "us", "wor", "jp", "ss"]);
}
