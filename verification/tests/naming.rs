use rompom::name::normalize;

#[test]
fn normalize_drops_punctuation_and_lowers() {
    assert_eq!(normalize("Pac-Man (USA)!"), "pac-manusa");
}

#[test]
fn normalize_result_is_clean() {
    let n = normalize("Pac-Man (USA)!");
    assert!(!n.contains('('));
    assert!(!n.contains(')'));
    assert!(!n.contains(' '));
    assert!(!n.contains('!'));
    assert_eq!(n, n.to_lowercase());
}

#[test]
fn normalize_drops_each_listed_character() {
    assert_eq!(normalize("a(b)c d,e'f!g%h^i;j$k[l]m"), "abcdefghijklm");
}

#[test]
fn normalize_spells_the_ampersand() {
    assert_eq!(normalize("Tom & Jerry"), "tomandjerry");
    assert_eq!(normalize("&"), "and");
}

#[test]
fn normalize_turns_tilde_and_equals_into_hyphens() {
    assert_eq!(normalize("A~B=C"), "a-b-c");
}

#[test]
fn normalize_lowers_capitals() {
    assert_eq!(normalize("ABC"), "abc");
    assert_eq!(normalize("Sonic.The.Hedgehog.zip"), "sonic.the.hedgehog.zip");
}

#[test]
fn normalize_lowers_beyond_ascii() {
    assert_eq!(normalize("ÉCOLE (fr)"), "écolefr");
}

#[test]
fn normalize_is_idempotent_on_examples() {
    for s in ["Pac-Man (USA)!", "Tom & Jerry", "A~B=C", "", "[!] $", "Zelda: A Link", "ÉCOLE"] {
        let once = normalize(s);
        assert_eq!(normalize(&once), once);
    }
}

#[test]
fn normalize_keeps_something_of_an_alphanumeric_title() {
    assert_eq!(normalize("(1)"), "1");
    assert_eq!(normalize(" a "), "a");
    assert!(!normalize("!!x!!").is_empty());
}

#[test]
fn normalize_of_punctuation_alone_is_empty() {
    assert_eq!(normalize("( ),'!%^;$[]"), "");
    assert_eq!(normalize(""), "");
}

#[test]
fn normalize_agrees_with_the_chain_of_replacements() {
    for s in ["Pac-Man (USA)!", "R&D = ~50% [b1]", "it's; $5^2", "ÀB&C"] {
        let expected = s
            .replace("(", "")
            .replace(")", "")
            .replace(" ", "")
            .replace(",", "")
            .replace("'", "")
            .replace("!", "")
            .replace("&", "and")
            .replace("%", "")
            .replace("^", "")
            .replace(";", "")
            .replace("$", "")
            .replace("~", "-")
            .replace("=", "-")
            .replace("[", "")
            .replace("]", "")
            .to_lowercase();
        assert_eq!(normalize(s), expected);
    }
}
