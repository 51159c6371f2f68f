use the_way::language::{Language, Languages};

fn language(name: &str, extension: &str, color: (u8, u8, u8)) -> Language {
    Language::new(String::from(name), String::from(extension), color)
}

#[test]
fn default_language_is_plain_text() {
    let default = Language::default();
    assert_eq!(default.name, "text");
    assert_eq!(default.extension, ".txt");
    assert_eq!(default.color, (255, 255, 255));
}

#[test]
fn new_language_keeps_its_attributes() {
    let rust = language("rust", ".rs", (222, 165, 132));
    assert_eq!(rust.name, "rust");
    assert_eq!(rust.extension, ".rs");
    assert_eq!(rust.color, (222, 165, 132));
}

#[test]
fn empty_registry_knows_nothing() {
    let languages = Languages::new();
    assert!(languages.get("rust").is_none());
    assert!(languages.get("").is_none());
}

#[test]
fn registered_language_is_found_by_name() {
    let mut languages = Languages::new();
    languages.insert(language("rust", ".rs", (1, 2, 3)));
    languages.insert(language("go", ".go", (4, 5, 6)));
    let found = languages.get("go").unwrap();
    assert_eq!(found.name, "go");
    assert_eq!(found.extension, ".go");
    assert_eq!(found.color, (4, 5, 6));
    assert_eq!(languages.get("rust").unwrap().extension, ".rs");
    assert!(languages.get("python").is_none());
}

#[test]
fn names_are_matched_exactly() {
    let mut languages = Languages::new();
    languages.insert(language("go", ".go", (4, 5, 6)));
    assert!(languages.get("Go").is_none());
    assert!(languages.get("go ").is_none());
    assert!(languages.get("g").is_none());
}

#[test]
fn registering_a_name_again_replaces_the_language() {
    let mut languages = Languages::new();
    languages.insert(language("rust", ".rs", (1, 2, 3)));
    languages.insert(language("go", ".go", (4, 5, 6)));
    languages.insert(language("rust", ".rust", (7, 8, 9)));
    let found = languages.get("rust").unwrap();
    assert_eq!(found.extension, ".rust");
    assert_eq!(found.color, (7, 8, 9));
    assert_eq!(languages.get("go").unwrap().extension, ".go");
}

#[test]
fn resolve_gives_the_registered_language() {
    let mut languages = Languages::new();
    languages.insert(language("python", ".py", (53, 114, 165)));
    let fallback = Language::default();
    let resolved = languages.resolve("python", &fallback);
    assert_eq!(resolved.name, "python");
    assert_eq!(resolved.extension, ".py");
}

#[test]
fn resolve_falls_back_on_a_miss() {
    let mut languages = Languages::new();
    languages.insert(language("python", ".py", (53, 114, 165)));
    let fallback = Language::default();
    let resolved = languages.resolve("brainfuck", &fallback);
    assert_eq!(resolved.name, "text");
    assert_eq!(resolved.extension, ".txt");
    assert_eq!(resolved.color, (255, 255, 255));
}

#[test]
fn resolve_of_an_empty_name_falls_back() {
    let languages = Languages::new();
    let fallback = language("plain", ".plain", (0, 0, 0));
    assert_eq!(languages.resolve("", &fallback).name, "plain");
}
