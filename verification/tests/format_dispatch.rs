use config_loader::format::{ends_with, Format};

#[test]
fn each_suffix_selects_its_format() {
    assert_eq!(Format::from_path("x.toml"), Some(Format::Toml));
    assert_eq!(Format::from_path("x.json"), Some(Format::Json));
    assert_eq!(Format::from_path("x.yaml"), Some(Format::Yaml));
}

#[test]
fn other_suffixes_select_nothing() {
    assert_eq!(Format::from_path("x.ini"), None);
    assert_eq!(Format::from_path("c.xml"), None);
    assert_eq!(Format::from_path("x.yml"), None);
    assert_eq!(Format::from_path("x.jsonl"), None);
    assert_eq!(Format::from_path("x.json5"), None);
    assert_eq!(Format::from_path("config"), None);
    assert_eq!(Format::from_path(""), None);
}

#[test]
fn suffix_match_is_case_sensitive() {
    assert_eq!(Format::from_path("config.TOML"), None);
    assert_eq!(Format::from_path("config.Json"), None);
    assert_eq!(Format::from_path("config.YAML"), None);
    assert_eq!(Format::from_path("config.tomL"), None);
}

#[test]
fn only_the_trailing_characters_count() {
    assert_eq!(Format::from_path("settings.backup.toml"), Some(Format::Toml));
    assert_eq!(Format::from_path("a.json.yaml"), Some(Format::Yaml));
    assert_eq!(Format::from_path("a.yaml.json"), Some(Format::Json));
    assert_eq!(Format::from_path("/etc/app.d/main.toml"), Some(Format::Toml));
    assert_eq!(Format::from_path("config.toml.bak"), None);
    assert_eq!(Format::from_path("config.toml "), None);
    assert_eq!(Format::from_path("config.toml/"), None);
}

#[test]
fn the_dot_belongs_to_the_suffix() {
    assert_eq!(Format::from_path(".toml"), Some(Format::Toml));
    assert_eq!(Format::from_path(".json"), Some(Format::Json));
    assert_eq!(Format::from_path(".yaml"), Some(Format::Yaml));
    assert_eq!(Format::from_path("toml"), None);
    assert_eq!(Format::from_path("xtoml"), None);
    assert_eq!(Format::from_path("json"), None);
    assert_eq!(Format::from_path("config_yaml"), None);
}

#[test]
fn paths_outside_ascii_are_matched_by_character() {
    assert_eq!(Format::from_path("настройки.json"), Some(Format::Json));
    assert_eq!(Format::from_path("設定.yaml"), Some(Format::Yaml));
    assert_eq!(Format::from_path("é.toml"), Some(Format::Toml));
    assert_eq!(Format::from_path("config.tomé"), None);
    assert_eq!(Format::from_path("日本語"), None);
}

#[test]
fn extension_is_the_literal_suffix() {
    assert_eq!(Format::Toml.extension(), ".toml");
    assert_eq!(Format::Json.extension(), ".json");
    assert_eq!(Format::Yaml.extension(), ".yaml");
}

#[test]
fn a_path_made_of_a_stem_and_an_extension_selects_that_format() {
    for format in [Format::Toml, Format::Json, Format::Yaml] {
        for stem in ["", "c", "dir/file", "a.toml", "b.json", "c.yaml", "weiß"] {
            let path = format!("{}{}", stem, format.extension());
            assert_eq!(Format::from_path(&path), Some(format));
        }
    }
}

#[test]
fn at_most_one_extension_ends_a_path() {
    for path in ["x.toml", "x.json", "x.yaml", "x.toml.json", "x", ".yaml.toml"] {
        let mut matching = 0;
        for format in [Format::Toml, Format::Json, Format::Yaml] {
            if ends_with(path, format.extension()) {
                matching += 1;
                assert_eq!(Format::from_path(path), Some(format));
            }
        }
        assert!(matching <= 1);
        assert_eq!(Format::from_path(path).is_none(), matching == 0);
    }
}

#[test]
fn ends_with_compares_trailing_characters() {
    assert!(ends_with("config.toml", ".toml"));
    assert!(ends_with("config.toml", "config.toml"));
    assert!(ends_with("config.toml", "l"));
    assert!(!ends_with("config.toml", ".tom"));
    assert!(!ends_with("config.toml", "xconfig.toml"));
    assert!(!ends_with("config.toml", ".TOML"));
}

#[test]
fn ends_with_an_empty_suffix_always_holds() {
    assert!(ends_with("config.toml", ""));
    assert!(ends_with("", ""));
    assert!(!ends_with("", "a"));
}

#[test]
fn ends_with_counts_characters_not_bytes() {
    assert!(ends_with("naïve", "ïve"));
    assert!(ends_with("日本語", "語"));
    assert!(!ends_with("日本語", "本"));
    assert!(!ends_with("語", "日本語"));
    assert!(!ends_with("ab", "éb"));
}
