use logview::{Config, Loaded, StoredConfig};

#[test]
fn default_config_is_the_empty_one() {
    assert_eq!(Config::default(), Config {});
}

#[test]
fn a_missing_file_gives_the_default_and_is_written() {
    let loaded = Config::load(StoredConfig::Missing);
    assert_eq!(loaded, Loaded { config: Config::default(), rewrite: true });
}

#[test]
fn a_malformed_file_is_replaced_by_the_default() {
    let loaded = Config::load(StoredConfig::Malformed);
    assert_eq!(loaded, Loaded { config: Config::default(), rewrite: true });
}

#[test]
fn a_malformed_file_loads_like_a_fresh_install() {
    assert_eq!(Config::load(StoredConfig::Malformed), Config::load(StoredConfig::Missing));
}

#[test]
fn a_parsed_file_is_used_and_left_alone() {
    let loaded = Config::load(StoredConfig::Parsed(Config {}));
    assert_eq!(loaded, Loaded { config: Config {}, rewrite: false });
}
