use discord_ci_cd::ci_cd::{ConfigFile, Pipeline, Pipelines, CACHE_DIR, PIPELINE_FILE};
use discord_ci_cd::pipeline::clone_lines;

fn pipeline(container: &str) -> Pipeline {
    Pipeline {
        container: container.to_string(),
        script: vec!["make".to_string(), "make test".to_string()],
        artifacts: Some(vec!["out/app".to_string()]),
    }
}

#[test]
fn fixed_places() {
    assert_eq!(CACHE_DIR, "/tmp/dcicd/");
    assert_eq!(PIPELINE_FILE, ".dcicd.toml");
}

#[test]
fn empty_set_defines_nothing() {
    let pipelines = Pipelines::new();
    assert_eq!(pipelines.get("build"), None);
    assert!(!pipelines.contains("build"));
}

#[test]
fn defined_pipeline_is_found_by_name() {
    let mut pipelines = Pipelines::new();
    pipelines.insert("build".to_string(), pipeline("rust"));
    pipelines.insert("deploy".to_string(), pipeline("alpine"));
    assert_eq!(pipelines.get("build"), Some(&pipeline("rust")));
    assert_eq!(pipelines.get("deploy"), Some(&pipeline("alpine")));
    assert_eq!(pipelines.get("Build"), None);
    assert!(pipelines.contains("deploy"));
    assert!(!pipelines.contains(""));
}

#[test]
fn later_definition_replaces_earlier() {
    let mut pipelines = Pipelines::new();
    pipelines.insert("build".to_string(), pipeline("rust"));
    pipelines.insert("build".to_string(), pipeline("debian"));
    assert_eq!(pipelines.get("build").unwrap().container, "debian");
}

#[test]
fn clones_hold_the_same() {
    let first = pipeline("rust");
    assert_eq!(first.clone(), first);
    let mut pipelines = Pipelines::new();
    pipelines.insert("build".to_string(), pipeline("rust"));
    let copy = pipelines.clone();
    assert_eq!(copy.get("build"), Some(&pipeline("rust")));
    assert_eq!(clone_lines(&first.script), first.script);
    assert_eq!(clone_lines(&Vec::new()), Vec::<String>::new());
}

#[test]
fn config_file_variants_differ() {
    assert_ne!(ConfigFile::Missing, ConfigFile::Invalid(String::new()));
    assert_ne!(ConfigFile::Missing, ConfigFile::Parsed(Pipelines::new()));
}

#[test]
fn sets_with_the_same_definitions_are_equal() {
    let mut one = Pipelines::new();
    one.insert("build".to_string(), pipeline("rust"));
    one.insert("deploy".to_string(), pipeline("alpine"));
    one.insert("build".to_string(), pipeline("debian"));
    let mut other = Pipelines::new();
    other.insert("deploy".to_string(), pipeline("alpine"));
    other.insert("build".to_string(), pipeline("debian"));
    assert_eq!(one, other);
    assert_eq!(one.clone(), other);
    other.insert("build".to_string(), pipeline("rust"));
    assert_ne!(one, other);
}

#[test]
fn many_definitions_are_all_found() {
    let mut pipelines = Pipelines::new();
    for name in ["m", "a", "z", "b", "a", "é", "m", "", "ab"] {
        pipelines.insert(name.to_string(), pipeline(name));
    }
    for name in ["m", "a", "z", "b", "é", "", "ab"] {
        assert_eq!(pipelines.get(name).unwrap().container, name);
    }
    assert_eq!(pipelines.get("c"), None);
}
