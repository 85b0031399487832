use maid_sweeper::classify::{File, FileResult};
use maid_sweeper::config::MaidConfig;
use maid_sweeper::context::{AsyncIOContext, PatternsContext, SimpleContext};
use maid_sweeper::datatype::FileMeta;
use maid_sweeper::patterns::{load_patterns, FilenamePattern, PatternDocument, PatternError, Patterns};

fn s(x: &str) -> String {
    x.to_string()
}

fn strings(xs: &[&str]) -> Vec<String> {
    xs.iter().map(|x| x.to_string()).collect()
}

fn document(
    typical: Vec<(&str, Vec<&str>)>,
    extensions: Vec<(&str, Vec<&str>)>,
    filenames: Vec<(Vec<&str>, &str)>,
    synonyms: Vec<(&str, Vec<&str>)>,
) -> PatternDocument {
    let keyed = |v: Vec<(&str, Vec<&str>)>| {
        v.into_iter().map(|(k, vs)| (s(k), strings(&vs))).collect::<Vec<_>>()
    };
    PatternDocument {
        typical_files: keyed(typical),
        extensions: keyed(extensions),
        filenames: filenames
            .into_iter()
            .map(|(tags, pattern)| FilenamePattern { tags: strings(&tags), pattern: s(pattern) })
            .collect(),
        synonyms: keyed(synonyms),
    }
}

fn table(extensions: Vec<(&str, Vec<&str>)>) -> Patterns {
    match load_patterns(&document(vec![], extensions, vec![], vec![])) {
        Ok(p) => p,
        Err(_) => panic!("the table should compile"),
    }
}

fn config() -> MaidConfig {
    MaidConfig {
        debug: false,
        use_mongodb: false,
        mongodb_host: s("mongodb://localhost:27017"),
        config_file: None,
        tags: None,
        paths: None,
        hidden: false,
        copy_to: None,
        save: false,
        exec_args: None,
        move_to: None,
        delete: false,
    }
}

fn meta(path: &str, tags: Option<Vec<&str>>) -> FileMeta {
    FileMeta { path: s(path), tags: tags.map(|t| strings(&t)), last_modified: None }
}

fn tagged(r: FileResult) -> Vec<String> {
    match r {
        FileResult::Tagged(t) => t,
        FileResult::Filtered(_) => panic!("filtered"),
        FileResult::DirectoryNoTag => panic!("directory without tag"),
    }
}

#[test]
fn jpg_gets_image_tag() {
    let ctx = SimpleContext::new(config(), table(vec![("image", vec!["jpg"])]));
    let r = File.process(&ctx, &meta("a.jpg", None), false);
    assert_eq!(tagged(r), strings(&["image"]));
}

#[test]
fn shared_extension_gets_every_tag() {
    let ctx = SimpleContext::new(config(), table(vec![("image", vec!["png"]), ("web", vec!["png"])]));
    let tags = tagged(File.process(&ctx, &meta("x.png", None), false));
    assert!(tags.contains(&s("image")));
    assert!(tags.contains(&s("web")));
    assert_eq!(tags.len(), 2);
}

#[test]
fn unknown_extension_file_is_misc() {
    let ctx = SimpleContext::new(config(), table(vec![("image", vec!["jpg"])]));
    assert_eq!(tagged(File.process(&ctx, &meta("/d/notes.xyz", None), false)), strings(&["misc"]));
    assert_eq!(tagged(File.process(&ctx, &meta("/d/Makefile", None), false)), strings(&["misc"]));
}

#[test]
fn untagged_directory_is_walked() {
    let ctx = SimpleContext::new(config(), table(vec![("image", vec!["jpg"])]));
    assert!(matches!(File.process(&ctx, &meta("/d/sub", None), true), FileResult::DirectoryNoTag));
}

#[test]
fn directory_with_tagged_extension_is_tagged() {
    let ctx = SimpleContext::new(config(), table(vec![("image", vec!["jpg"])]));
    assert_eq!(tagged(File.process(&ctx, &meta("/d/album.jpg", None), true)), strings(&["image"]));
}

#[test]
fn extension_is_compared_in_lower_case() {
    let ctx = SimpleContext::new(config(), table(vec![("image", vec!["jpg"])]));
    assert_eq!(tagged(File.process(&ctx, &meta("/d/A.JPG", None), false)), strings(&["image"]));
}

#[test]
fn filter_checks_first_tag_only() {
    let ctx = SimpleContext::new(config(), table(vec![("image", vec!["png"]), ("web", vec!["png"])]));
    match File.process(&ctx, &meta("x.png", Some(vec!["web"])), false) {
        FileResult::Filtered(t) => assert_eq!(t, strings(&["image", "web"])),
        _ => panic!("the first tag is not in the filter"),
    }
    assert_eq!(
        tagged(File.process(&ctx, &meta("x.png", Some(vec!["image"])), false)),
        strings(&["image", "web"])
    );
}

#[test]
fn empty_filter_lets_everything_through() {
    let ctx = SimpleContext::new(config(), table(vec![("image", vec!["jpg"])]));
    assert_eq!(tagged(File.process(&ctx, &meta("a.jpg", Some(vec![])), false)), strings(&["image"]));
}

#[test]
fn synonyms_expand_filter() {
    let doc = document(vec![], vec![], vec![], vec![("img", vec!["image", "picture"])]);
    let p = match load_patterns(&doc) {
        Ok(p) => p,
        Err(_) => panic!("the table should compile"),
    };
    assert_eq!(p.expand_tags(&strings(&["img"])), strings(&["image", "picture"]));
    assert_eq!(p.expand_tags(&strings(&["img", "video"])), strings(&["image", "picture", "video"]));
    assert_eq!(p.expand_tags(&vec![]), Vec::<String>::new());
}

#[test]
fn repeated_synonyms_are_kept_once() {
    let doc = document(vec![], vec![], vec![], vec![("img", vec!["image", "image", "picture"])]);
    let p = match load_patterns(&doc) {
        Ok(p) => p,
        Err(_) => panic!("the table should compile"),
    };
    assert_eq!(p.expand_tags(&strings(&["img"])), strings(&["image", "picture"]));
}

#[test]
fn invalid_pattern_is_refused() {
    let doc = document(vec![("rust", vec!["^Cargo\\.toml$", "("])], vec![], vec![], vec![]);
    match load_patterns(&doc) {
        Err(PatternError::InvalidPattern(p)) => assert_eq!(p, "("),
        _ => panic!("an unclosed group does not compile"),
    }
    let doc = document(vec![], vec![], vec![(vec!["x"], "[a-")], vec![]);
    match load_patterns(&doc) {
        Err(PatternError::InvalidPattern(p)) => assert_eq!(p, "[a-"),
        _ => panic!("an unclosed class does not compile"),
    }
}

#[test]
fn duplicate_key_is_refused() {
    let doc = document(vec![], vec![("image", vec!["jpg"]), ("image", vec!["png"])], vec![], vec![]);
    match load_patterns(&doc) {
        Err(PatternError::DuplicateKey(k)) => assert_eq!(k, "image"),
        _ => panic!("a key stands twice"),
    }
}

#[test]
fn typical_and_special_matching() {
    let doc = document(
        vec![("rust", vec!["^Cargo\\.toml$"]), ("node", vec!["^package\\.json$"])],
        vec![],
        vec![(vec!["license", "doc"], "^LICENSE$")],
        vec![],
    );
    let p = match load_patterns(&doc) {
        Ok(p) => p,
        Err(_) => panic!("the table should compile"),
    };
    assert_eq!(p.match_typical("package.json"), Some(s("node")));
    assert_eq!(p.match_typical("Cargo.toml"), Some(s("rust")));
    assert_eq!(p.match_typical("main.rs"), None);
    assert_eq!(p.match_special("LICENSE"), Some(strings(&["license", "doc"])));
    assert_eq!(p.match_special("LICENSE.md"), None);
}

#[test]
fn context_accessors() {
    let mut c = config();
    c.debug = true;
    let ctx = SimpleContext::new(c, table(vec![("image", vec!["jpg"])]));
    assert!(ctx.is_debug());
    assert_eq!(ctx.get_patterns().tags_for_extension(&s("jpg")), strings(&["image"]));
    assert_eq!(ctx.get_config().mongodb_host, "mongodb://localhost:27017");
}
