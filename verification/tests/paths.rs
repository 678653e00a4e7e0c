use filetransfer::path::{split_names, AbsPath};

fn path(names: &[&str]) -> AbsPath {
    let mut p = AbsPath::root();
    for n in names {
        p = p.join(n);
    }
    p
}

#[test]
fn root_has_no_names_and_no_parent() {
    let root = AbsPath::root();
    assert_eq!(root.depth(), 0);
    assert!(root.parent().is_none());
    assert!(root.file_name().is_none());
    assert_eq!(root.render(), "/");
}

#[test]
fn join_appends_one_name() {
    let p = AbsPath::root().join("home").join("u");
    assert_eq!(p.components, vec!["home", "u"]);
    assert_eq!(p.depth(), 2);
    assert_eq!(p.file_name().unwrap(), "u");
    assert_eq!(p.parent().unwrap().components, vec!["home"]);
    assert_eq!(p.render(), "/home/u");
}

#[test]
fn join_all_descends_through_every_name() {
    let p = path(&["a"]).join_all(&vec!["b".to_string(), "c".to_string()]);
    assert_eq!(p.components, vec!["a", "b", "c"]);
    let q = path(&["a"]).join_all(&vec![]);
    assert_eq!(q.components, vec!["a"]);
}

#[test]
fn same_compares_names() {
    assert!(path(&["a", "b"]).same(&path(&["a", "b"])));
    assert!(!path(&["a", "b"]).same(&path(&["a", "c"])));
    assert!(!path(&["a", "b"]).same(&path(&["a"])));
    assert!(AbsPath::root().same(&AbsPath::root()));
}

#[test]
fn starts_with_tells_what_lies_below() {
    let base = path(&["home", "u"]);
    assert!(path(&["home", "u", "docs"]).starts_with(&base));
    assert!(base.starts_with(&base));
    assert!(base.starts_with(&AbsPath::root()));
    assert!(!path(&["home"]).starts_with(&base));
    assert!(!path(&["home", "v", "docs"]).starts_with(&base));
}

#[test]
fn relative_to_gives_the_way_down() {
    let base = path(&["home", "u"]);
    assert_eq!(
        path(&["home", "u", "docs", "x"]).relative_to(&base).unwrap(),
        vec!["docs", "x"]
    );
    assert_eq!(base.relative_to(&base).unwrap(), Vec::<String>::new());
    assert!(path(&["srv"]).relative_to(&base).is_none());
}

#[test]
fn rebase_moves_a_path_below_another_base() {
    let from = path(&["home", "u"]);
    let to = path(&["srv", "www"]);
    let moved = path(&["home", "u", "docs", "a.txt"]).rebase(&from, &to).unwrap();
    assert_eq!(moved.components, vec!["srv", "www", "docs", "a.txt"]);
    assert!(path(&["etc"]).rebase(&from, &to).is_none());
    assert_eq!(from.rebase(&from, &to).unwrap().components, vec!["srv", "www"]);
}

#[test]
fn split_names_drops_empty_names() {
    assert_eq!(split_names("/home/u/docs"), vec!["home", "u", "docs"]);
    assert_eq!(split_names("a//b/"), vec!["a", "b"]);
    assert_eq!(split_names("///"), Vec::<String>::new());
    assert_eq!(split_names(""), Vec::<String>::new());
    assert_eq!(split_names("x"), vec!["x"]);
    assert_eq!(split_names("héllo/wörld"), vec!["héllo", "wörld"]);
}

#[test]
fn parse_takes_absolute_paths_only() {
    assert_eq!(AbsPath::parse("/home/u").unwrap().components, vec!["home", "u"]);
    assert_eq!(AbsPath::parse("/").unwrap().depth(), 0);
    assert!(AbsPath::parse("home/u").is_none());
    assert!(AbsPath::parse("").is_none());
}

#[test]
fn resolve_reads_input_from_the_directory_one_stands_in() {
    let cwd = path(&["home", "u"]);
    assert_eq!(cwd.resolve("docs/a.txt").components, vec!["home", "u", "docs", "a.txt"]);
    assert_eq!(cwd.resolve("/etc/hosts").components, vec!["etc", "hosts"]);
    assert_eq!(cwd.resolve("").components, vec!["home", "u"]);
}

#[test]
fn render_and_parse_undo_each_other() {
    for text in ["/", "/a", "/home/u/docs", "/x y/z"] {
        let parsed = AbsPath::parse(text).unwrap();
        assert_eq!(parsed.render(), text);
        assert!(AbsPath::parse(&parsed.render()).unwrap().same(&parsed));
    }
}

#[test]
fn clone_copies_the_names() {
    let p = path(&["a", "b"]);
    let q = p.clone();
    assert!(p.same(&q));
}
