use ancestor_find::{Candidate, DirPath, FileLookupError, Lookup, Query, Reply};

/// A host frozen at one moment, for driving lookups without touching the
/// real file system.
struct FakeHost {
    home: Option<&'static str>,
    cwd: &'static str,
    cwd_known: bool,
    files: Vec<&'static str>,
}

fn dir(s: &str) -> DirPath {
    DirPath {
        absolute: s.starts_with('/'),
        parts: s.split('/').filter(|p| !p.is_empty()).map(String::from).collect(),
    }
}

fn render(c: &Candidate) -> String {
    let mut parts = c.dir.parts.clone();
    parts.push(c.name.clone());
    let joined = parts.join("/");
    if c.dir.absolute {
        format!("/{}", joined)
    } else {
        joined
    }
}

fn resolve(c: &Candidate, cwd: &str) -> String {
    let shown = render(c);
    if c.dir.absolute {
        shown
    } else if cwd == "/" {
        format!("/{}", shown)
    } else {
        format!("{}/{}", cwd, shown)
    }
}

/// Runs a lookup to its end; returns its result, as path text, and the
/// paths it asked about, in order.
fn drive(
    mut lookup: Lookup,
    host: &FakeHost,
) -> (Result<Option<String>, FileLookupError>, Vec<String>) {
    let mut asked = Vec::new();
    loop {
        match lookup.query() {
            Some(q) => {
                let reply = match q {
                    Query::HomeDir => Reply::HomeDir(host.home.map(dir)),
                    Query::CurrentDir => {
                        Reply::CurrentDir(if host.cwd_known { Some(dir(host.cwd)) } else { None })
                    }
                    Query::Exists(c) => {
                        asked.push(render(&c));
                        Reply::Exists(host.files.contains(&resolve(&c, host.cwd).as_str()))
                    }
                };
                lookup = lookup.advance(reply);
            }
            None => {
                let result = lookup.into_result().unwrap();
                return (result.map(|o| o.map(|c| render(&c))), asked);
            }
        }
    }
}

fn host(cwd: &'static str, files: Vec<&'static str>) -> FakeHost {
    FakeHost { home: None, cwd, cwd_known: true, files }
}

fn find(name: &str, under: &str, host: &FakeHost) -> Result<Option<String>, FileLookupError> {
    drive(Lookup::new(name, dir(under)), host).0
}

#[test]
fn found_beside_ancestor_under_boundary() {
    let h = host("/a/b/c", vec!["/a/b/target.txt"]);
    assert_eq!(find("target.txt", "/a", &h), Ok(Some("/a/b/target.txt".to_string())));
}

#[test]
fn absent_under_boundary_is_none() {
    let h = host("/a/b/c", vec!["/x/target.txt"]);
    let (result, asked) = drive(Lookup::new("target.txt", dir("/a")), &h);
    assert_eq!(result, Ok(None));
    assert_eq!(asked, vec!["target.txt", "/a/b/target.txt", "/a/target.txt", "/target.txt"]);
}

#[test]
fn boundary_below_cwd_stops_at_once() {
    let h = host("/a/b/c", vec!["/a/b/target.txt"]);
    let (result, asked) = drive(Lookup::new("target.txt", dir("/a/b/c/d")), &h);
    assert_eq!(result, Ok(None));
    assert_eq!(asked, vec!["target.txt"]);
}

#[test]
fn unknown_cwd_is_an_error() {
    let h = FakeHost { home: None, cwd: "/a/b/c", cwd_known: false, files: vec![] };
    assert_eq!(find("target.txt", "/a", &h), Err(FileLookupError::CwdNotFound));
}

#[test]
fn found_as_given_whatever_the_boundary() {
    let h = FakeHost { home: None, cwd: "/a/b/c", cwd_known: false, files: vec!["/a/b/c/target.txt"] };
    assert_eq!(find("target.txt", "/a", &h), Ok(Some("target.txt".to_string())));
    assert_eq!(find("target.txt", "/elsewhere", &h), Ok(Some("target.txt".to_string())));
    assert_eq!(find("c/target.txt", "/a", &host("/a/b", vec!["/a/b/c/target.txt"])),
        Ok(Some("c/target.txt".to_string())));
}

#[test]
fn match_follows_boundary() {
    let h = host("/a/b/c", vec!["/a/target.txt"]);
    assert_eq!(find("target.txt", "/", &h), Ok(Some("/a/target.txt".to_string())));
    assert_eq!(find("target.txt", "/a", &h), Ok(Some("/a/target.txt".to_string())));
    assert_eq!(find("target.txt", "/a/b", &h), Ok(Some("/a/target.txt".to_string())));
    assert_eq!(find("target.txt", "/a/b/c", &h), Ok(None));
}

#[test]
fn boundary_is_last_ancestor_tried() {
    let found = host("/a/b/c", vec!["/a/target.txt"]);
    assert_eq!(find("target.txt", "/a/b", &found), Ok(Some("/a/target.txt".to_string())));
    let beyond = host("/a/b/c", vec!["/target.txt"]);
    let (result, asked) = drive(Lookup::new("target.txt", dir("/a/b")), &beyond);
    assert_eq!(result, Ok(None));
    assert_eq!(asked, vec!["target.txt", "/a/b/target.txt", "/a/target.txt"]);
}

#[test]
fn home_lookup_is_lookup_under_home() {
    for files in [vec![], vec!["/a/b/target.txt"], vec!["/target.txt"], vec!["/a/b/c/target.txt"]] {
        let h = FakeHost { home: Some("/a"), cwd: "/a/b/c", cwd_known: true, files };
        assert_eq!(drive(Lookup::under_home("target.txt"), &h), drive(Lookup::new("target.txt", dir("/a")), &h));
    }
}

#[test]
fn unknown_home_is_an_error() {
    let h = FakeHost { home: None, cwd: "/a", cwd_known: true, files: vec!["/a/target.txt"] };
    let (result, asked) = drive(Lookup::under_home("target.txt"), &h);
    assert_eq!(result, Err(FileLookupError::HomeDirNotFound));
    assert!(asked.is_empty());
}

#[test]
fn home_find_file_cargo_toml() {
    let h = FakeHost {
        home: Some("/home/user"),
        cwd: "/home/user/project/src",
        cwd_known: true,
        files: vec!["/home/user/project/Cargo.toml"],
    };
    let (result, _) = drive(Lookup::under_home("Cargo.toml"), &h);
    assert_eq!(result.unwrap(), Some("/home/user/project/Cargo.toml".to_string()));
}

#[test]
fn root_cwd_checks_root_once() {
    let h = host("/", vec!["/target.txt"]);
    assert_eq!(find("target.txt", "/", &h), Ok(Some("target.txt".to_string())));
    let h = host("/", vec![]);
    let (result, asked) = drive(Lookup::new("target.txt", dir("/")), &h);
    assert_eq!(result, Ok(None));
    assert_eq!(asked, vec!["target.txt", "/target.txt"]);
}

#[test]
fn walk_past_root_ends_with_none() {
    let h = host("/a", vec![]);
    let (result, asked) = drive(Lookup::new("x", dir("/")), &h);
    assert_eq!(result, Ok(None));
    assert_eq!(asked, vec!["x", "/x", "/x"]);
}

#[test]
fn error_messages() {
    assert_eq!(FileLookupError::CwdNotFound.message(), "Error retrieving current working directory");
    assert_eq!(FileLookupError::HomeDirNotFound.message(), "Error retrieving home directory");
}

#[test]
fn starts_with_compares_whole_components() {
    assert!(dir("/a/b/c").starts_with(&dir("/a/b")));
    assert!(dir("/a/b").starts_with(&dir("/a/b")));
    assert!(dir("/a/b").starts_with(&dir("/")));
    assert!(!dir("/a/bc").starts_with(&dir("/a/b")));
    assert!(!dir("/a").starts_with(&dir("/a/b")));
    assert!(!dir("a/b").starts_with(&dir("/a")));
    assert!(!dir("/a/b").starts_with(&dir("a")));
    assert!(dir("/a/b").starts_with(&dir("")));
    assert!(dir("a/b").starts_with(&dir("a")));
}

#[test]
fn ancestors_and_siblings() {
    let p = dir("/a/b/c");
    assert_eq!(p.ancestor(0).parts, vec!["a", "b", "c"]);
    assert_eq!(p.ancestor(2).parts, vec!["a"]);
    assert!(p.ancestor(3).parts.is_empty());
    assert!(p.ancestor(3).absolute);
    assert_eq!(p.prefix(2).parts, vec!["a", "b"]);
    let name = "f.txt".to_string();
    assert_eq!(render(&Candidate::beside(&p, &name)), "/a/b/f.txt");
    assert_eq!(render(&Candidate::beside(&dir("/"), &name)), "/f.txt");
    assert_eq!(render(&Candidate::given(&name)), "f.txt");
}

#[test]
fn stray_reply_changes_nothing() {
    let lookup = Lookup::new("x", dir("/a"));
    let lookup = lookup.advance(Reply::CurrentDir(Some(dir("/a"))));
    match lookup.query() {
        Some(Query::Exists(c)) => assert_eq!(render(&c), "x"),
        _ => panic!("expected the check of the name as given"),
    }
    assert!(lookup.into_result().is_none());
}
