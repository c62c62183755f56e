use maskerad::{Filesystem, GameError, Metadata, OpenOptions, SystemType};

fn policy_description(r: Result<String, GameError>) -> String {
    match r {
        Err(GameError::FileSystemError(d)) => d,
        Err(e) => panic!("expected a policy violation, got {}", e.message()),
        Ok(p) => panic!("expected a policy violation, got {}", p),
    }
}

fn is_policy_violation(r: &Result<String, GameError>) -> bool {
    matches!(r, Err(GameError::FileSystemError(_)))
}

fn mutating_options() -> Vec<OpenOptions> {
    vec![
        OpenOptions::new().write(true),
        OpenOptions::new().create(true),
        OpenOptions::new().append(true),
        OpenOptions::new().truncate(true),
        OpenOptions::new().create_new(true),
    ]
}

#[test]
fn test() {
    let fs = Filesystem::new("/tmp/maskerad", false);
    assert!(!fs.is_readonly());
    assert_eq!(fs.to_path_buf(), Some("/tmp/maskerad".to_string()));
}

#[test]
fn relative_paths_resolve_under_root() {
    let fs = Filesystem::new("/tmp/game", false);
    assert_eq!(fs.get_absolute("a/b").unwrap(), "/tmp/game/a/b");
    assert_eq!(fs.get_absolute("saves/slot1.sav").unwrap(), "/tmp/game/saves/slot1.sav");
    assert_eq!(fs.get_absolute("").unwrap(), "/tmp/game");
    assert_eq!(fs.get_absolute("..a/b..").unwrap(), "/tmp/game/..a/b..");
    assert_eq!(fs.get_absolute("./x").unwrap(), "/tmp/game/./x");
}

#[test]
fn root_with_trailing_slash_gets_no_second_slash() {
    let fs = Filesystem::new("/tmp/game/", false);
    assert_eq!(fs.get_absolute("a").unwrap(), "/tmp/game/a");
}

#[test]
fn parent_segments_are_refused_everywhere() {
    let fs = Filesystem::new("/tmp/game", false);
    for p in ["../secret", "a/../../etc", "a/..", "..", "x/../y"] {
        assert!(is_policy_violation(&fs.get_absolute(p)), "{}", p);
        assert!(is_policy_violation(&fs.mkdir_target(p)), "{}", p);
        assert!(is_policy_violation(&fs.rm_target(p)), "{}", p);
        assert!(is_policy_violation(&fs.rmrf_target(p)), "{}", p);
        assert!(is_policy_violation(&fs.open_target(p, &OpenOptions::new().read(true))));
        assert!(is_policy_violation(&fs.open_target(p, &OpenOptions::new().write(true))));
        assert_eq!(fs.exists_target(p), None);
    }
}

#[test]
fn absolute_paths_are_refused_everywhere() {
    let fs = Filesystem::new("/tmp/game", false);
    let p = "/etc/passwd";
    assert!(is_policy_violation(&fs.get_absolute(p)));
    assert!(is_policy_violation(&fs.mkdir_target(p)));
    assert!(is_policy_violation(&fs.rm_target(p)));
    assert!(is_policy_violation(&fs.rmrf_target(p)));
    assert!(is_policy_violation(&fs.open_target(p, &OpenOptions::new().read(true))));
    assert_eq!(fs.exists_target(p), None);
}

#[test]
fn refused_path_description_names_the_path() {
    let fs = Filesystem::new("/tmp/game", false);
    assert_eq!(
        policy_description(fs.get_absolute("../secret")),
        "Path \"../secret\" is not a valid sandboxed path: must be relative with no parent-directory references"
    );
    let e = fs.get_absolute("/etc/passwd").unwrap_err();
    assert_eq!(
        e.message(),
        "File system error: Path \"/etc/passwd\" is not a valid sandboxed path: must be relative with no parent-directory references"
    );
}

#[test]
fn readonly_refuses_every_mutating_open() {
    let fs = Filesystem::new("/data", true);
    for o in mutating_options() {
        assert_eq!(
            policy_description(fs.open_target("texture.png", &o)),
            "Cannot alter file \"texture.png\" in root \"/data\", filesystem read-only"
        );
    }
}

#[test]
fn readonly_refuses_creation_and_removal() {
    let fs = Filesystem::new("/data", true);
    assert_eq!(
        policy_description(fs.mkdir_target("saves")),
        "Tried to create directory \"saves\" but the filesystem is read-only"
    );
    assert_eq!(
        policy_description(fs.rm_target("texture.png")),
        "Tried to remove the file/empty directory \"texture.png\", but the filesystem is read-only"
    );
    assert_eq!(
        policy_description(fs.rmrf_target("textures")),
        "Tried to remove the file/directory \"textures\", but the filesystem is read-only"
    );
}

#[test]
fn readonly_still_reads() {
    let fs = Filesystem::new("/data", true);
    assert_eq!(
        fs.open_target("texture.png", &OpenOptions::new().read(true)).unwrap(),
        "/data/texture.png"
    );
    assert_eq!(fs.exists_target("texture.png"), Some("/data/texture.png".to_string()));
    assert_eq!(fs.get_absolute("textures").unwrap(), "/data/textures");
    let listing = fs.read_dir_listing("textures", vec![Ok("a.png".to_string())]);
    assert_eq!(listing.len(), 1);
    assert_eq!(listing[0].as_ref().unwrap(), "/data/textures/a.png");
}

#[test]
fn readonly_scenario_write_refused_read_allowed() {
    let fs = Filesystem::new("/tmp/assets", true);
    assert!(is_policy_violation(&fs.open_target("texture.png", &OpenOptions::new().write(true))));
    assert_eq!(
        fs.open_target("texture.png", &OpenOptions::new().read(true)).unwrap(),
        "/tmp/assets/texture.png"
    );
}

#[test]
fn writable_scenario_targets() {
    let fs = Filesystem::new("/tmp/game", false);
    assert_eq!(fs.mkdir_target("saves").unwrap(), "/tmp/game/saves");
    let create = OpenOptions::new().create(true).write(true);
    assert!(create.mutates());
    assert_eq!(fs.open_target("saves/slot1.sav", &create).unwrap(), "/tmp/game/saves/slot1.sav");
    let read = OpenOptions::new().read(true);
    assert!(!read.mutates());
    assert_eq!(fs.open_target("saves/slot1.sav", &read).unwrap(), "/tmp/game/saves/slot1.sav");
}

#[test]
fn mkdir_exists_rmrf_targets_agree() {
    let fs = Filesystem::new("/tmp/game", false);
    let made = fs.mkdir_target("a/b/c").unwrap();
    assert_eq!(fs.exists_target("a/b/c"), Some(made));
    assert_eq!(fs.rmrf_target("a").unwrap(), "/tmp/game/a");
    assert_eq!(fs.rm_target("a/b/c").unwrap(), "/tmp/game/a/b/c");
}

#[test]
fn listing_keeps_every_valid_entry() {
    let fs = Filesystem::new("/tmp/game", false);
    let names = vec!["one.txt", "two", "three.bin"];
    let entries = names.iter().map(|n| Ok(n.to_string())).collect();
    let listing = fs.read_dir_listing("saves", entries);
    assert_eq!(listing.len(), 3);
    let got: Vec<String> = listing.into_iter().map(|r| r.unwrap()).collect();
    assert_eq!(
        got,
        vec!["/tmp/game/saves/one.txt", "/tmp/game/saves/two", "/tmp/game/saves/three.bin"]
    );
}

#[test]
fn listing_of_root_directory() {
    let fs = Filesystem::new("/tmp/game", false);
    let listing = fs.read_dir_listing("", vec![Ok("saves".to_string())]);
    assert_eq!(listing[0].as_ref().unwrap(), "/tmp/game/saves");
}

#[test]
fn listing_failure_stays_with_its_entry() {
    let fs = Filesystem::new("/tmp/game", false);
    let entries = vec![
        Ok("a".to_string()),
        Err(std::io::Error::new(std::io::ErrorKind::PermissionDenied, "denied")),
        Ok("..".to_string()),
        Ok("b".to_string()),
    ];
    let listing = fs.read_dir_listing("d", entries);
    assert_eq!(listing.len(), 4);
    assert_eq!(listing[0].as_ref().unwrap(), "/tmp/game/d/a");
    match &listing[1] {
        Err(GameError::IOError(d, e)) => {
            assert_eq!(d, "Error while dealing with file");
            assert_eq!(e.kind(), std::io::ErrorKind::PermissionDenied);
        }
        _ => panic!("expected an I/O failure"),
    }
    assert!(is_policy_violation(&listing[2]));
    assert_eq!(listing[3].as_ref().unwrap(), "/tmp/game/d/b");
}

#[test]
fn listing_of_refused_directory_refuses_each_name() {
    let fs = Filesystem::new("/tmp/game", false);
    let listing = fs.read_dir_listing("../etc", vec![Ok("passwd".to_string())]);
    assert!(is_policy_violation(&listing[0]));
}

#[test]
fn metadata_reports_what_it_was_given() {
    let m = Metadata::new(false, true, 0);
    assert!(m.is_file());
    assert!(!m.is_dir());
    assert_eq!(m.len(), 0);
    let d = Metadata::new(true, false, 4096);
    assert!(d.is_dir());
    assert_eq!(d.len(), 4096);
}

#[test]
fn system_identity_and_shutdown() {
    let fs = Filesystem::new("/tmp/game", false);
    assert_eq!(fs.system_type(), SystemType::Filesystem);
    assert!(fs.shut_down().is_ok());
    assert!(fs.shut_down().is_ok());
    assert_eq!(fs.to_path_buf(), Some("/tmp/game".to_string()));
}

#[test]
fn open_options_builders() {
    let o = OpenOptions::new();
    assert!(!o.read && !o.write && !o.append && !o.truncate && !o.create && !o.create_new);
    assert!(!o.mutates());
    let o = o.read(true).append(true);
    assert!(o.read && o.append && !o.write);
    assert!(o.mutates());
    assert!(!OpenOptions::new().read(true).mutates());
}

#[test]
fn sandbox_check_and_join() {
    assert!(maskerad::is_sandboxed_path("a/b"));
    assert!(maskerad::is_sandboxed_path(""));
    assert!(maskerad::is_sandboxed_path("a..b/.../c"));
    assert!(!maskerad::is_sandboxed_path("/a"));
    assert!(!maskerad::is_sandboxed_path("a/../b"));
    assert!(!maskerad::is_sandboxed_path("a/.."));
    assert_eq!(maskerad::resolve_path("/r", "x"), "/r/x");
    assert_eq!(maskerad::resolve_path("/r/", "x"), "/r/x");
    assert_eq!(maskerad::resolve_path("/r", ""), "/r");
    assert_eq!(maskerad::resolve_path("", "x"), "x");
}
