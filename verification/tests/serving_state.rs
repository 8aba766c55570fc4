use websii::path::CanonicalPath;
use websii::state::{EntryKind, PathProbe, ServeError, ServingState};

fn path(parts: &[&str]) -> CanonicalPath {
    CanonicalPath::from_components(parts.iter().map(|s| s.to_string()).collect()).unwrap()
}

fn probe(kind: EntryKind, parts: &[&str]) -> PathProbe {
    PathProbe { kind, canonical: Ok(path(parts)) }
}

fn failed(kind: EntryKind) -> PathProbe {
    PathProbe { kind, canonical: Err("permission denied".to_string()) }
}

fn start() -> ServingState {
    ServingState::start(&PathProbe { kind: EntryKind::Directory, canonical: Ok(path(&["srv", "www"])) })
        .unwrap()
}

#[test]
fn a_new_state_serves_its_root_without_a_direct_file() {
    let state = start();
    assert_eq!(state.get_root(), path(&["srv", "www"]));
    assert_eq!(state.get_direct_file(), None);
}

#[test]
fn the_first_root_has_to_be_a_directory() {
    assert_eq!(
        ServingState::start(&probe(EntryKind::File, &["tmp", "a.txt"])),
        Err(ServeError::NotADirectory)
    );
    assert_eq!(
        ServingState::start(&probe(EntryKind::Other, &["dev", "null"])),
        Err(ServeError::NotADirectory)
    );
    assert_eq!(ServingState::start(&probe(EntryKind::Missing, &["gone"])), Err(ServeError::NotFound));
    assert_eq!(ServingState::start(&failed(EntryKind::Directory)), Err(ServeError::InternalIO));
}

#[test]
fn the_first_state_serves_the_canonical_directory() {
    let state = ServingState::start(&probe(EntryKind::Directory, &["tmp", "site"])).unwrap();
    assert_eq!(state.get_root(), path(&["tmp", "site"]));
    assert_eq!(state.get_direct_file(), None);
    let top = ServingState::start(&probe(EntryKind::Directory, &[])).unwrap();
    assert_eq!(top.get_root(), CanonicalPath::filesystem_root());
}

#[test]
fn set_directory_then_the_root_is_its_canonical_form() {
    let mut state = start();
    let set = state.set_directory(&probe(EntryKind::Directory, &["tmp", "site"]));
    assert_eq!(set, Ok(path(&["tmp", "site"])));
    assert_eq!(state.get_root(), path(&["tmp", "site"]));
    assert_eq!(state.get_direct_file(), None);
}

#[test]
fn set_file_then_the_root_is_the_directory_of_the_file() {
    let mut state = start();
    let set = state.set_file(&probe(EntryKind::File, &["tmp", "site", "readme.txt"]));
    assert_eq!(set, Ok(path(&["tmp", "site", "readme.txt"])));
    assert_eq!(state.get_root(), path(&["tmp", "site"]));
    assert_eq!(state.get_direct_file(), Some(path(&["tmp", "site", "readme.txt"])));
}

#[test]
fn set_directory_leaves_direct_file_mode() {
    let mut state = start();
    state.set_file(&probe(EntryKind::File, &["tmp", "site", "readme.txt"])).unwrap();
    state.set_directory(&probe(EntryKind::Directory, &["tmp", "other"])).unwrap();
    assert_eq!(state.get_root(), path(&["tmp", "other"]));
    assert_eq!(state.get_direct_file(), None);
}

#[test]
fn a_file_directly_under_the_filesystem_root_can_be_set() {
    let mut state = start();
    assert_eq!(state.set_file(&probe(EntryKind::File, &["notes"])), Ok(path(&["notes"])));
    assert_eq!(state.get_root(), CanonicalPath::filesystem_root());
    assert_eq!(state.get_direct_file(), Some(path(&["notes"])));
}

#[test]
fn set_directory_of_a_missing_path_is_not_found() {
    let mut state = start();
    assert_eq!(state.set_directory(&probe(EntryKind::Missing, &["x"])), Err(ServeError::NotFound));
    assert_eq!(state.set_directory(&failed(EntryKind::Missing)), Err(ServeError::NotFound));
    assert_eq!(state, start());
}

#[test]
fn set_directory_of_a_file_is_not_a_directory() {
    let mut state = start();
    assert_eq!(
        state.set_directory(&probe(EntryKind::File, &["tmp", "a.txt"])),
        Err(ServeError::NotADirectory)
    );
    assert_eq!(
        state.set_directory(&probe(EntryKind::Other, &["dev", "null"])),
        Err(ServeError::NotADirectory)
    );
    assert_eq!(state, start());
}

#[test]
fn set_directory_without_a_canonical_form_is_an_io_error() {
    let mut state = start();
    assert_eq!(state.set_directory(&failed(EntryKind::Directory)), Err(ServeError::InternalIO));
    assert_eq!(state, start());
}

#[test]
fn set_file_of_a_missing_path_is_not_found() {
    let mut state = start();
    assert_eq!(state.set_file(&probe(EntryKind::Missing, &["x"])), Err(ServeError::NotFound));
    assert_eq!(state, start());
}

#[test]
fn set_file_of_a_directory_is_not_a_file() {
    let mut state = start();
    assert_eq!(state.set_file(&probe(EntryKind::Directory, &["tmp"])), Err(ServeError::NotAFile));
    assert_eq!(state.set_file(&probe(EntryKind::Other, &["dev", "null"])), Err(ServeError::NotAFile));
    assert_eq!(state, start());
}

#[test]
fn set_file_without_a_canonical_form_is_an_io_error() {
    let mut state = start();
    assert_eq!(state.set_file(&failed(EntryKind::File)), Err(ServeError::InternalIO));
    assert_eq!(state, start());
}

#[test]
fn set_file_of_the_filesystem_root_has_no_parent_directory() {
    let mut state = start();
    assert_eq!(state.set_file(&probe(EntryKind::File, &[])), Err(ServeError::NoParentDirectory));
    assert_eq!(state, start());
}

#[test]
fn a_failed_command_keeps_direct_file_mode() {
    let mut state = start();
    state.set_file(&probe(EntryKind::File, &["tmp", "site", "a.html"])).unwrap();
    assert!(state.set_directory(&probe(EntryKind::Missing, &["gone"])).is_err());
    assert!(state.set_file(&probe(EntryKind::Directory, &["tmp"])).is_err());
    assert_eq!(state.get_root(), path(&["tmp", "site"]));
    assert_eq!(state.get_direct_file(), Some(path(&["tmp", "site", "a.html"])));
}

#[test]
fn the_direct_file_always_stands_in_the_root() {
    let mut state = start();
    let probes = [
        probe(EntryKind::File, &["a", "b", "c.txt"]),
        probe(EntryKind::Directory, &["a"]),
        probe(EntryKind::File, &["x.txt"]),
        probe(EntryKind::Missing, &["gone"]),
        probe(EntryKind::File, &["p", "q"]),
    ];
    for (i, p) in probes.iter().enumerate() {
        if i % 2 == 0 {
            let _ = state.set_file(p);
        } else {
            let _ = state.set_directory(p);
        }
        state.consistency_holds();
        if let Some(file) = state.get_direct_file() {
            assert_eq!(file.parent(), Some(state.get_root()));
        }
    }
}
