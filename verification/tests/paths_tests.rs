use std::path::PathBuf;

use tmdbtag::error::FilesystemError;
use tmdbtag::paths::{
    check_destination_text, conflicting_folder, destination_status, normalize_parts,
    path_lies_within, same_location, EntryKind, PathPart,
};

fn parts(text: &str) -> Vec<PathPart> {
    let mut out = Vec::new();
    if text.starts_with('/') {
        out.push(PathPart::Root);
    }
    for piece in text.split('/').filter(|piece| !piece.is_empty()) {
        out.push(match piece {
            "." => PathPart::Current,
            ".." => PathPart::Parent,
            name => PathPart::Normal(name.to_owned()),
        });
    }
    out
}

fn names(path: &[PathPart]) -> Vec<String> {
    path.iter()
        .map(|part| match part {
            PathPart::Prefix(prefix) => prefix.clone(),
            PathPart::Root => "/".to_owned(),
            PathPart::Current => ".".to_owned(),
            PathPart::Parent => "..".to_owned(),
            PathPart::Normal(name) => name.clone(),
        })
        .collect()
}

#[test]
fn dots_are_resolved_without_touching_the_filesystem() {
    assert_eq!(
        names(&normalize_parts(&parts("/media/./input/../organized"))),
        vec!["/", "media", "organized"]
    );
    assert_eq!(names(&normalize_parts(&parts("/../.."))), vec!["/"]);
    assert_eq!(names(&normalize_parts(&parts("a/../../b"))), vec!["b"]);
    let once = normalize_parts(&parts("x/./y/../z"));
    assert_eq!(names(&normalize_parts(&once)), names(&once));
}

#[test]
fn the_source_root_and_selected_folders_cannot_be_the_destination() {
    assert!(same_location(&parts("/media/input/."), &parts("/media/input")));
    assert!(same_location(&parts("/media/input/alpha/.."), &parts("/media/input")));
    assert!(!same_location(&parts("/media/input/organized"), &parts("/media/input")));

    let folders = vec![parts("/media/input/alpha"), parts("/media/input/Beta")];
    assert_eq!(conflicting_folder(&parts("/media/input/Beta/out"), &folders), Some(1));
    assert_eq!(conflicting_folder(&parts("/media/input/alpha"), &folders), Some(0));
    assert_eq!(conflicting_folder(&parts("/media/input/alphabet"), &folders), None);
    assert_eq!(conflicting_folder(&parts("/media/organized"), &folders), None);
    assert!(path_lies_within(&parts("/a/b"), &parts("/a")));
    assert!(!path_lies_within(&parts("/a"), &parts("/a/b")));
}

#[test]
fn destination_entries_are_classified() {
    let path = PathBuf::from("/media/organized");
    assert!(matches!(destination_status(path.clone(), EntryKind::Directory), Ok(true)));
    assert!(matches!(destination_status(path.clone(), EntryKind::Missing), Ok(false)));
    assert!(matches!(
        destination_status(path.clone(), EntryKind::File),
        Err(FilesystemError::DestinationIsFile { .. })
    ));
    assert!(matches!(
        destination_status(path.clone(), EntryKind::Symlink),
        Err(FilesystemError::DestinationSymlink { .. })
    ));
    assert!(matches!(
        destination_status(path, EntryKind::Other),
        Err(FilesystemError::DestinationUnsupportedType { .. })
    ));
}

#[test]
fn typed_destinations_are_trimmed_and_checked() {
    assert_eq!(check_destination_text("  organized  ").unwrap(), "organized");
    assert!(matches!(
        check_destination_text("   "),
        Err(FilesystemError::EmptyDestination)
    ));
    match check_destination_text(" a\0b ") {
        Err(FilesystemError::InvalidDestination { input, reason }) => {
            assert_eq!(input, "a\\0b");
            assert_eq!(reason, "the path contains a NUL character");
        }
        _ => panic!("a NUL character must be rejected"),
    }
}
