use ab_av1::temporary::{Disposal, Workspace, WORKSPACE_PREFIX};
use std::path::Path;
use tempfile::TempDir;

/// A workspace in a directory that is made for it.
fn workspace(parent: &Path, keep: bool) -> (Workspace, TempDir) {
    let parent = Workspace::parent(Some(parent.to_str().expect("text").to_owned()), "unused");
    let dir = tempfile::Builder::new()
        .prefix(WORKSPACE_PREFIX)
        .tempdir_in(&parent)
        .expect("workspace");
    (Workspace::new(dir.path().to_str().expect("text").to_owned(), keep), dir)
}

#[test]
fn workspace_cleans_up_by_default() {
    let parent = tempfile::tempdir().expect("parent temp dir");
    let (workspace, _dir) = workspace(parent.path(), false);

    assert_eq!(workspace.disposal(), Disposal::Remove);
}

#[test]
fn workspace_can_be_kept() {
    let parent = tempfile::tempdir().expect("parent temp dir");
    let (workspace, _dir) = workspace(parent.path(), true);

    assert_eq!(workspace.disposal(), Disposal::Keep);
}

#[test]
fn workspace_uses_configured_parent_and_hidden_prefix() {
    let parent = tempfile::tempdir().expect("parent temp dir");
    let (workspace, _dir) = workspace(parent.path(), false);
    let path = Path::new(workspace.path());

    assert_eq!(path.parent(), Some(parent.path()));
    assert!(
        path.file_name()
            .and_then(|name| name.to_str())
            .is_some_and(|name| name.starts_with(".ab-av1-"))
    );
}

#[test]
fn workspaces_do_not_collide() {
    let parent = tempfile::tempdir().expect("parent temp dir");
    let (first, _first_dir) = workspace(parent.path(), false);
    let (second, _second_dir) = workspace(parent.path(), false);

    assert_ne!(first.path(), second.path());
}

#[test]
fn workspace_names_its_files() {
    let workspace = Workspace::new("/tmp/w".to_string(), false);
    assert_eq!(Path::new(&workspace.join("sample.mkv")), Path::new("/tmp/w/sample.mkv"));
    assert_eq!(Path::new(&workspace.join("a/b")), Path::new("/tmp/w/a/b"));
    assert_eq!(workspace.join("/elsewhere/b"), "/elsewhere/b");
    assert_eq!(workspace.path(), "/tmp/w");
}

#[test]
fn workspace_falls_back_to_the_current_directory() {
    assert_eq!(Workspace::parent(None, "/here"), "/here");
    assert_eq!(Workspace::parent(Some("/there".to_string()), "/here"), "/there");
    assert_eq!(
        Workspace::creation_error("/there"),
        "failed to create temporary workspace in /there"
    );
}
