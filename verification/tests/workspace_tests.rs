use web_service::workspace::{PathKind, WorkspaceError, WorkspaceManager};

#[test]
fn missing_and_non_directory_paths_are_refused() {
    let mut m = WorkspaceManager::new();
    match m.create_workspace("/nope".to_string(), PathKind::Missing) {
        Err(e) => {
            assert!(matches!(e, WorkspaceError::PathDoesNotExist(_)));
            assert_eq!(e.message(), "Path does not exist: /nope");
        }
        Ok(_) => panic!("expected an error"),
    }
    match m.create_workspace("/etc/hosts".to_string(), PathKind::NotDirectory) {
        Err(e) => assert_eq!(e.message(), "Path is not a directory: /etc/hosts"),
        Ok(_) => panic!("expected an error"),
    }
    assert!(m.list_workspaces().is_empty());
    assert_eq!(m.get_workspace_by_path("/nope"), None);
}

#[test]
fn creating_a_workspace_registers_it() {
    let mut m = WorkspaceManager::new();
    let id = m.create_workspace("/tmp/project".to_string(), PathKind::Directory).ok().unwrap();
    let info = m.get_workspace(id).unwrap();
    assert_eq!(info.id, id);
    assert_eq!(info.path, "/tmp/project");
    assert_eq!(info.name, "project");
    assert_eq!(info.active_sessions, 0);
    assert_eq!(m.get_workspace_by_path("/tmp/project"), Some(id));
    assert_eq!(m.list_workspaces().len(), 1);
}

#[test]
fn registering_a_path_twice_gives_the_same_workspace() {
    let mut m = WorkspaceManager::new();
    let a = m.create_workspace("/tmp/p".to_string(), PathKind::Directory).ok().unwrap();
    let b = m.create_workspace("/tmp/p".to_string(), PathKind::Missing).ok().unwrap();
    assert_eq!(a, b);
    assert_eq!(m.list_workspaces().len(), 1);
    let c = m.create_workspace("/tmp/q".to_string(), PathKind::Directory).ok().unwrap();
    assert_ne!(a, c);
    assert_eq!(m.list_workspaces().len(), 2);
}

#[test]
fn root_directory_is_named_root() {
    let mut m = WorkspaceManager::new();
    let id = m.create_workspace("/".to_string(), PathKind::Directory).ok().unwrap();
    assert_eq!(m.get_workspace(id).unwrap().name, "root");
}

#[test]
fn session_counts_follow_sessions() {
    let mut m = WorkspaceManager::new();
    let id = m.create_workspace("/w".to_string(), PathKind::Directory).ok().unwrap();
    m.add_session(id, 10).ok().unwrap();
    m.add_session(id, 11).ok().unwrap();
    m.add_session(id, 10).ok().unwrap();
    assert_eq!(m.get_workspace(id).unwrap().active_sessions, 3);
    m.remove_session(id, 10).ok().unwrap();
    assert_eq!(m.get_workspace(id).unwrap().active_sessions, 1);
    m.remove_session(id, 99).ok().unwrap();
    assert_eq!(m.get_workspace(id).unwrap().active_sessions, 1);
    m.remove_session(id, 11).ok().unwrap();
    assert_eq!(m.get_workspace(id).unwrap().active_sessions, 0);
}

#[test]
fn unknown_workspace_is_reported() {
    let mut m = WorkspaceManager::new();
    let e = m.add_session(1, 2).err().unwrap();
    assert!(matches!(e, WorkspaceError::WorkspaceNotFound));
    assert_eq!(e.message(), "Workspace not found");
    assert!(matches!(m.remove_session(1, 2), Err(WorkspaceError::WorkspaceNotFound)));
    assert!(m.get_workspace(1).is_none());
}
