use amp_apiserver::errors::ApiError;
use amp_apiserver::flow::{Call, Flow, Outcome, Reply, Step};
use amp_apiserver::models::{Content, EventKind, File, Playbook, Preface, SyncPath, Tree, TreeEntry};
use amp_apiserver::reference::GitReference;
use amp_apiserver::services::{FileService, FolderService};

const ID: &str = "7d1f0c2e-8b3a-4e5f-a6b7-c8d9e0f1a2b3";

fn playbook(repo: Option<&str>) -> Playbook {
    Playbook {
        id: ID.to_string(),
        title: "acme/app".to_string(),
        description: String::new(),
        preface: Preface {
            name: "app".to_string(),
            repository: repo.map(|r| GitReference { repo: r.to_string(), branch: Some("main".to_string()), tag: None, rev: None }),
        },
        characters: vec!["web".to_string()],
    }
}

fn error_of(step: Step) -> ApiError {
    match step {
        Step::Done(Err(e)) => e,
        other => panic!("expected a failure, got {:?}", other),
    }
}

fn entry(path: &str, kind: &str) -> TreeEntry {
    TreeEntry { path: path.to_string(), mode: "100644".to_string(), kind: kind.to_string(), sha: format!("sha-{}", path) }
}

#[test]
fn get_file_asks_for_path_at_reference() {
    let (flow, step) = FileService::get(ID.to_string(), "main".to_string(), "README.md".to_string());
    assert_eq!(step, Step::Call(Call::GetPlaybook { id: ID.to_string() }));
    let (flow, step) = flow.step(Reply::Playbook(Ok(playbook(Some("https://github.com/acme/app.git")))));
    assert_eq!(step, Step::Call(Call::FindContent { repo: "acme/app".to_string(), path: "README.md".to_string(), reference: "main".to_string() }));
    let content = Content { path: "README.md".to_string(), data: b"# app".to_vec(), sha: "abc".to_string(), blob_id: "def".to_string() };
    let (_, step) = flow.step(Reply::Content(Ok(content.clone())));
    assert_eq!(step, Step::Done(Ok(Outcome::Content(content))));
}

#[test]
fn get_missing_file_is_not_found_content() {
    let (flow, _) = FileService::get(ID.to_string(), "main".to_string(), "README.md".to_string());
    let (flow, _) = flow.step(Reply::Playbook(Ok(playbook(Some("https://github.com/acme/app.git")))));
    let (flow, step) = flow.step(Reply::Content(Err("Not Found".to_string())));
    assert_eq!(flow, Flow::Finished);
    let e = error_of(step);
    assert_eq!(e, ApiError::NotFoundContent("Not Found".to_string()));
    assert_eq!(e.status(), 404);
}

#[test]
fn get_file_of_playbook_without_repository() {
    let (flow, _) = FileService::get(ID.to_string(), "main".to_string(), "README.md".to_string());
    let (_, step) = flow.step(Reply::Playbook(Ok(playbook(None))));
    let e = error_of(step);
    assert_eq!(e, ApiError::BadPlaybook("The repository is none".to_string()));
    assert_eq!(e.status(), 400);
}

#[test]
fn get_file_of_playbook_with_bad_address() {
    let (flow, _) = FileService::get(ID.to_string(), "main".to_string(), "README.md".to_string());
    let (_, step) = flow.step(Reply::Playbook(Ok(playbook(Some("::nonsense")))));
    assert!(matches!(error_of(step), ApiError::InvalidRepoAddress(_)));
}

#[test]
fn get_file_of_missing_playbook() {
    let (flow, _) = FileService::get(ID.to_string(), "main".to_string(), "README.md".to_string());
    let (_, step) = flow.step(Reply::Playbook(Err("no playbook".to_string())));
    assert_eq!(error_of(step), ApiError::NotFoundPlaybook("no playbook".to_string()));
}

#[test]
fn create_file_synchronizes_and_echoes() {
    let (flow, _) = FileService::create(ID.to_string(), "src/main.rs".to_string(), "fn main() {}".to_string());
    let (flow, step) = flow.step(Reply::Playbook(Ok(playbook(Some("https://github.com/acme/app.git")))));
    match step {
        Step::Call(Call::SyncActor { id, actor, sync }) => {
            assert_eq!(id, ID);
            assert_eq!(actor, "web");
            assert_eq!(sync.kind, EventKind::Create);
            assert_eq!(sync.paths, vec![SyncPath::File("src/main.rs".to_string())]);
            assert_eq!(sync.payload, Some(b"fn main() {}".to_vec()));
        }
        other => panic!("unexpected {:?}", other),
    }
    let (_, step) = flow.step(Reply::Status(Ok(200)));
    let echoed = Content { path: "src/main.rs".to_string(), data: b"fn main() {}".to_vec(), sha: String::new(), blob_id: String::new() };
    assert_eq!(step, Step::Done(Ok(Outcome::Content(echoed))));
}

#[test]
fn create_file_in_actorless_playbook() {
    let (flow, _) = FileService::create(ID.to_string(), "a.txt".to_string(), "x".to_string());
    let mut p = playbook(Some("https://github.com/acme/app.git"));
    p.characters.clear();
    let (_, step) = flow.step(Reply::Playbook(Ok(p)));
    assert!(matches!(error_of(step), ApiError::BadPlaybook(_)));
}

#[test]
fn create_file_rejected_by_actor() {
    let (flow, _) = FileService::create(ID.to_string(), "a.txt".to_string(), "x".to_string());
    let (flow, _) = flow.step(Reply::Playbook(Ok(playbook(Some("https://github.com/acme/app.git")))));
    let (_, step) = flow.step(Reply::Status(Err("busy".to_string())));
    assert_eq!(error_of(step), ApiError::FailedToSynchronize("busy".to_string()));
}

#[test]
fn folder_tree_is_passed_through_unfiltered() {
    let (flow, _) = FolderService::tree(ID.to_string(), "main".to_string(), true);
    let (flow, step) = flow.step(Reply::Playbook(Ok(playbook(Some("https://github.com/acme/app.git")))));
    assert_eq!(step, Step::Call(Call::GetTree { repo: "acme/app".to_string(), reference: "main".to_string(), recursive: true }));
    let tree = Tree {
        sha: "root".to_string(),
        entries: vec![entry("src", "tree"), entry("src/main.rs", "blob"), entry("README.md", "blob"), entry(".gitignore", "blob")],
        truncated: false,
    };
    let (_, step) = flow.step(Reply::Tree(Ok(Some(tree.clone()))));
    match step {
        Step::Done(Ok(Outcome::Tree(t))) => {
            assert_eq!(t.entries, tree.entries);
            assert_eq!(t, tree);
        }
        other => panic!("unexpected {:?}", other),
    }
}

#[test]
fn folder_tree_absent_is_not_found_folder() {
    let (flow, _) = FolderService::tree(ID.to_string(), "main".to_string(), false);
    let (flow, _) = flow.step(Reply::Playbook(Ok(playbook(Some("https://github.com/acme/app.git")))));
    let (_, step) = flow.step(Reply::Tree(Ok(None)));
    let e = error_of(step);
    assert_eq!(e, ApiError::NotFoundFolder("The folder is none".to_string()));
    assert_eq!(e.status(), 404);
}

#[test]
fn folder_tree_failure_is_not_found_folder() {
    let (flow, _) = FolderService::tree(ID.to_string(), "dev".to_string(), false);
    let (flow, _) = flow.step(Reply::Playbook(Ok(playbook(Some("https://github.com/acme/app")))));
    let (_, step) = flow.step(Reply::Tree(Err("no such ref".to_string())));
    assert_eq!(error_of(step), ApiError::NotFoundFolder("no such ref".to_string()));
}

#[test]
fn folder_listing() {
    let (flow, _) = FolderService::get(ID.to_string(), "main".to_string(), "src".to_string());
    let (flow, step) = flow.step(Reply::Playbook(Ok(playbook(Some("https://github.com/acme/app.git")))));
    assert_eq!(step, Step::Call(Call::ListFiles { repo: "acme/app".to_string(), path: "src".to_string(), reference: "main".to_string() }));
    let files = vec![File { name: "main.rs".to_string(), path: "src/main.rs".to_string(), sha: "1".to_string(), kind: "file".to_string() }];
    let (_, step) = flow.step(Reply::Files(Ok(files.clone())));
    assert_eq!(step, Step::Done(Ok(Outcome::Files(files))));
}

#[test]
fn folder_listing_failure() {
    let (flow, _) = FolderService::get(ID.to_string(), "main".to_string(), "nope".to_string());
    let (flow, _) = flow.step(Reply::Playbook(Ok(playbook(Some("https://github.com/acme/app.git")))));
    let (_, step) = flow.step(Reply::Files(Err("Not Found".to_string())));
    assert_eq!(error_of(step), ApiError::NotFoundFolder("Not Found".to_string()));
}

#[test]
fn mutations_are_not_offered() {
    let steps = vec![
        FileService::update(ID.to_string(), "a".to_string(), "b".to_string()),
        FileService::delete(ID.to_string(), "a".to_string()),
        FileService::copy(ID.to_string(), "a".to_string(), "b".to_string()),
        FileService::rename(ID.to_string(), "a".to_string(), "b".to_string()),
        FolderService::create(ID.to_string(), "a".to_string()),
        FolderService::delete(ID.to_string(), "a".to_string()),
        FolderService::copy(ID.to_string(), "a".to_string(), "b".to_string()),
        FolderService::rename(ID.to_string(), "a".to_string(), "b".to_string()),
    ];
    for (flow, step) in steps {
        assert_eq!(flow, Flow::Finished);
        let e = error_of(step);
        assert!(matches!(e, ApiError::NotImplemented(_)));
        assert_eq!(e.status(), 501);
    }
}
