use vstd::prelude::*;
use vstd::utf8::encode_utf8;

use crate::errors::ApiError;
use crate::flow::{error_of, fails, Call, Flow, Intent, Step};
use crate::models::{Content, Synchronization};
use crate::reference::{
    repo, repo_name, resolved_reference, second_segment, short_name_of, GitReference,
};
use crate::requests::CreatePlaybookRequest;

verus! {

/// Operations on playbooks.
pub struct PlaybookService;

/// Operations on the files of a playbook's workspace.
pub struct FileService;

/// Operations on the folders of a playbook's workspace.
pub struct FolderService;

/// Access to the logs of a playbook's primary actor.
pub struct LoggerService;

/// An operation that begins by looking playbook `id` up, to go on with `then`.
pub open spec fn begins_lookup(id: String, then: Intent, r: (Flow, Step)) -> bool {
    r.0 == (Flow::LookingUp { id, then }) && r.1 == Step::Call(Call::GetPlaybook { id })
}

/// An operation that is not offered and fails at once.
pub open spec fn refused(r: (Flow, Step)) -> bool {
    r.0 is Finished && fails(r.1) && error_of(r.1) is NotImplemented
}

fn look_up(id: String, then: Intent) -> (r: (Flow, Step))
    ensures
        begins_lookup(id, then, r),
{
    let call = Call::GetPlaybook { id: id.clone() };
    (Flow::LookingUp { id, then }, Step::Call(call))
}

fn not_offered() -> (r: (Flow, Step))
    ensures
        refused(r),
{
    (
        Flow::Finished,
        Step::Done(Err(ApiError::NotImplemented(String::from_str("The operation is not supported yet")))),
    )
}

fn copy_option(o: &Option<String>) -> (r: Option<String>)
    ensures
        r == *o,
{
    match o {
        Some(s) => Some(s.clone()),
        None => None,
    }
}

fn fail_request(msg: &str) -> (r: (Flow, Step))
    ensures
        r.0 is Finished,
        fails(r.1),
        error_of(r.1) is BadPlaybookRequest,
        error_of(r.1)->BadPlaybookRequest_0@ == msg@,
{
    (Flow::Finished, Step::Done(Err(ApiError::BadPlaybookRequest(String::from_str(msg)))))
}

impl PlaybookService {
    /// Starts creating a playbook from `req`.
    ///
    /// The request is checked before any backend call: it needs a branch, a
    /// tag or a revision, then a repository address that parses and whose
    /// short name `owner/repo` names the repository. The playbook is titled
    /// with the short name and named after the repository.
    pub fn create(req: &CreatePlaybookRequest) -> (r: (Flow, Step))
        ensures
            resolved_reference(req.branch, req.tag, req.rev) is None ==> {
                &&& r.0 is Finished
                &&& fails(r.1)
                &&& error_of(r.1) is BadPlaybookRequest
                &&& error_of(r.1)->BadPlaybookRequest_0@ == "Requires either branch, tag or rev"@
            },
            resolved_reference(req.branch, req.tag, req.rev) is Some && short_name_of(req.repo@) is None
                ==> r.0 is Finished && fails(r.1) && error_of(r.1) is InvalidRepoAddress,
            resolved_reference(req.branch, req.tag, req.rev) is Some && short_name_of(req.repo@) is Some
                && second_segment(short_name_of(req.repo@)->Some_0) is None ==> {
                &&& r.0 is Finished
                &&& fails(r.1)
                &&& error_of(r.1) is BadPlaybookRequest
                &&& error_of(r.1)->BadPlaybookRequest_0@ == "The repo name is None"@
            },
            resolved_reference(req.branch, req.tag, req.rev) is Some && short_name_of(req.repo@) is Some
                && second_segment(short_name_of(req.repo@)->Some_0) is Some ==> {
                &&& r.0 is FindingRepository
                &&& r.0->FindingRepository_title@ == short_name_of(req.repo@)->Some_0
                &&& r.0->FindingRepository_name@ == second_segment(
                    short_name_of(req.repo@)->Some_0,
                )->Some_0
                &&& r.0->FindingRepository_reference == (GitReference {
                    repo: req.repo,
                    branch: req.branch,
                    tag: req.tag,
                    rev: req.rev,
                })
                &&& r.1 == Step::Call(Call::FindRepository { repo: r.0->FindingRepository_title })
            },
    {
        let reference = GitReference {
            repo: req.repo.clone(),
            branch: copy_option(&req.branch),
            tag: copy_option(&req.tag),
            rev: copy_option(&req.rev),
        };
        if reference.reference().is_none() {
            return fail_request("Requires either branch, tag or rev");
        }
        let short = match repo(req.repo.as_str()) {
            Ok(short) => short,
            Err(e) => return (Flow::Finished, Step::Done(Err(e))),
        };
        let name = match repo_name(short.as_str()) {
            Some(name) => name,
            None => return fail_request("The repo name is None"),
        };
        let call = Call::FindRepository { repo: short.clone() };
        (Flow::FindingRepository { title: short, name, reference }, Step::Call(call))
    }

    /// Fetches playbook `id`.
    pub fn get(id: String) -> (r: (Flow, Step))
        ensures
            begins_lookup(id, Intent::Get, r),
    {
        look_up(id, Intent::Get)
    }

    /// Deletes playbook `id` once it is found to exist.
    pub fn delete(id: String) -> (r: (Flow, Step))
        ensures
            begins_lookup(id, Intent::Delete, r),
    {
        look_up(id, Intent::Delete)
    }

    /// Starts playbook `id` once it is found to exist.
    pub fn start(id: String) -> (r: (Flow, Step))
        ensures
            begins_lookup(id, Intent::Start, r),
    {
        look_up(id, Intent::Start)
    }

    /// Forwards `sync` to the primary actor of playbook `id`.
    pub fn update(id: String, sync: Synchronization) -> (r: (Flow, Step))
        ensures
            begins_lookup(id, Intent::Sync(sync), r),
    {
        look_up(id, Intent::Sync(sync))
    }
}

impl LoggerService {
    /// Opens the log stream of the primary actor of playbook `id`.
    pub fn logs(id: String) -> (r: (Flow, Step))
        ensures
            begins_lookup(id, Intent::Logs, r),
    {
        look_up(id, Intent::Logs)
    }
}

impl FileService {
    /// Reads file `path` of playbook `id`'s repository at `reference`.
    pub fn get(id: String, reference: String, path: String) -> (r: (Flow, Step))
        ensures
            begins_lookup(id, Intent::GetFile { reference, path }, r),
    {
        look_up(id, Intent::GetFile { reference, path })
    }

    /// Creates file `path` holding `content` in the workspace of playbook `id`,
    /// through a synchronization with its primary actor. On success the file
    /// is echoed back with an empty hash and blob id, since the backend writes
    /// it later.
    pub fn create(id: String, path: String, content: String) -> (r: (Flow, Step))
        ensures
            r.1 == Step::Call(Call::GetPlaybook { id }),
            r.0 is LookingUp,
            r.0->LookingUp_id == id,
            r.0->LookingUp_then is CreateFile,
            r.0->LookingUp_then->CreateFile_0.path == path,
            r.0->LookingUp_then->CreateFile_0.data@ == encode_utf8(content@),
            r.0->LookingUp_then->CreateFile_0.sha@.len() == 0,
            r.0->LookingUp_then->CreateFile_0.blob_id@.len() == 0,
    {
        let data = content.as_str().as_bytes_vec();
        let file = Content { path, data, sha: String::new(), blob_id: String::new() };
        look_up(id, Intent::CreateFile(file))
    }

    /// Not offered yet: always fails with `NotImplemented`.
    pub fn update(_id: String, _path: String, _content: String) -> (r: (Flow, Step))
        ensures
            refused(r),
    {
        not_offered()
    }

    /// Not offered yet: always fails with `NotImplemented`.
    pub fn delete(_id: String, _path: String) -> (r: (Flow, Step))
        ensures
            refused(r),
    {
        not_offered()
    }

    /// Not offered yet: always fails with `NotImplemented`.
    pub fn copy(_id: String, _path: String, _destination: String) -> (r: (Flow, Step))
        ensures
            refused(r),
    {
        not_offered()
    }

    /// Not offered yet: always fails with `NotImplemented`.
    pub fn rename(_id: String, _path: String, _destination: String) -> (r: (Flow, Step))
        ensures
            refused(r),
    {
        not_offered()
    }
}

impl FolderService {
    /// Lists folder `path` of playbook `id`'s repository at `reference`.
    pub fn get(id: String, reference: String, path: String) -> (r: (Flow, Step))
        ensures
            begins_lookup(id, Intent::ListFolder { reference, path }, r),
    {
        look_up(id, Intent::ListFolder { reference, path })
    }

    /// The tree of playbook `id`'s repository at `reference`, recursive or not.
    pub fn tree(id: String, reference: String, recursive: bool) -> (r: (Flow, Step))
        ensures
            begins_lookup(id, Intent::Tree { reference, recursive }, r),
    {
        look_up(id, Intent::Tree { reference, recursive })
    }

    /// Not offered yet: always fails with `NotImplemented`.
    pub fn create(_id: String, _path: String) -> (r: (Flow, Step))
        ensures
            refused(r),
    {
        not_offered()
    }

    /// Not offered yet: always fails with `NotImplemented`.
    pub fn delete(_id: String, _path: String) -> (r: (Flow, Step))
        ensures
            refused(r),
    {
        not_offered()
    }

    /// Not offered yet: always fails with `NotImplemented`.
    pub fn copy(_id: String, _path: String, _destination: String) -> (r: (Flow, Step))
        ensures
            refused(r),
    {
        not_offered()
    }

    /// Not offered yet: always fails with `NotImplemented`.
    pub fn rename(_id: String, _path: String, _destination: String) -> (r: (Flow, Step))
        ensures
            refused(r),
    {
        not_offered()
    }
}

} // verus!
