use vstd::prelude::*;

use crate::errors::{status_of, ApiError};
use crate::models::{
    creates_file, Content, EventKind, File, Playbook, PlaybookPayload, Preface, SyncPath,
    Synchronization, Tree,
};
use crate::reference::{repo, short_name_of, GitReference};

verus! {

/// A request the gateway makes of the orchestration or the source-control backend.
#[derive(Debug, PartialEq, Eq)]
pub enum Call {
    GetPlaybook { id: String },
    CreatePlaybook { payload: PlaybookPayload },
    DeletePlaybook { id: String },
    StartPlaybook { id: String },
    SyncActor { id: String, actor: String, sync: Synchronization },
    ActorLogs { id: String, actor: String },
    FindRepository { repo: String },
    FindContent { repo: String, path: String, reference: String },
    ListFiles { repo: String, path: String, reference: String },
    GetTree { repo: String, reference: String, recursive: bool },
}

/// What a backend gave back for a call; a failure carries the backend's message.
#[derive(Debug, PartialEq, Eq)]
pub enum Reply {
    /// For `GetPlaybook` and `CreatePlaybook`.
    Playbook(Result<Playbook, String>),
    /// For `DeletePlaybook`, `StartPlaybook` and `SyncActor`.
    Status(Result<u16, String>),
    /// For `FindRepository`: the repository's description, when it has one.
    Repository(Result<Option<String>, String>),
    /// For `FindContent`.
    Content(Result<Content, String>),
    /// For `ListFiles`.
    Files(Result<Vec<File>, String>),
    /// For `GetTree`; `None` when the backend has no tree there.
    Tree(Result<Option<Tree>, String>),
    /// For `ActorLogs`: the log stream was opened and stays with the caller.
    Stream,
}

/// The successful result of an operation.
#[derive(Debug, PartialEq, Eq)]
pub enum Outcome {
    Playbook(Playbook),
    Status(u16),
    Content(Content),
    Files(Vec<File>),
    Tree(Tree),
    Stream,
}

/// What to do next: make a call and hand its reply back, or stop with a result.
#[derive(Debug, PartialEq, Eq)]
pub enum Step {
    Call(Call),
    Done(Result<Outcome, ApiError>),
}

/// What an operation does once it has found its playbook.
#[derive(Debug, PartialEq, Eq)]
pub enum Intent {
    Get,
    Delete,
    Start,
    Sync(Synchronization),
    /// Creates a file through a synchronization and echoes it back.
    CreateFile(Content),
    Logs,
    GetFile { reference: String, path: String },
    ListFolder { reference: String, path: String },
    Tree { reference: String, recursive: bool },
}

/// The call an operation waits on once it has found its playbook, with what
/// the final result needs.
#[derive(Debug, PartialEq, Eq)]
pub enum Pending {
    Delete,
    Start,
    Sync,
    /// A synchronization that creates this file, echoed back on success.
    EchoFile(Content),
    Logs,
    GetFile,
    ListFolder,
    Tree,
}

/// The pending call of an intent; `Get` ends at the lookup and waits on nothing.
pub open spec fn pending_of(i: Intent) -> Pending {
    match i {
        Intent::Get | Intent::Delete => Pending::Delete,
        Intent::Start => Pending::Start,
        Intent::Sync(_) => Pending::Sync,
        Intent::CreateFile(c) => Pending::EchoFile(c),
        Intent::Logs => Pending::Logs,
        Intent::GetFile { .. } => Pending::GetFile,
        Intent::ListFolder { .. } => Pending::ListFolder,
        Intent::Tree { .. } => Pending::Tree,
    }
}

/// Where an operation stands between two backend calls.
#[derive(Debug, PartialEq, Eq)]
pub enum Flow {
    /// Creating a playbook: waiting for the repository lookup.
    FindingRepository { title: String, name: String, reference: GitReference },
    /// Creating a playbook: waiting for the orchestration backend.
    Creating,
    /// Waiting for the playbook `id`, to go on with `then`.
    LookingUp { id: String, then: Intent },
    /// Waiting for the call that carries out what was pending.
    Acting { pending: Pending },
    Finished,
}

pub open spec fn fails(step: Step) -> bool {
    step is Done && step->Done_0 is Err
}

pub open spec fn error_of(step: Step) -> ApiError {
    step->Done_0->Err_0
}

pub open spec fn succeeds_with(step: Step, o: Outcome) -> bool {
    step == Step::Done(Ok(o))
}

/// The step fails with `BadPlaybook` and the given text.
pub open spec fn bad_playbook(step: Step, msg: Seq<char>) -> bool {
    fails(step) && error_of(step) is BadPlaybook && error_of(step)->BadPlaybook_0@ == msg
}

/// The request for the repository of playbook `p` that `what` reads, given how
/// the repository's short name relates to the call made.
pub open spec fn reads_repository(p: Playbook, what: Intent, after: Flow, step: Step) -> bool {
    match p.preface.repository {
        None => after is Finished && bad_playbook(step, "The repository is none"@),
        Some(g) => match short_name_of(g.repo@) {
            None => after is Finished && fails(step) && error_of(step) is InvalidRepoAddress,
            Some(short) => after == (Flow::Acting { pending: pending_of(what) }) && step is Call && match what {
                Intent::GetFile { reference, path } => step->Call_0 is FindContent
                    && step->Call_0->FindContent_repo@ == short
                    && step->Call_0->FindContent_path == path
                    && step->Call_0->FindContent_reference == reference,
                Intent::ListFolder { reference, path } => step->Call_0 is ListFiles
                    && step->Call_0->ListFiles_repo@ == short
                    && step->Call_0->ListFiles_path == path
                    && step->Call_0->ListFiles_reference == reference,
                Intent::Tree { reference, recursive } => step->Call_0 is GetTree
                    && step->Call_0->GetTree_repo@ == short
                    && step->Call_0->GetTree_reference == reference
                    && step->Call_0->GetTree_recursive == recursive,
                _ => false,
            },
        },
    }
}

/// The request addressed to the primary actor of playbook `p`.
pub open spec fn reaches_actor(id: String, p: Playbook, what: Intent, after: Flow, step: Step) -> bool {
    if p.characters@.len() == 0 {
        after is Finished && bad_playbook(step, "The playbook has no characters"@)
    } else {
        after == (Flow::Acting { pending: pending_of(what) }) && match what {
            Intent::Sync(s) => step == Step::Call(
                Call::SyncActor { id, actor: p.characters@[0], sync: s },
            ),
            Intent::CreateFile(c) => step is Call && step->Call_0 is SyncActor
                && step->Call_0->SyncActor_id == id
                && step->Call_0->SyncActor_actor == p.characters@[0]
                && creates_file(step->Call_0->SyncActor_sync, c.path, c.data@),
            Intent::Logs => step == Step::Call(Call::ActorLogs { id, actor: p.characters@[0] }),
            _ => false,
        }
    }
}

/// What follows once playbook `p` was found.
pub open spec fn after_lookup(id: String, then: Intent, p: Playbook, after: Flow, step: Step) -> bool {
    match then {
        Intent::Get => after is Finished && succeeds_with(step, Outcome::Playbook(p)),
        Intent::Delete => after == (Flow::Acting { pending: Pending::Delete }) && step == Step::Call(
            Call::DeletePlaybook { id },
        ),
        Intent::Start => after == (Flow::Acting { pending: Pending::Start }) && step == Step::Call(
            Call::StartPlaybook { id },
        ),
        Intent::Sync(_) => reaches_actor(id, p, then, after, step),
        Intent::CreateFile(_) => reaches_actor(id, p, then, after, step),
        Intent::Logs => reaches_actor(id, p, then, after, step),
        _ => reads_repository(p, then, after, step),
    }
}

/// How the reply to the pending call ends the operation.
pub open spec fn after_action(pending: Pending, reply: Reply, step: Step) -> bool {
    match (pending, reply) {
        (Pending::Delete, Reply::Status(Ok(c))) => succeeds_with(step, Outcome::Status(c)),
        (Pending::Delete, Reply::Status(Err(e))) => step == Step::Done(
            Err(ApiError::FailedToDeletePlaybook(e)),
        ),
        (Pending::Start, Reply::Status(Ok(c))) => succeeds_with(step, Outcome::Status(c)),
        (Pending::Start, Reply::Status(Err(e))) => step == Step::Done(
            Err(ApiError::FailedToStartPlaybook(e)),
        ),
        (Pending::Sync, Reply::Status(Ok(c))) => succeeds_with(step, Outcome::Status(c)),
        (Pending::Sync, Reply::Status(Err(e))) => step == Step::Done(
            Err(ApiError::FailedToSynchronize(e)),
        ),
        (Pending::EchoFile(c), Reply::Status(Ok(_))) => succeeds_with(step, Outcome::Content(c)),
        (Pending::EchoFile(_), Reply::Status(Err(e))) => step == Step::Done(
            Err(ApiError::FailedToSynchronize(e)),
        ),
        (Pending::Logs, Reply::Stream) => succeeds_with(step, Outcome::Stream),
        (Pending::GetFile, Reply::Content(Ok(c))) => succeeds_with(step, Outcome::Content(c)),
        (Pending::GetFile, Reply::Content(Err(e))) => step == Step::Done(
            Err(ApiError::NotFoundContent(e)),
        ),
        (Pending::ListFolder, Reply::Files(Ok(v))) => succeeds_with(step, Outcome::Files(v)),
        (Pending::ListFolder, Reply::Files(Err(e))) => step == Step::Done(
            Err(ApiError::NotFoundFolder(e)),
        ),
        (Pending::Tree, Reply::Tree(Ok(Some(t)))) => succeeds_with(step, Outcome::Tree(t)),
        (Pending::Tree, Reply::Tree(Ok(None))) => fails(step) && error_of(step) is NotFoundFolder
            && error_of(step)->NotFoundFolder_0@ == "The folder is none"@,
        (Pending::Tree, Reply::Tree(Err(e))) => step == Step::Done(
            Err(ApiError::NotFoundFolder(e)),
        ),
        _ => step == Step::Done(Err(ApiError::InternalServerError)),
    }
}

/// One move of an operation: from `flow`, on `reply`, to `after`, doing `step`.
///
/// A reply that does not answer the pending call, or any reply once the
/// operation has finished, ends it with `InternalServerError`.
pub open spec fn advances(flow: Flow, reply: Reply, after: Flow, step: Step) -> bool {
    match (flow, reply) {
        (Flow::FindingRepository { title, name, reference }, Reply::Repository(Ok(d))) => {
            &&& after is Creating
            &&& step is Call
            &&& step->Call_0 is CreatePlaybook
            &&& step->Call_0->CreatePlaybook_payload.title == title
            &&& step->Call_0->CreatePlaybook_payload.description@ == match d {
                Some(s) => s@,
                None => Seq::<char>::empty(),
            }
            &&& step->Call_0->CreatePlaybook_payload.preface == (Preface {
                name,
                repository: Some(reference),
            })
        },
        (Flow::FindingRepository { .. }, Reply::Repository(Err(e))) => after is Finished && step
            == Step::Done(Err(ApiError::NotFoundRepo(e))),
        (Flow::Creating, Reply::Playbook(Ok(p))) => after is Finished && succeeds_with(
            step,
            Outcome::Playbook(p),
        ),
        (Flow::Creating, Reply::Playbook(Err(e))) => after is Finished && step == Step::Done(
            Err(ApiError::FailedToCreatePlaybook(e)),
        ),
        (Flow::LookingUp { id, then }, Reply::Playbook(Ok(p))) => after_lookup(
            id,
            then,
            p,
            after,
            step,
        ),
        (Flow::LookingUp { .. }, Reply::Playbook(Err(e))) => after is Finished && step
            == Step::Done(Err(ApiError::NotFoundPlaybook(e))),
        (Flow::Acting { pending }, _) => after is Finished && after_action(pending, reply, step),
        _ => after is Finished && step == Step::Done(Err(ApiError::InternalServerError)),
    }
}

fn bad_playbook_error(msg: &str) -> (r: Step)
    ensures
        bad_playbook(r, msg@),
{
    Step::Done(Err(ApiError::BadPlaybook(String::from_str(msg))))
}

/// The synchronization event that creates the file `c`.
fn file_creation(c: &Content) -> (r: Synchronization)
    ensures
        creates_file(r, c.path, c.data@),
{
    let mut paths: Vec<SyncPath> = Vec::new();
    paths.push(SyncPath::File(c.path.clone()));
    proof {
        assert(paths@ =~= seq![SyncPath::File(c.path)]);
    }
    Synchronization { kind: EventKind::Create, paths, payload: Some(copy_bytes(&c.data)) }
}

fn copy_bytes(v: &Vec<u8>) -> (r: Vec<u8>)
    ensures
        r@ == v@,
{
    let mut r: Vec<u8> = Vec::new();
    let mut i: usize = 0;
    while i < v.len()
        invariant
            i <= v@.len(),
            r@ == v@.subrange(0, i as int),
        decreases v@.len() - i,
    {
        r.push(v[i]);
        i = i + 1;
        proof {
            assert(r@ =~= v@.subrange(0, i as int));
        }
    }
    proof {
        assert(r@ =~= v@);
    }
    r
}

fn reach_actor(id: String, p: Playbook, what: Intent) -> (r: (Flow, Step))
    requires
        what is Sync || what is CreateFile || what is Logs,
    ensures
        reaches_actor(id, p, what, r.0, r.1),
{
    if p.characters.len() == 0 {
        return (Flow::Finished, bad_playbook_error("The playbook has no characters"));
    }
    let actor = p.characters[0].clone();
    match what {
        Intent::Sync(sync) => (
            Flow::Acting { pending: Pending::Sync },
            Step::Call(Call::SyncActor { id, actor, sync }),
        ),
        Intent::CreateFile(c) => {
            let sync = file_creation(&c);
            (Flow::Acting { pending: Pending::EchoFile(c) }, Step::Call(Call::SyncActor { id, actor, sync }))
        },
        _ => (Flow::Acting { pending: Pending::Logs }, Step::Call(Call::ActorLogs { id, actor })),
    }
}

fn read_repository(p: Playbook, what: Intent) -> (r: (Flow, Step))
    requires
        what is GetFile || what is ListFolder || what is Tree,
    ensures
        reads_repository(p, what, r.0, r.1),
{
    let source = match p.preface.repository {
        Some(g) => g,
        None => return (Flow::Finished, bad_playbook_error("The repository is none")),
    };
    let short = match repo(source.repo.as_str()) {
        Ok(short) => short,
        Err(e) => return (Flow::Finished, Step::Done(Err(e))),
    };
    match what {
        Intent::GetFile { reference, path } => (
            Flow::Acting { pending: Pending::GetFile },
            Step::Call(Call::FindContent { repo: short, path, reference }),
        ),
        Intent::ListFolder { reference, path } => (
            Flow::Acting { pending: Pending::ListFolder },
            Step::Call(Call::ListFiles { repo: short, path, reference }),
        ),
        Intent::Tree { reference, recursive } => (
            Flow::Acting { pending: Pending::Tree },
            Step::Call(Call::GetTree { repo: short, reference, recursive }),
        ),
        _ => (Flow::Finished, Step::Done(Err(ApiError::InternalServerError))),
    }
}

fn continue_after_lookup(id: String, then: Intent, p: Playbook) -> (r: (Flow, Step))
    ensures
        after_lookup(id, then, p, r.0, r.1),
{
    match then {
        Intent::Get => (Flow::Finished, Step::Done(Ok(Outcome::Playbook(p)))),
        Intent::Delete => (
            Flow::Acting { pending: Pending::Delete },
            Step::Call(Call::DeletePlaybook { id }),
        ),
        Intent::Start => (
            Flow::Acting { pending: Pending::Start },
            Step::Call(Call::StartPlaybook { id }),
        ),
        Intent::Sync(_) | Intent::CreateFile(_) | Intent::Logs => reach_actor(id, p, then),
        _ => read_repository(p, then),
    }
}

fn finish(pending: Pending, reply: Reply) -> (r: Step)
    ensures
        after_action(pending, reply, r),
{
    match (pending, reply) {
        (Pending::Delete, Reply::Status(Ok(c))) => Step::Done(Ok(Outcome::Status(c))),
        (Pending::Delete, Reply::Status(Err(e))) => Step::Done(
            Err(ApiError::FailedToDeletePlaybook(e)),
        ),
        (Pending::Start, Reply::Status(Ok(c))) => Step::Done(Ok(Outcome::Status(c))),
        (Pending::Start, Reply::Status(Err(e))) => Step::Done(
            Err(ApiError::FailedToStartPlaybook(e)),
        ),
        (Pending::Sync, Reply::Status(Ok(c))) => Step::Done(Ok(Outcome::Status(c))),
        (Pending::Sync, Reply::Status(Err(e))) => Step::Done(Err(ApiError::FailedToSynchronize(e))),
        (Pending::EchoFile(c), Reply::Status(Ok(_))) => Step::Done(Ok(Outcome::Content(c))),
        (Pending::EchoFile(_), Reply::Status(Err(e))) => Step::Done(
            Err(ApiError::FailedToSynchronize(e)),
        ),
        (Pending::Logs, Reply::Stream) => Step::Done(Ok(Outcome::Stream)),
        (Pending::GetFile, Reply::Content(Ok(c))) => Step::Done(Ok(Outcome::Content(c))),
        (Pending::GetFile, Reply::Content(Err(e))) => Step::Done(Err(ApiError::NotFoundContent(e))),
        (Pending::ListFolder, Reply::Files(Ok(v))) => Step::Done(Ok(Outcome::Files(v))),
        (Pending::ListFolder, Reply::Files(Err(e))) => Step::Done(Err(ApiError::NotFoundFolder(e))),
        (Pending::Tree, Reply::Tree(Ok(Some(t)))) => Step::Done(Ok(Outcome::Tree(t))),
        (Pending::Tree, Reply::Tree(Ok(None))) => Step::Done(
            Err(ApiError::NotFoundFolder(String::from_str("The folder is none"))),
        ),
        (Pending::Tree, Reply::Tree(Err(e))) => Step::Done(Err(ApiError::NotFoundFolder(e))),
        _ => Step::Done(Err(ApiError::InternalServerError)),
    }
}

impl Flow {
    /// Takes the reply to the pending call and tells what to do next.
    pub fn step(self, reply: Reply) -> (r: (Flow, Step))
        ensures
            advances(self, reply, r.0, r.1),
    {
        match (self, reply) {
            (Flow::FindingRepository { title, name, reference }, Reply::Repository(Ok(d))) => {
                let description = match d {
                    Some(s) => s,
                    None => String::new(),
                };
                let preface = Preface { name, repository: Some(reference) };
                let payload = PlaybookPayload { title, description, preface };
                (Flow::Creating, Step::Call(Call::CreatePlaybook { payload }))
            },
            (Flow::FindingRepository { .. }, Reply::Repository(Err(e))) => (
                Flow::Finished,
                Step::Done(Err(ApiError::NotFoundRepo(e))),
            ),
            (Flow::Creating, Reply::Playbook(Ok(p))) => (
                Flow::Finished,
                Step::Done(Ok(Outcome::Playbook(p))),
            ),
            (Flow::Creating, Reply::Playbook(Err(e))) => (
                Flow::Finished,
                Step::Done(Err(ApiError::FailedToCreatePlaybook(e))),
            ),
            (Flow::LookingUp { id, then }, Reply::Playbook(Ok(p))) => continue_after_lookup(
                id,
                then,
                p,
            ),
            (Flow::LookingUp { .. }, Reply::Playbook(Err(e))) => (
                Flow::Finished,
                Step::Done(Err(ApiError::NotFoundPlaybook(e))),
            ),
            (Flow::Acting { pending }, reply) => (Flow::Finished, finish(pending, reply)),
            _ => (Flow::Finished, Step::Done(Err(ApiError::InternalServerError))),
        }
    }
}

/// A missing playbook is reported as not found: whatever the operation waits
/// to do (delete, start, synchronize, ...), a failed lookup ends it with
/// `NotFoundPlaybook` carrying the backend's message, before any other call.
pub proof fn lemma_missing_playbook_not_found(
    id: String,
    then: Intent,
    e: String,
    after: Flow,
    step: Step,
)
    requires
        advances(Flow::LookingUp { id, then }, Reply::Playbook(Err(e)), after, step),
    ensures
        after is Finished,
        step == Step::Done(Err(ApiError::NotFoundPlaybook(e))),
        status_of(ApiError::NotFoundPlaybook(e)) == 404,
{
}

/// A playbook without actors cannot be synchronized with nor have its logs
/// read: once it is found the operation fails with `BadPlaybook` and makes no
/// further call.
pub proof fn lemma_actorless_playbook_is_bad(
    id: String,
    then: Intent,
    p: Playbook,
    after: Flow,
    step: Step,
)
    requires
        then is Sync || then is CreateFile || then is Logs,
        p.characters@.len() == 0,
        advances(Flow::LookingUp { id, then }, Reply::Playbook(Ok(p)), after, step),
    ensures
        after is Finished,
        !(step is Call),
        fails(step),
        error_of(step) is BadPlaybook,
{
}

/// The lookup reply of a backend that holds the playbooks whose ids are in `held`.
pub open spec fn lookup_reply(held: Set<Seq<char>>, id: String, found: Playbook, missing: String) -> Reply {
    if held.contains(id@) {
        Reply::Playbook(Ok(found))
    } else {
        Reply::Playbook(Err(missing))
    }
}

/// Deleting twice: against a backend that finds exactly the playbooks it
/// holds and drops one once it is deleted, deleting a held playbook succeeds,
/// and deleting it again reports it as not found (status 404).
pub proof fn lemma_delete_twice(
    id: String,
    held: Set<Seq<char>>,
    found: Playbook,
    missing: String,
    code: u16,
    f1: Flow,
    s1: Step,
    f2: Flow,
    s2: Step,
    g1: Flow,
    t1: Step,
)
    requires
        held.contains(id@),
        advances(
            Flow::LookingUp { id, then: Intent::Delete },
            lookup_reply(held, id, found, missing),
            f1,
            s1,
        ),
        advances(f1, Reply::Status(Ok(code)), f2, s2),
        advances(
            Flow::LookingUp { id, then: Intent::Delete },
            lookup_reply(held.remove(id@), id, found, missing),
            g1,
            t1,
        ),
    ensures
        s1 == Step::Call(Call::DeletePlaybook { id }),
        s2 == Step::Done(Ok(Outcome::Status(code))),
        t1 == Step::Done(Err(ApiError::NotFoundPlaybook(missing))),
        status_of(error_of(t1)) == 404,
{
}

} // verus!
