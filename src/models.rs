use vstd::prelude::*;

use crate::reference::GitReference;

verus! {

/// The descriptive part of a playbook: its name and the repository it comes from.
#[derive(Debug, Clone, PartialEq, Eq)]
pub struct Preface {
    pub name: String,
    pub repository: Option<GitReference>,
}

/// A playbook as the orchestration backend reports it.
///
/// `characters` lists the names of its actors, the first one being the
/// playbook's primary actor.
#[derive(Debug, Clone, PartialEq, Eq)]
pub struct Playbook {
    pub id: String,
    pub title: String,
    pub description: String,
    pub preface: Preface,
    pub characters: Vec<String>,
}

/// What the orchestration backend needs to create a playbook.
#[derive(Debug, Clone, PartialEq, Eq)]
pub struct PlaybookPayload {
    pub title: String,
    pub description: String,
    pub preface: Preface,
}

/// A file read from a repository at some reference.
#[derive(Debug, Clone, PartialEq, Eq)]
pub struct Content {
    pub path: String,
    pub data: Vec<u8>,
    pub sha: String,
    pub blob_id: String,
}

/// One record of a directory listing.
#[derive(Debug, Clone, PartialEq, Eq)]
pub struct File {
    pub name: String,
    pub path: String,
    pub sha: String,
    pub kind: String,
}

/// One record of a tree listing.
#[derive(Debug, Clone, PartialEq, Eq)]
pub struct TreeEntry {
    pub path: String,
    pub mode: String,
    pub kind: String,
    pub sha: String,
}

/// A (possibly recursive) listing of a repository at some reference.
#[derive(Debug, Clone, PartialEq, Eq)]
pub struct Tree {
    pub sha: String,
    pub entries: Vec<TreeEntry>,
    pub truncated: bool,
}

/// What a synchronization event does to the paths it names.
#[derive(Debug, Clone, Copy, PartialEq, Eq)]
pub enum EventKind {
    Create,
    Modify,
    Remove,
}

/// A path named by a synchronization event.
#[derive(Debug, Clone, PartialEq, Eq)]
pub enum SyncPath {
    File(String),
    Directory(String),
}

/// An instruction for an actor to change its workspace.
#[derive(Debug, Clone, PartialEq, Eq)]
pub struct Synchronization {
    pub kind: EventKind,
    pub paths: Vec<SyncPath>,
    pub payload: Option<Vec<u8>>,
}

/// The event that creates the file `path` holding `data`.
pub open spec fn creates_file(s: Synchronization, path: String, data: Seq<u8>) -> bool {
    &&& s.kind == EventKind::Create
    &&& s.paths@ == seq![SyncPath::File(path)]
    &&& s.payload is Some
    &&& s.payload->Some_0@ == data
}

} // verus!
