//! The `File` resource: one file on the target machine and how it should look.

use vstd::prelude::*;

verus! {

/// Whether the file should exist.
#[derive(Debug, Clone, Copy, PartialEq, Eq, Structural)]
pub enum FileState {
    Absent,
    Present,
}

/// Desired state of one file. Built with [`File::new`] and the setters, each of
/// which takes the value and hands it back with one field replaced.
#[derive(Debug, Clone)]
pub struct File {
    pub path: String,
    pub state: FileState,
    pub owner: Option<String>,
    pub group: Option<String>,
    pub mode: Option<String>,
    pub source: Option<String>,
    pub content: Option<String>,
    pub force: Option<bool>,
    pub backup: Option<String>,
}

/// Mathematical value of a [`File`].
pub struct FileModel {
    pub path: Seq<char>,
    pub state: FileState,
    pub owner: Option<Seq<char>>,
    pub group: Option<Seq<char>>,
    pub mode: Option<Seq<char>>,
    pub source: Option<Seq<char>>,
    pub content: Option<Seq<char>>,
    pub force: Option<bool>,
    pub backup: Option<Seq<char>>,
}

/// The characters of an optional string.
pub open spec fn chars_of(s: Option<String>) -> Option<Seq<char>> {
    match s {
        Some(t) => Some(t@),
        None => None,
    }
}

/// A file that should exist at `path`, with nothing else asked of it.
pub open spec fn present_at(path: Seq<char>) -> FileModel {
    FileModel {
        path,
        state: FileState::Present,
        owner: None,
        group: None,
        mode: None,
        source: None,
        content: None,
        force: None,
        backup: None,
    }
}

impl View for File {
    type V = FileModel;

    open spec fn view(&self) -> FileModel {
        FileModel {
            path: self.path@,
            state: self.state,
            owner: chars_of(self.owner),
            group: chars_of(self.group),
            mode: chars_of(self.mode),
            source: chars_of(self.source),
            content: chars_of(self.content),
            force: self.force,
            backup: chars_of(self.backup),
        }
    }
}

impl File {
    pub fn new(path: &str) -> (file: File)
        ensures
            file@ == present_at(path@),
    {
        File {
            state: FileState::Present,
            path: path.to_string(),
            owner: None,
            group: None,
            mode: None,
            source: None,
            content: None,
            force: None,
            backup: None,
        }
    }

    pub fn state(self, state: FileState) -> (file: File)
        ensures
            file@ == (FileModel { state, ..self@ }),
    {
        let mut file = self;
        file.state = state;
        file
    }

    pub fn owner(self, owner: &str) -> (file: File)
        ensures
            file@ == (FileModel { owner: Some(owner@), ..self@ }),
    {
        let mut file = self;
        file.owner = Some(owner.to_string());
        file
    }

    pub fn group(self, group: &str) -> (file: File)
        ensures
            file@ == (FileModel { group: Some(group@), ..self@ }),
    {
        let mut file = self;
        file.group = Some(group.to_string());
        file
    }

    pub fn mode(self, mode: &str) -> (file: File)
        ensures
            file@ == (FileModel { mode: Some(mode@), ..self@ }),
    {
        let mut file = self;
        file.mode = Some(mode.to_string());
        file
    }

    pub fn source(self, source: &str) -> (file: File)
        ensures
            file@ == (FileModel { source: Some(source@), ..self@ }),
    {
        let mut file = self;
        file.source = Some(source.to_string());
        file
    }

    pub fn content(self, content: &str) -> (file: File)
        ensures
            file@ == (FileModel { content: Some(content@), ..self@ }),
    {
        let mut file = self;
        file.content = Some(content.to_string());
        file
    }

    pub fn force(self, force: bool) -> (file: File)
        ensures
            file@ == (FileModel { force: Some(force), ..self@ }),
    {
        let mut file = self;
        file.force = Some(force);
        file
    }

    pub fn backup(self, backup: &str) -> (file: File)
        ensures
            file@ == (FileModel { backup: Some(backup@), ..self@ }),
    {
        let mut file = self;
        file.backup = Some(backup.to_string());
        file
    }
}

} // verus!
