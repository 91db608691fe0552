//! The domain records that cross the catalog's boundary, each with the
//! mathematical value that the contracts speak of.

use vstd::prelude::*;

verus! {

/// The operating systems that a location can belong to.
#[derive(Clone, Copy, Debug, PartialEq, Eq, Structural)]
pub enum OS {
    Windows,
    Linux,
}

impl DeepView for OS {
    type V = OS;

    open spec fn deep_view(&self) -> OS {
        *self
    }
}

/// The number under which an operating system is stored. The table only
/// grows: a number that was given once keeps its meaning.
pub open spec fn os_code(os: OS) -> u8 {
    match os {
        OS::Windows => 1,
        OS::Linux => 2,
    }
}

impl OS {
    /// The stored number of this operating system.
    pub fn code(self) -> (code: u8)
        ensures
            code == os_code(self),
    {
        match self {
            OS::Windows => 1,
            OS::Linux => 2,
        }
    }

    /// The operating system stored under `code`, if there is one.
    pub fn from_code(code: u8) -> (os: Option<OS>)
        ensures
            match os {
                Some(found) => os_code(found) == code,
                None => forall|any: OS| os_code(any) != code,
            },
    {
        if code == 1 {
            Some(OS::Windows)
        } else if code == 2 {
            Some(OS::Linux)
        } else {
            None
        }
    }
}

/// Decoding a stored number gives back the operating system that was encoded,
/// and two operating systems never share a number.
pub proof fn lemma_os_code_is_lossless(a: OS, b: OS)
    ensures
        os_code(a) == os_code(b) <==> a == b,
{
}

/// What a caller supplies to register a game.
#[derive(Debug, PartialEq, Eq)]
pub struct GameMetadataCreate {
    pub known_name: Vec<String>,
    pub steam_appid: Option<String>,
    pub default_name: String,
}

/// What registers a game, as a mathematical value.
pub struct GameMetadataCreateView {
    pub known_name: Seq<Seq<char>>,
    pub steam_appid: Option<Seq<char>>,
    pub default_name: Seq<char>,
}

impl DeepView for GameMetadataCreate {
    type V = GameMetadataCreateView;

    open spec fn deep_view(&self) -> GameMetadataCreateView {
        GameMetadataCreateView {
            known_name: self.known_name.deep_view(),
            steam_appid: self.steam_appid.deep_view(),
            default_name: self.default_name@,
        }
    }
}

impl Clone for GameMetadataCreate {
    fn clone(&self) -> (copy: Self)
        ensures
            copy.deep_view() == self.deep_view(),
    {
        GameMetadataCreate {
            known_name: copy_texts(&self.known_name),
            steam_appid: copy_optional_text(&self.steam_appid),
            default_name: self.default_name.clone(),
        }
    }
}

/// A copy of a list of texts.
pub fn copy_texts(texts: &Vec<String>) -> (copy: Vec<String>)
    ensures
        copy.deep_view() == texts.deep_view(),
{
    let mut copy: Vec<String> = Vec::new();
    let mut i: usize = 0;
    while i < texts.len()
        invariant
            i <= texts.len(),
            copy.len() == i,
            forall|k: int| 0 <= k < i ==> copy[k]@ == texts[k]@,
        decreases texts.len() - i,
    {
        copy.push(texts[i].clone());
        i += 1;
    }
    assert(copy.deep_view() =~= texts.deep_view());
    copy
}

/// A copy of a text that may be absent.
pub fn copy_optional_text(text: &Option<String>) -> (copy: Option<String>)
    ensures
        copy.deep_view() == text.deep_view(),
{
    match text {
        Some(present) => Some(present.clone()),
        None => None,
    }
}

/// A game as the catalog knows it: the storage's identifier and what was
/// registered.
#[derive(Debug, PartialEq, Eq)]
pub struct GameMetadata {
    pub id: Option<i32>,
    pub metadata: GameMetadataCreate,
}

/// A game, as a mathematical value.
pub struct GameMetadataView {
    pub id: Option<i32>,
    pub metadata: GameMetadataCreateView,
}

impl DeepView for GameMetadata {
    type V = GameMetadataView;

    open spec fn deep_view(&self) -> GameMetadataView {
        GameMetadataView { id: self.id, metadata: self.metadata.deep_view() }
    }
}

impl Clone for GameMetadata {
    fn clone(&self) -> (copy: Self)
        ensures
            copy.deep_view() == self.deep_view(),
    {
        GameMetadata { id: self.id, metadata: self.metadata.clone() }
    }
}

/// What a caller supplies to register where a game keeps its saves.
#[derive(Debug, PartialEq, Eq)]
pub struct SavePathCreate {
    pub path: String,
    pub operating_system: OS,
}

/// What registers a save location, as a mathematical value.
pub struct SavePathCreateView {
    pub path: Seq<char>,
    pub operating_system: OS,
}

impl DeepView for SavePathCreate {
    type V = SavePathCreateView;

    open spec fn deep_view(&self) -> SavePathCreateView {
        SavePathCreateView { path: self.path@, operating_system: self.operating_system }
    }
}

impl Clone for SavePathCreate {
    fn clone(&self) -> (copy: Self)
        ensures
            copy.deep_view() == self.deep_view(),
    {
        SavePathCreate { path: self.path.clone(), operating_system: self.operating_system }
    }
}

/// A registered save location.
#[derive(Debug, PartialEq, Eq)]
pub struct SavePath {
    pub id: Option<i32>,
    pub path: SavePathCreate,
}

/// A save location, as a mathematical value.
pub struct SavePathView {
    pub id: Option<i32>,
    pub path: SavePathCreateView,
}

impl DeepView for SavePath {
    type V = SavePathView;

    open spec fn deep_view(&self) -> SavePathView {
        SavePathView { id: self.id, path: self.path.deep_view() }
    }
}

impl Clone for SavePath {
    fn clone(&self) -> (copy: Self)
        ensures
            copy.deep_view() == self.deep_view(),
    {
        SavePath { id: self.id, path: self.path.clone() }
    }
}

/// What a caller supplies to register where a game's executable lives.
#[derive(Debug, PartialEq, Eq)]
pub struct ExecutableCreate {
    pub executable: String,
    pub operating_system: OS,
}

/// What registers an executable location, as a mathematical value.
pub struct ExecutableCreateView {
    pub executable: Seq<char>,
    pub operating_system: OS,
}

impl DeepView for ExecutableCreate {
    type V = ExecutableCreateView;

    open spec fn deep_view(&self) -> ExecutableCreateView {
        ExecutableCreateView {
            executable: self.executable@,
            operating_system: self.operating_system,
        }
    }
}

impl Clone for ExecutableCreate {
    fn clone(&self) -> (copy: Self)
        ensures
            copy.deep_view() == self.deep_view(),
    {
        ExecutableCreate {
            executable: self.executable.clone(),
            operating_system: self.operating_system,
        }
    }
}

/// A registered executable location.
#[derive(Debug, PartialEq, Eq)]
pub struct Executable {
    pub id: Option<i32>,
    pub executable: ExecutableCreate,
}

/// An executable location, as a mathematical value.
pub struct ExecutableView {
    pub id: Option<i32>,
    pub executable: ExecutableCreateView,
}

impl DeepView for Executable {
    type V = ExecutableView;

    open spec fn deep_view(&self) -> ExecutableView {
        ExecutableView { id: self.id, executable: self.executable.deep_view() }
    }
}

impl Clone for Executable {
    fn clone(&self) -> (copy: Self)
        ensures
            copy.deep_view() == self.deep_view(),
    {
        Executable { id: self.id, executable: self.executable.clone() }
    }
}

/// The content digest of one file of a snapshot, by its path below the save
/// location.
#[derive(Debug, PartialEq, Eq)]
pub struct FileHash {
    pub relative_path: String,
    pub hash: String,
}

/// The digest of one file, as a mathematical value.
pub struct FileHashView {
    pub relative_path: Seq<char>,
    pub hash: Seq<char>,
}

impl DeepView for FileHash {
    type V = FileHashView;

    open spec fn deep_view(&self) -> FileHashView {
        FileHashView { relative_path: self.relative_path@, hash: self.hash@ }
    }
}

impl Clone for FileHash {
    fn clone(&self) -> (copy: Self)
        ensures
            copy.deep_view() == self.deep_view(),
    {
        FileHash { relative_path: self.relative_path.clone(), hash: self.hash.clone() }
    }
}

/// One backed-up snapshot: its identifier, the save location it belongs to,
/// the time it was taken in Unix seconds, and the digest of each of its files.
#[derive(Debug, PartialEq, Eq)]
pub struct SaveReference {
    pub uuid: String,
    pub path_id: i32,
    pub time: i64,
    pub files_hash: Vec<FileHash>,
}

/// A snapshot, as a mathematical value.
pub struct SaveReferenceView {
    pub uuid: Seq<char>,
    pub path_id: i32,
    pub time: i64,
    pub files_hash: Seq<FileHashView>,
}

impl DeepView for SaveReference {
    type V = SaveReferenceView;

    open spec fn deep_view(&self) -> SaveReferenceView {
        SaveReferenceView {
            uuid: self.uuid@,
            path_id: self.path_id,
            time: self.time,
            files_hash: self.files_hash.deep_view(),
        }
    }
}

/// A copy of a list of file digests.
pub fn copy_file_hashes(files: &Vec<FileHash>) -> (copy: Vec<FileHash>)
    ensures
        copy.deep_view() == files.deep_view(),
{
    let mut copy: Vec<FileHash> = Vec::new();
    let mut i: usize = 0;
    while i < files.len()
        invariant
            i <= files.len(),
            copy.len() == i,
            forall|k: int| 0 <= k < i ==> copy[k].deep_view() == files[k].deep_view(),
        decreases files.len() - i,
    {
        copy.push(files[i].clone());
        i += 1;
    }
    assert(copy.deep_view() =~= files.deep_view());
    copy
}

impl Clone for SaveReference {
    fn clone(&self) -> (copy: Self)
        ensures
            copy.deep_view() == self.deep_view(),
    {
        SaveReference {
            uuid: self.uuid.clone(),
            path_id: self.path_id,
            time: self.time,
            files_hash: copy_file_hashes(&self.files_hash),
        }
    }
}

} // verus!
