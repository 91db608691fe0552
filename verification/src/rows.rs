//! The rows of the catalog's tables, as the storage engine holds them.

use crate::clock::SaveTime;
use crate::records::{copy_optional_text, OS};
use vstd::prelude::*;

verus! {

/// A row of the game table. The storage assigns `id` on insert.
#[derive(Debug, PartialEq, Eq)]
pub struct DbGameMetadata {
    pub id: Option<i32>,
    pub steam_appid: Option<String>,
    pub default_name: String,
}

/// A game row, as a mathematical value.
pub struct DbGameMetadataView {
    pub id: Option<i32>,
    pub steam_appid: Option<Seq<char>>,
    pub default_name: Seq<char>,
}

impl DeepView for DbGameMetadata {
    type V = DbGameMetadataView;

    open spec fn deep_view(&self) -> DbGameMetadataView {
        DbGameMetadataView {
            id: self.id,
            steam_appid: self.steam_appid.deep_view(),
            default_name: self.default_name@,
        }
    }
}

impl Clone for DbGameMetadata {
    fn clone(&self) -> (copy: Self)
        ensures
            copy.deep_view() == self.deep_view(),
    {
        DbGameMetadata {
            id: self.id,
            steam_appid: copy_optional_text(&self.steam_appid),
            default_name: self.default_name.clone(),
        }
    }
}

/// A row of the alternative-name table: one alias of one game.
#[derive(Debug, PartialEq, Eq)]
pub struct DbGameName {
    pub name: String,
    pub game_metadata_id: i32,
}

/// An alias row, as a mathematical value.
pub struct DbGameNameView {
    pub name: Seq<char>,
    pub game_metadata_id: i32,
}

impl DeepView for DbGameName {
    type V = DbGameNameView;

    open spec fn deep_view(&self) -> DbGameNameView {
        DbGameNameView {
            name: self.name@,
            game_metadata_id: self.game_metadata_id,
        }
    }
}

impl Clone for DbGameName {
    fn clone(&self) -> (copy: Self)
        ensures
            copy.deep_view() == self.deep_view(),
    {
        DbGameName {
            name: self.name.clone(),
            game_metadata_id: self.game_metadata_id,
        }
    }
}

/// A row of the save-path table. The storage assigns `id` on insert.
#[derive(Debug, PartialEq, Eq)]
pub struct DbGamePath {
    pub id: Option<i32>,
    pub path: String,
    pub operating_system: OS,
    pub game_metadata_id: i32,
}

/// A save-path row, as a mathematical value.
pub struct DbGamePathView {
    pub id: Option<i32>,
    pub path: Seq<char>,
    pub operating_system: OS,
    pub game_metadata_id: i32,
}

impl DeepView for DbGamePath {
    type V = DbGamePathView;

    open spec fn deep_view(&self) -> DbGamePathView {
        DbGamePathView {
            id: self.id,
            path: self.path@,
            operating_system: self.operating_system,
            game_metadata_id: self.game_metadata_id,
        }
    }
}

impl Clone for DbGamePath {
    fn clone(&self) -> (copy: Self)
        ensures
            copy.deep_view() == self.deep_view(),
    {
        DbGamePath {
            id: self.id,
            path: self.path.clone(),
            operating_system: self.operating_system,
            game_metadata_id: self.game_metadata_id,
        }
    }
}

/// A row of the executable table. The storage assigns `id` on insert.
#[derive(Debug, PartialEq, Eq)]
pub struct DbGameExecutable {
    pub id: Option<i32>,
    pub executable: String,
    pub operating_system: OS,
    pub game_metadata_id: i32,
}

/// An executable row, as a mathematical value.
pub struct DbGameExecutableView {
    pub id: Option<i32>,
    pub executable: Seq<char>,
    pub operating_system: OS,
    pub game_metadata_id: i32,
}

impl DeepView for DbGameExecutable {
    type V = DbGameExecutableView;

    open spec fn deep_view(&self) -> DbGameExecutableView {
        DbGameExecutableView {
            id: self.id,
            executable: self.executable@,
            operating_system: self.operating_system,
            game_metadata_id: self.game_metadata_id,
        }
    }
}

impl Clone for DbGameExecutable {
    fn clone(&self) -> (copy: Self)
        ensures
            copy.deep_view() == self.deep_view(),
    {
        DbGameExecutable {
            id: self.id,
            executable: self.executable.clone(),
            operating_system: self.operating_system,
            game_metadata_id: self.game_metadata_id,
        }
    }
}

/// A row of the snapshot table, keyed by the caller's identifier text.
#[derive(Debug, PartialEq, Eq)]
pub struct DbGameSave {
    pub uuid: String,
    pub path_id: i32,
    pub time: SaveTime,
}

/// A snapshot row, as a mathematical value.
pub struct DbGameSaveView {
    pub uuid: Seq<char>,
    pub path_id: i32,
    pub time: SaveTime,
}

impl DeepView for DbGameSave {
    type V = DbGameSaveView;

    open spec fn deep_view(&self) -> DbGameSaveView {
        DbGameSaveView {
            uuid: self.uuid@,
            path_id: self.path_id,
            time: self.time,
        }
    }
}

impl Clone for DbGameSave {
    fn clone(&self) -> (copy: Self)
        ensures
            copy.deep_view() == self.deep_view(),
    {
        DbGameSave {
            uuid: self.uuid.clone(),
            path_id: self.path_id,
            time: self.time,
        }
    }
}

/// A row of the file-digest table: one file of one snapshot.
#[derive(Debug, PartialEq, Eq)]
pub struct DbFileHash {
    pub relative_path: String,
    pub hash: String,
    pub game_save_uuid: String,
}

/// A digest row, as a mathematical value.
pub struct DbFileHashView {
    pub relative_path: Seq<char>,
    pub hash: Seq<char>,
    pub game_save_uuid: Seq<char>,
}

impl DeepView for DbFileHash {
    type V = DbFileHashView;

    open spec fn deep_view(&self) -> DbFileHashView {
        DbFileHashView {
            relative_path: self.relative_path@,
            hash: self.hash@,
            game_save_uuid: self.game_save_uuid@,
        }
    }
}

impl Clone for DbFileHash {
    fn clone(&self) -> (copy: Self)
        ensures
            copy.deep_view() == self.deep_view(),
    {
        DbFileHash {
            relative_path: self.relative_path.clone(),
            hash: self.hash.clone(),
            game_save_uuid: self.game_save_uuid.clone(),
        }
    }
}

} // verus!
