//! What unit management wants done, and what comes of it.

use crate::agent::error::Error;
use crate::agent::state::{UnitRow, UnitRowModel};
use crate::agent::unit::artifact::{Unpack, UnpackModel};
use vstd::prelude::*;

verus! {

/// What is to be done next.
#[derive(Debug)]
pub enum UnitAction {
    /// Fetch a URL.
    Download { url: String },
    /// Look a unit up in the store.
    Load { name: String },
    /// Ask a process to end, then wait so many seconds.
    Stop { pid: u32, pause_sec: u64 },
    /// Put an artifact in its place.
    Unpack { plan: Unpack, bytes: Vec<u8> },
    /// Start a binary on a socket, if there is such a binary.
    Start { binary: String, socket: String },
    /// Ask a sidecar how it is, again and again for so many seconds.
    Probe { name: String, timeout_sec: u64 },
    /// Store a unit.
    Save(UnitRow),
    /// Take a unit out of the store.
    Delete { name: String },
    /// Remove a directory with all that is in it.
    Purge { dir: String },
    /// Nothing more.
    Finish,
}

/// What a value of [`UnitAction`] is.
#[verifier::ext_equal]
pub enum UnitActionModel {
    Download { url: Seq<char> },
    Load { name: Seq<char> },
    Stop { pid: u32, pause_sec: u64 },
    Unpack { plan: UnpackModel, bytes: Seq<u8> },
    Start { binary: Seq<char>, socket: Seq<char> },
    Probe { name: Seq<char>, timeout_sec: u64 },
    Save(UnitRowModel),
    Delete { name: Seq<char> },
    Purge { dir: Seq<char> },
    Finish,
}

impl View for UnitAction {
    type V = UnitActionModel;

    open spec fn view(&self) -> UnitActionModel {
        match self {
            UnitAction::Download { url } => UnitActionModel::Download { url: url@ },
            UnitAction::Load { name } => UnitActionModel::Load { name: name@ },
            UnitAction::Stop { pid, pause_sec } => UnitActionModel::Stop {
                pid: *pid,
                pause_sec: *pause_sec,
            },
            UnitAction::Unpack { plan, bytes } => UnitActionModel::Unpack {
                plan: plan@,
                bytes: bytes@,
            },
            UnitAction::Start { binary, socket } => UnitActionModel::Start {
                binary: binary@,
                socket: socket@,
            },
            UnitAction::Probe { name, timeout_sec } => UnitActionModel::Probe {
                name: name@,
                timeout_sec: *timeout_sec,
            },
            UnitAction::Save(row) => UnitActionModel::Save(row@),
            UnitAction::Delete { name } => UnitActionModel::Delete { name: name@ },
            UnitAction::Purge { dir } => UnitActionModel::Purge { dir: dir@ },
            UnitAction::Finish => UnitActionModel::Finish,
        }
    }
}

/// What came of the latest action.
#[derive(Debug)]
pub enum UnitEvent {
    /// The URL was answered, with a status code and its text.
    Downloaded { code: u16, status: String, bytes: Vec<u8> },
    /// The unit was looked up.
    Loaded(Option<UnitRow>),
    /// The process was asked to end.
    Stopped,
    /// The artifact was put in place; an unpacking program ended with this code.
    Unpacked { code: Option<i32> },
    /// The binary was started and has this process number; nothing was started
    /// where there is no binary.
    Started(Option<u32>),
    /// The sidecar came to be well, or did not.
    Probed(bool),
    /// The store was written.
    Stored,
    /// The directory is gone.
    Purged,
    /// The action failed.
    Failed(Error),
}

} // verus!
