//! Updates: the answers of an update check, the errors, and the store that
//! holds a downloaded update until it is installed.
use vstd::prelude::*;
use crate::text::{append_str, copy_str};

verus! {

/// What goes wrong while updating.
#[derive(Debug, Clone)]
pub enum UpdaterError {
    /// The updater itself failed, with its message.
    Updater(String),
    NoUpdateAvailable,
    NoReadyUpdate,
    DownloadFailed(String),
    InstallFailed(String),
}

/// The message of an updater error.
pub open spec fn updater_error_text(e: UpdaterError) -> Seq<char> {
    match e {
        UpdaterError::Updater(m) => "Updater plugin error: "@ + m@,
        UpdaterError::NoUpdateAvailable => "No update available"@,
        UpdaterError::NoReadyUpdate => "No ready update to install"@,
        UpdaterError::DownloadFailed(m) => "Update download failed: "@ + m@,
        UpdaterError::InstallFailed(m) => "Update install failed: "@ + m@,
    }
}

impl UpdaterError {
    /// The message shown for the error.
    pub fn message(&self) -> (r: String)
        ensures
            r@ == updater_error_text(*self),
    {
        match self {
            UpdaterError::Updater(m) => {
                let mut r = copy_str("Updater plugin error: ");
                append_str(&mut r, m.as_str());
                r
            },
            UpdaterError::NoUpdateAvailable => copy_str("No update available"),
            UpdaterError::NoReadyUpdate => copy_str("No ready update to install"),
            UpdaterError::DownloadFailed(m) => {
                let mut r = copy_str("Update download failed: ");
                append_str(&mut r, m.as_str());
                r
            },
            UpdaterError::InstallFailed(m) => {
                let mut r = copy_str("Update install failed: ");
                append_str(&mut r, m.as_str());
                r
            },
        }
    }
}

/// An available update.
#[derive(Debug, Clone)]
pub struct UpdateInfo {
    pub version: String,
    pub current_version: String,
    pub notes: Option<String>,
    pub date: Option<String>,
}

/// The answer of an update check.
#[derive(Debug, Clone)]
pub struct UpdateCheckResult {
    pub available: bool,
    pub current_version: String,
    pub available_version: Option<String>,
}

/// The answer of an update check that found the given version, or none.
pub fn update_check_result(current_version: String, found: Option<String>) -> (r: UpdateCheckResult)
    ensures
        r.available == found is Some,
        r.current_version == current_version,
        r.available_version == found,
{
    UpdateCheckResult { available: found.is_some(), current_version, available_version: found }
}

/// A downloaded update waiting to be installed: the update handle `U`,
/// its version and its bytes.
#[derive(Debug)]
pub struct ReadyUpdateStore<U> {
    update: Option<U>,
    version: Option<String>,
    bytes: Option<Vec<u8>>,
    ready: bool,
}

impl<U> ReadyUpdateStore<U> {
    /// The update held, with its bytes, when both are held.
    pub closed spec fn held(&self) -> Option<(U, Seq<u8>)> {
        match (self.update, self.bytes) {
            (Some(u), Some(b)) => Some((u, b@)),
            _ => None,
        }
    }

    /// The ready flag.
    pub closed spec fn flag(&self) -> bool {
        self.ready
    }

    /// The version of the held update.
    pub closed spec fn held_version(&self) -> Option<Seq<char>> {
        match self.version {
            Some(v) => Some(v@),
            None => None,
        }
    }

    /// The store holding nothing.
    pub closed spec fn emptied() -> ReadyUpdateStore<U> {
        ReadyUpdateStore { update: None, version: None, bytes: None, ready: false }
    }

    /// The store holding a downloaded update, ready.
    pub closed spec fn stored(update: U, version: String, bytes: Vec<u8>) -> ReadyUpdateStore<U> {
        ReadyUpdateStore { update: Some(update), version: Some(version), bytes: Some(bytes), ready: true }
    }

    /// What taking the ready update hands out: the update with its bytes,
    /// when both are held.
    pub closed spec fn taken(s: ReadyUpdateStore<U>) -> Option<(U, Vec<u8>)> {
        match (s.update, s.bytes) {
            (Some(u), Some(b)) => Some((u, b)),
            _ => None,
        }
    }

    /// An empty store.
    pub fn new() -> (r: ReadyUpdateStore<U>)
        ensures
            r == Self::emptied(),
    {
        ReadyUpdateStore { update: None, version: None, bytes: None, ready: false }
    }

    /// Whether a downloaded update waits to be installed.
    pub fn is_update_ready(&self) -> (r: bool)
        ensures
            r == self.flag(),
    {
        self.ready
    }

    /// Keeps a downloaded update and marks it ready.
    pub fn store_ready_update(&mut self, update: U, version: String, bytes: Vec<u8>)
        ensures
            *final(self) == Self::stored(update, version, bytes),
    {
        self.update = Some(update);
        self.version = Some(version);
        self.bytes = Some(bytes);
        self.ready = true;
    }

    /// Hands out the ready update and empties the store; with the update or
    /// its bytes missing, empties the store and hands out nothing.
    pub fn take_ready_update(&mut self) -> (r: Option<(U, Vec<u8>)>)
        ensures
            r == Self::taken(*old(self)),
            *final(self) == Self::emptied(),
    {
        let update = self.update.take();
        let bytes = self.bytes.take();
        self.version = None;
        self.ready = false;
        match (update, bytes) {
            (Some(u), Some(b)) => Some((u, b)),
            _ => None,
        }
    }

    /// The version of the update waiting to be installed.
    pub fn ready_version(&self) -> (r: Option<String>)
        ensures
            match r {
                Some(v) => self.held_version() == Some(v@),
                None => self.held_version() is None,
            },
    {
        match &self.version {
            Some(v) => Some(copy_str(v.as_str())),
            None => None,
        }
    }

    /// A second download is refused while an update waits.
    pub fn check_download_allowed(&self) -> (r: Result<(), UpdaterError>)
        ensures
            match r {
                Ok(()) => !self.flag(),
                Err(e) => self.flag() && updater_error_text(e) == "Update download failed: "@
                    + "An update is already downloaded and ready"@,
            },
    {
        if self.ready {
            Err(UpdaterError::DownloadFailed(copy_str("An update is already downloaded and ready")))
        } else {
            Ok(())
        }
    }
}

/// What is stored is what is taken: a stored update is ready, taking it
/// gives back that update and those bytes, and leaves an empty store, which
/// is not ready and hands out nothing.
pub proof fn lemma_take_gives_stored<U>(update: U, version: String, bytes: Vec<u8>)
    ensures
        ReadyUpdateStore::<U>::stored(update, version, bytes).flag(),
        ReadyUpdateStore::<U>::stored(update, version, bytes).held_version() == Some(version@),
        ReadyUpdateStore::<U>::taken(ReadyUpdateStore::<U>::stored(update, version, bytes)) == Some(
            (update, bytes),
        ),
        !ReadyUpdateStore::<U>::emptied().flag(),
        ReadyUpdateStore::<U>::taken(ReadyUpdateStore::<U>::emptied()) is None,
{
}

} // verus!
