//! The settings that the program is started with.

use crate::backfill::BackfillMode;
use std::path::PathBuf;
use vstd::prelude::*;

verus! {

/// `std::path::PathBuf`, a path in the file system. Opaque to the verifier.
#[verifier::external_type_specification]
#[verifier::external_body]
pub struct ExPathBuf(std::path::PathBuf);

/// `std::path::Path::join`: the path `base` extended by the component
/// `leaf`, as the platform writes paths. Nothing is claimed of the result.
#[verifier::external_body]
fn join_path(base: &PathBuf, leaf: &str) -> (joined: PathBuf) {
    base.join(leaf)
}

/// The settings, fixed once at startup and handed to whoever needs them.
pub struct Config {
    /// The token that the bot signs in with.
    pub bot_token: String,
    /// The public name of the chat that is mirrored.
    pub chat_name: String,
    /// The application's identifier at the remote source.
    pub api_id: i32,
    /// The application's secret at the remote source.
    pub api_hash: String,
    /// The directory that holds the archive and the session.
    pub data_dir: PathBuf,
    /// Start without fetching the history.
    pub skip_populate: bool,
    /// Fetch the whole history again, whatever the archive holds.
    pub force_repopulate: bool,
}

impl Config {
    /// The directory, below the data directory, for the files of the
    /// client library.
    pub fn tdlib_dir(&self) -> PathBuf {
        join_path(&self.data_dir, "tdlib")
    }

    /// The file, below the data directory, that holds the archive.
    pub fn database_file(&self) -> PathBuf {
        join_path(&self.data_dir, "main.db")
    }

    /// How the history is to be fetched at startup.
    pub fn backfill_mode(&self) -> (mode: BackfillMode)
        ensures
            mode == if self.skip_populate {
                BackfillMode::Skip
            } else if self.force_repopulate {
                BackfillMode::Force
            } else {
                BackfillMode::Normal
            },
    {
        BackfillMode::from_flags(self.skip_populate, self.force_repopulate)
    }
}

} // verus!
