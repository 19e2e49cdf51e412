//! The manager of the persisted window size: it decides when a size is
//! written to the state file and what a read of that file restores.

use crate::clock::nanos_since;
use crate::format::{decode, decoded, encode, record_text};
use crate::state::WindowState;
use crate::store::{FileContent, FileRead, LoadResult, SaveAction, SaveEffect};
use std::path::PathBuf;
use std::time::Instant;
use vstd::prelude::*;

verus! {

/// Name of the state file inside the application's data directory.
pub const STATE_FILE_NAME: &'static str = "window-state.json";

/// The time, in nanoseconds, that has to pass after a write before the next.
pub const THROTTLE_NANOS: u128 = 1_000_000_000;

/// `std::path::PathBuf`: a path of the file system, carried as an opaque
/// value.
#[verifier::external_type_specification]
#[verifier::external_body]
pub struct ExPathBuf(PathBuf);

/// The path that `Path::join` makes of `dir` and `name`. How the two are
/// joined is the platform's matter; that the same directory and name give the
/// same path is all that the name says.
pub uninterp spec fn joined_path(dir: PathBuf, name: Seq<char>) -> PathBuf;

/// `Path::join` appends `name` to `dir` as a further component, or gives
/// `name` alone where that is an absolute path. The contract only names the
/// result: it is a function of the directory and the name.
#[verifier::external_body]
fn child_path(dir: &PathBuf, name: &str) -> (path: PathBuf)
    ensures
        path == joined_path(*dir, name@),
{
    dir.join(name)
}

/// A save at `now` comes too soon after the last successful write. Time is
/// counted in nanoseconds on a clock that does not run backwards; a reading
/// that lies before the last write counts as no time passed.
pub open spec fn is_throttled(last_save: Option<u128>, now: u128) -> bool {
    match last_save {
        Some(last) => now < last + THROTTLE_NANOS,
        None => false,
    }
}

/// What a save of `state` at `now` decides.
pub open spec fn save_effect(last_save: Option<u128>, state: WindowState, now: u128) -> SaveEffect {
    if !state.is_valid() {
        SaveEffect::TooSmall
    } else if is_throttled(last_save, now) {
        SaveEffect::Throttled
    } else {
        SaveEffect::Write { text: record_text(state), at: now }
    }
}

/// What a load decides on what was found.
pub open spec fn load_result(file: FileContent) -> LoadResult {
    match file {
        FileContent::Missing => LoadResult { state: None, remove_file: false },
        FileContent::Unreadable => LoadResult { state: None, remove_file: false },
        FileContent::NotText => LoadResult { state: None, remove_file: true },
        FileContent::Text(text) => match decoded(text) {
            None => LoadResult { state: None, remove_file: true },
            Some(state) => if state.is_valid() {
                LoadResult { state: Some(state), remove_file: false }
            } else {
                LoadResult { state: None, remove_file: false }
            },
        },
    }
}

/// Owner of the place of the state file and of the time of the last
/// successful write.
#[derive(Debug)]
pub struct WindowStateManager {
    app_data_dir: PathBuf,
    origin: Instant,
    last_save: Option<u128>,
}

impl WindowStateManager {
    /// The directory that holds the state file.
    pub closed spec fn data_dir(&self) -> PathBuf {
        self.app_data_dir
    }

    /// The instant from which the manager counts its time.
    pub closed spec fn origin(&self) -> Instant {
        self.origin
    }

    /// The time of the last successful write, in nanoseconds since
    /// [`Self::origin`], or `None` where nothing has been written yet.
    pub closed spec fn last_save(&self) -> Option<u128> {
        self.last_save
    }

    /// The path of the state file: [`STATE_FILE_NAME`] joined to the data
    /// directory.
    pub open spec fn state_file(&self) -> PathBuf {
        joined_path(self.data_dir(), STATE_FILE_NAME@)
    }

    /// Makes the manager of the state file in `app_data_dir`, with nothing
    /// written yet. Its time starts at the moment of the call. The directory
    /// has to exist by the time a decision to write is carried out.
    pub fn new(app_data_dir: PathBuf) -> (manager: Self)
        ensures
            manager.data_dir() == app_data_dir,
            manager.last_save() is None,
    {
        WindowStateManager { app_data_dir, origin: Instant::now(), last_save: None }
    }

    /// The directory that holds the state file.
    pub fn app_data_dir(&self) -> (dir: &PathBuf)
        ensures
            *dir == self.data_dir(),
    {
        &self.app_data_dir
    }

    /// The path of the state file: [`STATE_FILE_NAME`] inside the data
    /// directory, joined as the platform joins paths. Managers of one
    /// directory name one file.
    pub fn config_path(&self) -> (path: PathBuf)
        ensures
            path == self.state_file(),
    {
        child_path(&self.app_data_dir, STATE_FILE_NAME)
    }

    /// The time of the last successful write, in nanoseconds since the
    /// manager was made.
    pub fn last_save_nanos(&self) -> (last: Option<u128>)
        ensures
            last == self.last_save(),
    {
        self.last_save
    }

    /// Decides a save of `state` at the time `now`, in nanoseconds since the
    /// manager was made. A write is decided where the window is large enough
    /// and the last successful write is a second old or older. The decision
    /// changes nothing: the time of a write is recorded by
    /// [`Self::record_write`], once the write has succeeded.
    pub fn save_at(&self, state: &WindowState, now: u128) -> (action: SaveAction)
        ensures
            action@ == save_effect(self.last_save(), *state, now),
    {
        if !state.has_valid_dimensions() {
            return SaveAction::TooSmall;
        }
        let throttled = match self.last_save {
            Some(last) => now < last || now - last < THROTTLE_NANOS,
            None => false,
        };
        if throttled {
            return SaveAction::Throttled;
        }
        SaveAction::Write { text: encode(state), at: now }
    }

    /// Decides a save of `state` now: [`Self::save_at`] at the time that the
    /// clock reads. A window that is too small is turned away without a look
    /// at the clock.
    pub fn save(&self, state: &WindowState) -> (action: SaveAction)
        ensures
            exists|now: u128| action@ == #[trigger] save_effect(self.last_save(), *state, now),
            !state.is_valid() ==> action@ == SaveEffect::TooSmall,
            state.is_valid() && self.last_save() is None ==> action@ is Write && action@->text
                == record_text(*state),
    {
        if !state.has_valid_dimensions() {
            assert(save_effect(self.last_save(), *state, 0) == SaveEffect::TooSmall);
            return SaveAction::TooSmall;
        }
        let now = nanos_since(self.origin);
        self.save_at(state, now)
    }

    /// Records that the state file was written at the time `at`, the time of
    /// the decision that asked for the write. To be called once the write
    /// has succeeded, and not after one that failed: the next save is then
    /// tried again at once.
    pub fn record_write(&mut self, at: u128)
        ensures
            final(self).last_save() == Some(at),
            final(self).data_dir() == old(self).data_dir(),
            final(self).origin() == old(self).origin(),
    {
        self.last_save = Some(at);
    }

    /// Decides what a read of the state file restores. A file that holds no
    /// record, because its bytes are no text or its text is no record, is to
    /// be deleted; a record of a window that is too small is passed over and
    /// kept, and so is a file that could not be read. The text that a save
    /// wrote for a size that is large enough restores that size.
    pub fn load(&self, file: &FileRead) -> (result: LoadResult)
        ensures
            result == load_result(file@),
            forall|state: WindowState|
                file@ == FileContent::Text(#[trigger] record_text(state)) && state.is_valid()
                    ==> result == (LoadResult { state: Some(state), remove_file: false }),
    {
        match file {
            FileRead::Missing => LoadResult { state: None, remove_file: false },
            FileRead::Unreadable => LoadResult { state: None, remove_file: false },
            FileRead::NotText => LoadResult { state: None, remove_file: true },
            FileRead::Text(text) => match decode(text.as_str()) {
                None => LoadResult { state: None, remove_file: true },
                Some(state) => {
                    if state.has_valid_dimensions() {
                        LoadResult { state: Some(state), remove_file: false }
                    } else {
                        LoadResult { state: None, remove_file: false }
                    }
                },
            },
        }
    }
}

} // verus!
