//! What holds of saves and loads taken together.
//!
//! The lemmas speak of the decisions ([`save_effect`], [`load_result`]), of
//! the state file as the caller keeps it ([`file_after_save`],
//! [`file_after_load`]) and of the time of the last successful write
//! ([`last_save_after`]).

use crate::format::{decoded, is_json_object, record_text};
use crate::manager::{is_throttled, load_result, save_effect, WindowStateManager, THROTTLE_NANOS};
use crate::state::WindowState;
use crate::store::{
    file_after_load, file_after_save, last_save_after, FileContent, LoadResult, SaveEffect,
};
use vstd::prelude::*;

verus! {

/// A size that is large enough, saved when no successful write is less than
/// a second old, is written; and a load that finds its record in the file
/// restores exactly that size and leaves the file alone. That the text found
/// holds the record is the premise on `found`; for the very text that the
/// save wrote, the contract of [`WindowStateManager::load`] states it.
pub proof fn lemma_saved_state_is_restored(
    last_save: Option<u128>,
    state: WindowState,
    now: u128,
    before: FileContent,
    found: Seq<char>,
)
    requires
        state.is_valid(),
        !is_throttled(last_save, now),
        decoded(found) == Some(state),
    ensures
        save_effect(last_save, state, now) == (SaveEffect::Write {
            text: record_text(state),
            at: now,
        }),
        file_after_save(before, save_effect(last_save, state, now)) == FileContent::Text(
            record_text(state),
        ),
        load_result(FileContent::Text(found)) == (LoadResult {
            state: Some(state),
            remove_file: false,
        }),
        file_after_load(FileContent::Text(found), load_result(FileContent::Text(found)))
            == FileContent::Text(found),
{
}

/// Of two saves less than a second apart, the first of which was written,
/// only the first is written: the second decides no write, whatever its
/// size, the file keeps the text of the first, and the time of the last
/// successful write stays that of the first.
pub proof fn lemma_second_save_within_a_second_is_dropped(
    last_save: Option<u128>,
    first: WindowState,
    first_time: u128,
    second: WindowState,
    second_time: u128,
    before: FileContent,
)
    requires
        first.is_valid(),
        !is_throttled(last_save, first_time),
        second_time < first_time + THROTTLE_NANOS,
    ensures
        ({
            let first_effect = save_effect(last_save, first, first_time);
            let between = last_save_after(last_save, first_effect, true);
            let second_effect = save_effect(between, second, second_time);
            &&& first_effect == SaveEffect::Write { text: record_text(first), at: first_time }
            &&& between == Some(first_time)
            &&& !(second_effect is Write)
            &&& forall|written: bool| last_save_after(between, second_effect, written) == between
            &&& file_after_save(file_after_save(before, first_effect), second_effect)
                == FileContent::Text(record_text(first))
        }),
{
}

/// A write that failed does not count: the time of the last successful write
/// stays as it was, and the next save of a size that is large enough, at the
/// same time or later, decides a write again.
pub proof fn lemma_failed_write_is_tried_again(
    last_save: Option<u128>,
    first: WindowState,
    first_time: u128,
    second: WindowState,
    second_time: u128,
)
    requires
        first.is_valid(),
        !is_throttled(last_save, first_time),
        second.is_valid(),
        first_time <= second_time,
    ensures
        last_save_after(last_save, save_effect(last_save, first, first_time), false) == last_save,
        save_effect(
            last_save_after(last_save, save_effect(last_save, first, first_time), false),
            second,
            second_time,
        ) == (SaveEffect::Write { text: record_text(second), at: second_time }),
{
}

/// A save of a window that is narrower or lower than the minimum never
/// touches the file, at whatever time it comes, and is not counted as a
/// write.
pub proof fn lemma_small_window_is_never_written(
    last_save: Option<u128>,
    state: WindowState,
    now: u128,
    before: FileContent,
    written: bool,
)
    requires
        !state.is_valid(),
    ensures
        save_effect(last_save, state, now) == SaveEffect::TooSmall,
        file_after_save(before, save_effect(last_save, state, now)) == before,
        last_save_after(last_save, save_effect(last_save, state, now), written) == last_save,
{
}

/// Managers of one directory name one state file.
pub proof fn lemma_same_directory_same_file(first: WindowStateManager, second: WindowStateManager)
    requires
        first.data_dir() == second.data_dir(),
    ensures
        first.state_file() == second.state_file(),
{
}

/// Where no file is there, or the attempt to read it failed, a load restores
/// nothing and asks for nothing to be deleted.
pub proof fn lemma_absent_file_restores_nothing(file: FileContent)
    requires
        file is Missing || file is Unreadable,
    ensures
        load_result(file) == (LoadResult { state: None, remove_file: false }),
        file_after_load(file, load_result(file)) == file,
{
}

/// A file that holds no JSON object, because its bytes are no text or the
/// parser does not accept its text as one, restores nothing and is deleted.
pub proof fn lemma_invalid_json_is_deleted(file: FileContent)
    requires
        file is NotText || (file matches FileContent::Text(text) && !is_json_object(text)),
    ensures
        load_result(file) == (LoadResult { state: None, remove_file: true }),
        file_after_load(file, load_result(file)) == FileContent::Missing,
{
}

/// A record of a window that is too small restores nothing, and the file
/// stays as it is.
pub proof fn lemma_small_record_is_kept(text: Seq<char>, state: WindowState)
    requires
        decoded(text) == Some(state),
        !state.is_valid(),
    ensures
        load_result(FileContent::Text(text)) == (LoadResult { state: None, remove_file: false }),
        file_after_load(FileContent::Text(text), load_result(FileContent::Text(text)))
            == FileContent::Text(text),
{
}

} // verus!
