//! The rules of the background tasks that load a preset file into the
//! synthesizer's voices.
//!
//! A task first says what it needs (a file to be picked, a file to be loaded,
//! or the default voice); once the file was read, it decides what becomes of
//! the voices and of the remembered file path. Voices are of any type `V`.
use vstd::prelude::*;

verus! {

/// The background tasks of the synthesizer.
#[derive(Debug, Clone, Copy, PartialEq, Eq, Structural)]
pub enum BackgroundTasks {
    /// Ask the user for a preset file, then load it.
    OpenFileDialog,
    /// Load the preset file whose path is remembered.
    OpenFileNoDialog,
}

/// The first thing a task needs done.
#[derive(Debug)]
pub enum TaskStart {
    /// Show the file dialog.
    PickFile,
    /// Read and load the preset file at this path.
    Load(String),
    /// Replace the voices with the single default voice.
    InstallDefault,
}

/// Whether `path` names a file: it is there and not empty.
pub open spec fn names_file(path: Option<String>) -> bool {
    match path {
        Some(p) => p@.len() > 0,
        None => false,
    }
}

/// What `task` needs first, given the remembered path `stored_path`.
pub fn task_start(task: &BackgroundTasks, stored_path: &Option<String>) -> (start: TaskStart)
    ensures
        *task == BackgroundTasks::OpenFileDialog ==> start is PickFile,
        *task == BackgroundTasks::OpenFileNoDialog && names_file(*stored_path) ==> (start matches TaskStart::Load(p) && p@ == stored_path.unwrap()@),
        *task == BackgroundTasks::OpenFileNoDialog && !names_file(*stored_path) ==> start is InstallDefault,
        *task == BackgroundTasks::OpenFileNoDialog && stored_path.is_some() && stored_path.unwrap()@.len()
            > 0 ==> (start matches TaskStart::Load(p) && p@ == stored_path.unwrap()@),
        *task == BackgroundTasks::OpenFileNoDialog && (stored_path.is_none() || stored_path.unwrap()@.len()
            == 0) ==> start is InstallDefault,
{
    match task {
        BackgroundTasks::OpenFileDialog => TaskStart::PickFile,
        BackgroundTasks::OpenFileNoDialog => {
            match stored_path {
                Some(p) => {
                    if !p.as_str().is_empty() {
                        TaskStart::Load(p.clone())
                    } else {
                        TaskStart::InstallDefault
                    }
                },
                None => TaskStart::InstallDefault,
            }
        },
    }
}

/// Replaces the voices with the single voice `default_voice`.
pub fn install_default<V>(voices: &mut Vec<V>, default_voice: V)
    ensures
        final(voices)@ == seq![default_voice],
{
    let mut fresh: Vec<V> = Vec::new();
    fresh.push(default_voice);
    *voices = fresh;
}

/// Ends `task` once the file at `path` was read: `loaded` holds the voices made
/// from it, or `None` where it could not be loaded. A loaded file replaces the
/// voices, and the file dialog's task then remembers its path. A failed load
/// keeps the voices and the path, except that the file dialog's task falls back
/// to the default voice where no path was ever remembered.
pub fn finish_load<V>(
    task: &BackgroundTasks,
    voices: &mut Vec<V>,
    stored_path: &mut Option<String>,
    path: String,
    loaded: Option<Vec<V>>,
    default_voice: V,
)
    ensures
        loaded matches Some(vs) ==> final(voices)@ == vs@,
        loaded matches Some(vs) && *task == BackgroundTasks::OpenFileDialog ==> (*final(stored_path) matches Some(p) && p@ == path@),
        loaded matches Some(vs) && *task == BackgroundTasks::OpenFileNoDialog ==> *final(stored_path) == *old(stored_path),
        loaded is None ==> *final(stored_path) == *old(stored_path),
        loaded is None && *task == BackgroundTasks::OpenFileDialog && old(stored_path).is_none() ==> final(voices)@ == seq![default_voice],
        loaded is None && !(*task == BackgroundTasks::OpenFileDialog && old(stored_path).is_none()) ==> final(voices)@ == old(voices)@,
{
    match loaded {
        Some(vs) => {
            *voices = vs;
            if let BackgroundTasks::OpenFileDialog = task {
                *stored_path = Some(path);
            }
        },
        None => {
            let fall_back = match task {
                BackgroundTasks::OpenFileDialog => stored_path.is_none(),
                BackgroundTasks::OpenFileNoDialog => false,
            };
            if fall_back {
                install_default(voices, default_voice);
            }
        },
    }
}

} // verus!
