use vstd::prelude::*;

use crate::runtime::needs_data_folder;

verus! {

/// What came of the last piece of outside work done while starting the app
/// through its C entry point.
#[derive(Debug, Clone, Copy, PartialEq, Eq, Structural)]
pub enum StartEvent {
    /// The pointer to the configuration text is null.
    ConfigMissing,
    /// The pointer to the configuration text is set.
    ConfigGiven,
    /// The configuration text is not valid UTF-8.
    ConfigInvalid,
    /// The configuration text was read.
    ConfigRead,
    /// `init` failed.
    InitFailed,
    /// `init` succeeded.
    InitDone,
    /// The main thread could not be joined: it panicked.
    MainFailed,
    /// The main thread ran to its end.
    MainDone,
    /// A panic was caught while starting.
    Panicked,
}

/// What the C entry point does next.
#[derive(Debug, Clone, Copy, PartialEq, Eq, Structural)]
pub enum StartAction {
    /// Read the configuration text behind the pointer.
    ReadConfig,
    /// Call `init`.
    Init,
    /// Start the app's main thread and wait for it.
    RunMain,
    /// Return this status to the caller.
    Return(i32),
}

/// The C entry point's status codes and the order of its steps.
pub open spec fn spec_start_step(event: StartEvent) -> StartAction {
    match event {
        StartEvent::ConfigMissing => StartAction::Return(-1i32),
        StartEvent::ConfigGiven => StartAction::ReadConfig,
        StartEvent::ConfigInvalid => StartAction::Return(-3i32),
        StartEvent::ConfigRead => StartAction::Init,
        StartEvent::InitFailed => StartAction::Return(-3i32),
        StartEvent::InitDone => StartAction::RunMain,
        StartEvent::MainFailed => StartAction::Return(-4i32),
        StartEvent::MainDone => StartAction::Return(0i32),
        StartEvent::Panicked => StartAction::Return(-5i32),
    }
}

/// Decides the next step of starting the app from the C entry point, given
/// what the last step came to. The caller reports `ConfigMissing` or
/// `ConfigGiven` first, then the outcome of each action it is told to take.
/// Status 0 is returned only after the main thread ran to its end; every
/// failure returns a negative status: -1 for a missing configuration, -3
/// for one that cannot be read or an `init` that fails, -4 for a main
/// thread that panicked and -5 for a caught panic.
pub fn start_step(event: StartEvent) -> (action: StartAction)
    ensures
        action == spec_start_step(event),
        action matches StartAction::Return(code) ==> (code == 0 <==> event == StartEvent::MainDone),
        action matches StartAction::Return(code) ==> code <= 0,
{
    match event {
        StartEvent::ConfigMissing => StartAction::Return(-1),
        StartEvent::ConfigGiven => StartAction::ReadConfig,
        StartEvent::ConfigInvalid => StartAction::Return(-3),
        StartEvent::ConfigRead => StartAction::Init,
        StartEvent::InitFailed => StartAction::Return(-3),
        StartEvent::InitDone => StartAction::RunMain,
        StartEvent::MainFailed => StartAction::Return(-4),
        StartEvent::MainDone => StartAction::Return(0),
        StartEvent::Panicked => StartAction::Return(-5),
    }
}


/// What came of the last piece of work done on the app's main thread.
#[derive(Debug)]
pub enum MainEvent {
    /// The main thread has just started.
    Started,
    /// The runtime configuration was read; it names this data folder.
    ConfigProcessed(String),
    /// The data folder was created.
    FolderCreated,
    /// The data folder could not be created.
    FolderFailed,
    /// The app ran to its end.
    AppFinished,
}

/// What the main thread does next.
#[derive(Debug, Clone, Copy, PartialEq, Eq, Structural)]
pub enum MainAction {
    /// Read the runtime configuration.
    ProcessConfig,
    /// Create the data folder the configuration named.
    CreateFolder,
    /// Run the app on its data folder.
    RunApp,
    /// End the thread; `failed` says whether a step failed (and was logged).
    Stop { failed: bool },
}

/// The order of the main thread's steps.
pub open spec fn spec_main_step(event: MainEvent) -> MainAction {
    match event {
        MainEvent::Started => MainAction::ProcessConfig,
        MainEvent::ConfigProcessed(folder) => if folder@ != ":memory:"@ {
            MainAction::CreateFolder
        } else {
            MainAction::RunApp
        },
        MainEvent::FolderCreated => MainAction::RunApp,
        MainEvent::FolderFailed => MainAction::Stop { failed: true },
        MainEvent::AppFinished => MainAction::Stop { failed: false },
    }
}

/// Once the runtime configuration is read, the main thread creates the data
/// folder it names, whatever that folder is, unless it is the in-memory
/// store `:memory:`; for that one it runs the app at once.
pub proof fn lemma_folder_created_unless_memory(folder: String)
    ensures
        spec_main_step(MainEvent::ConfigProcessed(folder)) == MainAction::CreateFolder
            <==> folder@ != ":memory:"@,
        spec_main_step(MainEvent::ConfigProcessed(folder)) == MainAction::RunApp
            <==> folder@ == ":memory:"@,
{
}

/// Decides the main thread's next step, given what the last one came to. It
/// reads the runtime configuration first; it creates the data folder the
/// configuration names unless that is the in-memory store `:memory:`; it
/// runs the app once the folder is there; and it stops at the first step
/// that fails, or when the app has finished.
pub fn main_step(event: &MainEvent) -> (action: MainAction)
    ensures
        action == spec_main_step(*event),
        action == MainAction::CreateFolder ==> event is ConfigProcessed,
        event matches MainEvent::ConfigProcessed(folder) ==> (action == MainAction::CreateFolder
            <==> folder@ != ":memory:"@),
        event matches MainEvent::ConfigProcessed(folder) ==> (action == MainAction::RunApp
            <==> folder@ == ":memory:"@),
        action matches MainAction::Stop { failed } ==> (failed <==> event is FolderFailed),
{
    match event {
        MainEvent::Started => MainAction::ProcessConfig,
        MainEvent::ConfigProcessed(folder) => if needs_data_folder(folder.as_str()) {
            MainAction::CreateFolder
        } else {
            MainAction::RunApp
        },
        MainEvent::FolderCreated => MainAction::RunApp,
        MainEvent::FolderFailed => MainAction::Stop { failed: true },
        MainEvent::AppFinished => MainAction::Stop { failed: false },
    }
}

} // verus!
