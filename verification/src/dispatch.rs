//! The command dispatcher: the requests that the frontend may send.

use vstd::prelude::*;
use vstd::string::StringExecFns;
use crate::controller::{granted_run, lemma_granted_run, Operation, Step};
use crate::error::ShellError;
use crate::startup::{spec_settle_shortcut, ShortcutBinding};
use crate::store::{lists_records, saved, ConversationRecord, ConversationStore, Records};
use crate::window::WindowState;

verus! {

/// A report on the machine and the program that the process runs.
#[derive(Debug, PartialEq, Eq)]
pub struct PlatformInfo {
    pub platform: String,
    pub arch: String,
    pub version: String,
    pub is_tauri: bool,
}

/// The state that all requests share for the lifetime of the process.
pub struct AppState {
    pub conversations: ConversationStore,
}

impl AppState {
    /// The state at startup: no conversation has been saved.
    pub fn new() -> (state: AppState)
        ensures
            state.conversations@ == Records::empty(),
    {
        AppState { conversations: ConversationStore::new() }
    }
}

impl Default for AppState {
    fn default() -> (state: AppState)
        ensures
            state.conversations@ == Records::empty(),
    {
        AppState::new()
    }
}

/// The greeting for `name`.
pub open spec fn greeting(name: Seq<char>) -> Seq<char> {
    "Hello, "@ + name + "! Welcome to DAO Copilot powered by Tauri."@
}

/// Greets the frontend's user by name.
pub fn greet(name: &str) -> (text: String)
    ensures
        text@ == greeting(name@),
{
    String::from_str("Hello, ").concat(name).concat("! Welcome to DAO Copilot powered by Tauri.")
}

/// Puts the platform report together from the name of the operating system,
/// the processor architecture and the version of the program.
pub fn get_platform_info(platform: &str, arch: &str, version: &str) -> (info: PlatformInfo)
    ensures
        info.platform@ == platform@,
        info.arch@ == arch@,
        info.version@ == version@,
        info.is_tauri,
{
    PlatformInfo {
        platform: String::from_str(platform),
        arch: String::from_str(arch),
        version: String::from_str(version),
        is_tauri: true,
    }
}

/// Saves the content of a conversation under its identifier, in place of
/// what was saved under it before.
pub fn save_conversation(conversation_id: String, content: String, state: &mut AppState) -> (done:
    Result<(), String>)
    ensures
        done is Ok,
        final(state).conversations@ == saved(old(state).conversations@, conversation_id@, content@),
{
    state.conversations.save(conversation_id, content)
}

/// Loads all conversations that have been saved, each of them once.
pub fn load_conversations(state: &AppState) -> (conversations: Vec<ConversationRecord>)
    ensures
        lists_records(conversations@, state.conversations@),
        state.conversations@.dom().finite(),
        conversations@.len() == state.conversations@.len(),
{
    state.conversations.load_all()
}

/// The first step of a toggle that the frontend asks for.
pub open spec fn spec_toggle_window_visibility() -> Step {
    Operation::Toggle.spec_start()
}

/// Starts a toggle of the window's visibility. The host carries the steps
/// out, and the result of the last one is the answer to the frontend.
#[verifier::when_used_as_spec(spec_toggle_window_visibility)]
pub fn toggle_window_visibility() -> (step: Step)
    ensures
        step == spec_toggle_window_visibility(),
{
    Operation::Toggle.start()
}

/// A refused registration of the global shortcut is no fatal failure, and
/// it takes nothing from the frontend: with the shortcut absent, a toggle that
/// the frontend asks for still flips the window's visibility and succeeds.
pub proof fn lemma_toggle_works_without_shortcut(message: String, window: WindowState)
    ensures
        spec_settle_shortcut(Err(message)).binding == ShortcutBinding::Absent,
        spec_settle_shortcut(Err(message)).warning matches Some(failure)
            && failure.spec_exit_status() is None,
        granted_run(spec_toggle_window_visibility(), window).window.visible == !window.visible,
        granted_run(spec_toggle_window_visibility(), window).result == Ok::<(), ShellError>(()),
{
    lemma_granted_run(Operation::Toggle, window);
}

} // verus!
