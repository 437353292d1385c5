//! The capture-exclusion toggle: what to ask of the platform for a window,
//! and what to answer.
//!
//! The platform call itself is the host's. This module says which call to
//! make, with which value, and turns the host's report into the reply.

use vstd::prelude::*;
use vstd::string::*;

verus! {

/// The display affinity of a window that screen captures may show.
pub const WDA_NONE: u32 = 0;

/// The display affinity of a window that screen captures leave out.
pub const WDA_EXCLUDEFROMCAPTURE: u32 = 0x11;

/// Where the program runs.
#[derive(Clone, Copy, Debug, PartialEq, Eq)]
pub enum Platform {
    /// Windows, which can exclude a window from capture.
    Windows,
    /// Any other platform, which cannot.
    Other,
}

/// What is asked for a window.
#[derive(Clone, Copy, Debug, PartialEq, Eq)]
pub enum Command {
    /// Exclude the window from capture.
    Enable,
    /// Let captures show the window again.
    Disable,
    /// Say whether the window is protected.
    Status,
}

/// What the host does to the window.
#[derive(Clone, Copy, Debug, PartialEq, Eq)]
pub enum PlatformCall {
    /// Resolve the window's native handle, nothing more.
    ResolveHandle,
    /// Resolve the handle and set the window's display affinity.
    SetAffinity { affinity: u32 },
}

/// What the host reports after a platform call.
#[derive(Debug, PartialEq, Eq)]
pub enum PlatformReport {
    /// The window's native handle could not be had; `reason` says why.
    HandleUnavailable { reason: String },
    /// The platform refused the call.
    Rejected,
    /// The call went through.
    Accepted,
}

/// The next move in answering a command.
#[derive(Debug, PartialEq, Eq)]
pub enum ToggleStep {
    /// The command is answered without a platform call.
    Answer { reply: Result<String, String> },
    /// The host makes the call and reports; `conclude_toggle` has the reply.
    Call { call: PlatformCall },
}

/// The text of a reply, on either side.
pub open spec fn reply_text(reply: Result<String, String>) -> Result<Seq<char>, Seq<char>> {
    match reply {
        Ok(message) => Ok(message@),
        Err(message) => Err(message@),
    }
}

/// The reply that a step carries, where it carries one.
pub open spec fn step_answer(step: ToggleStep) -> Option<Result<Seq<char>, Seq<char>>> {
    match step {
        ToggleStep::Answer { reply } => Some(reply_text(reply)),
        ToggleStep::Call { .. } => None,
    }
}

/// The platform call that a step asks for, where it asks for one.
pub open spec fn step_call(step: ToggleStep) -> Option<PlatformCall> {
    match step {
        ToggleStep::Answer { .. } => None,
        ToggleStep::Call { call } => Some(call),
    }
}

/// The failure on every platform but Windows.
pub open spec fn unsupported_text() -> Seq<char> {
    "Screenshot protection is only available on Windows"@
}

/// The failure where the window's handle could not be had.
pub open spec fn handle_unavailable_text(reason: Seq<char>) -> Seq<char> {
    "Failed to get window handle: "@ + reason
}

/// The failure where no window has the label.
pub open spec fn window_not_found_text(label: Seq<char>) -> Seq<char> {
    "Window with label '"@ + label + "' not found"@
}

/// The reply to a command whose platform call went through.
pub open spec fn accepted_text(command: Command) -> Seq<char> {
    match command {
        Command::Enable => "Screenshot protection enabled successfully"@,
        Command::Disable => "Screenshot protection disabled successfully"@,
        Command::Status => "Screenshot protection status: ACTIVE (WDA_EXCLUDEFROMCAPTURE)"@,
    }
}

/// The failure where the platform refused to change the affinity.
pub open spec fn rejected_text(command: Command) -> Seq<char> {
    match command {
        Command::Enable => "Failed to enable screenshot protection"@,
        Command::Disable => "Failed to disable screenshot protection"@,
        Command::Status => "Screenshot protection status: ACTIVE (WDA_EXCLUDEFROMCAPTURE)"@,
    }
}

/// The platform call that a command needs on Windows.
pub open spec fn spec_platform_call(command: Command) -> PlatformCall {
    match command {
        Command::Enable => PlatformCall::SetAffinity { affinity: WDA_EXCLUDEFROMCAPTURE },
        Command::Disable => PlatformCall::SetAffinity { affinity: WDA_NONE },
        Command::Status => PlatformCall::ResolveHandle,
    }
}

/// The reply that `command` gets without a platform call: none on Windows,
/// the same failure everywhere else.
pub open spec fn spec_answer(platform: Platform, command: Command) -> Option<
    Result<Seq<char>, Seq<char>>,
> {
    match platform {
        Platform::Windows => None,
        Platform::Other => Some(Err(unsupported_text())),
    }
}

/// The platform call that the host is sent to make for `command`.
pub open spec fn spec_call(platform: Platform, command: Command) -> Option<PlatformCall> {
    match platform {
        Platform::Windows => Some(spec_platform_call(command)),
        Platform::Other => None,
    }
}

/// As `spec_answer`, for a window named by its label: a missing window is
/// reported first.
pub open spec fn spec_answer_by_label(
    platform: Platform,
    command: Command,
    label: Seq<char>,
    found: bool,
) -> Option<Result<Seq<char>, Seq<char>>> {
    if found {
        spec_answer(platform, command)
    } else {
        Some(Err(window_not_found_text(label)))
    }
}

/// As `spec_call`, for a window named by its label.
pub open spec fn spec_call_by_label(platform: Platform, command: Command, found: bool) -> Option<
    PlatformCall,
> {
    if found {
        spec_call(platform, command)
    } else {
        None
    }
}

/// The reply to `command` once the host has reported. A status query
/// changes nothing, so it succeeds wherever the handle was had.
pub open spec fn spec_conclusion(command: Command, report: PlatformReport) -> Result<
    Seq<char>,
    Seq<char>,
> {
    match report {
        PlatformReport::HandleUnavailable { reason } => Err(handle_unavailable_text(reason@)),
        PlatformReport::Accepted => Ok(accepted_text(command)),
        PlatformReport::Rejected => if command is Status {
            Ok(accepted_text(command))
        } else {
            Err(rejected_text(command))
        },
    }
}

/// Can the platform exclude a window from capture?
pub fn is_supported(platform: Platform) -> (supported: bool)
    ensures
        supported == (platform is Windows),
{
    match platform {
        Platform::Windows => true,
        Platform::Other => false,
    }
}

/// The platform call that `command` needs on Windows.
pub fn platform_call(command: Command) -> (call: PlatformCall)
    ensures
        call == spec_platform_call(command),
{
    match command {
        Command::Enable => PlatformCall::SetAffinity { affinity: WDA_EXCLUDEFROMCAPTURE },
        Command::Disable => PlatformCall::SetAffinity { affinity: WDA_NONE },
        Command::Status => PlatformCall::ResolveHandle,
    }
}

/// Starts to answer `command` for a window that the host holds.
///
/// On Windows the host is sent to the platform. Anywhere else the command
/// fails at once, whatever it is.
pub fn begin_toggle(platform: Platform, command: Command) -> (step: ToggleStep)
    ensures
        step_answer(step) == spec_answer(platform, command),
        step_call(step) == spec_call(platform, command),
{
    if is_supported(platform) {
        ToggleStep::Call { call: platform_call(command) }
    } else {
        ToggleStep::Answer {
            reply: Err(String::from_str("Screenshot protection is only available on Windows")),
        }
    }
}

/// Starts to answer `command` for the window with the label `label`;
/// `found` says whether the host has such a window.
///
/// A missing window is reported before the platform is looked at.
pub fn begin_toggle_by_label(platform: Platform, command: Command, label: &str, found: bool) -> (step:
    ToggleStep)
    ensures
        step_answer(step) == spec_answer_by_label(platform, command, label@, found),
        step_call(step) == spec_call_by_label(platform, command, found),
{
    if found {
        begin_toggle(platform, command)
    } else {
        let message = String::from_str("Window with label '").concat(label).concat("' not found");
        ToggleStep::Answer { reply: Err(message) }
    }
}

/// The reply to `command` after the host made the platform call and
/// reported `report`.
pub fn conclude_toggle(command: Command, report: &PlatformReport) -> (reply: Result<String, String>)
    ensures
        reply_text(reply) == spec_conclusion(command, *report),
{
    match report {
        PlatformReport::HandleUnavailable { reason } => Err(
            String::from_str("Failed to get window handle: ").concat(reason.as_str()),
        ),
        PlatformReport::Accepted => Ok(accepted_message(command)),
        PlatformReport::Rejected => match command {
            Command::Enable => Err(String::from_str("Failed to enable screenshot protection")),
            Command::Disable => Err(String::from_str("Failed to disable screenshot protection")),
            Command::Status => Ok(accepted_message(command)),
        },
    }
}

/// The reply to a command whose platform call went through.
fn accepted_message(command: Command) -> (message: String)
    ensures
        message@ == accepted_text(command),
{
    match command {
        Command::Enable => String::from_str("Screenshot protection enabled successfully"),
        Command::Disable => String::from_str("Screenshot protection disabled successfully"),
        Command::Status => String::from_str(
            "Screenshot protection status: ACTIVE (WDA_EXCLUDEFROMCAPTURE)",
        ),
    }
}

/// On a platform that cannot exclude windows from capture, every command
/// for a window fails with the same message, and no platform call is asked
/// for.
pub proof fn law_unsupported_platform_always_fails(platform: Platform, command: Command)
    requires
        !(platform is Windows),
    ensures
        spec_answer(platform, command) == Some(Err::<Seq<char>, Seq<char>>(unsupported_text())),
        spec_call(platform, command) is None,
        forall|label: Seq<char>|
            #[trigger] spec_answer_by_label(platform, command, label, true) == Some(
                Err::<Seq<char>, Seq<char>>(unsupported_text()),
            ),
{
}

/// A command is either answered at once or handed to the platform, never
/// both and never neither.
pub proof fn law_answer_or_call(platform: Platform, command: Command, label: Seq<char>, found: bool)
    ensures
        spec_answer(platform, command) is Some <==> spec_call(platform, command) is None,
        spec_answer_by_label(platform, command, label, found) is Some <==> spec_call_by_label(
            platform,
            command,
            found,
        ) is None,
{
}

} // verus!
