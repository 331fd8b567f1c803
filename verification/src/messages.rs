//! The human-readable outcomes handed to the host's UI layer.

use vstd::prelude::*;
use vstd::string::*;

verus! {

pub open spec fn already_running_text() -> Seq<char> {
    "Sidecar already running"@
}

pub open spec fn started_text(path: Seq<char>) -> Seq<char> {
    "Sidecar started successfully from: "@ + path
}

pub open spec fn spawn_failure_text(path: Seq<char>, cause: Seq<char>) -> Seq<char> {
    "Failed to start sidecar at '"@ + path + "': "@ + cause
        + ". Make sure Deno is installed and in PATH."@
}

pub open spec fn probe_failure_text(cause: Seq<char>) -> Seq<char> {
    "Failed to check sidecar status: "@ + cause
}

pub open spec fn kill_failure_text(cause: Seq<char>) -> Seq<char> {
    "Failed to kill sidecar: "@ + cause
}

pub open spec fn canonicalize_failure_text(cause: Seq<char>) -> Seq<char> {
    "Failed to canonicalize path: "@ + cause
}

pub open spec fn stopped_text() -> Seq<char> {
    "Sidecar stopped successfully"@
}

pub open spec fn nothing_to_stop_text() -> Seq<char> {
    "No sidecar process to stop"@
}

pub open spec fn running_text() -> Seq<char> {
    "Sidecar is running"@
}

pub open spec fn no_process_text() -> Seq<char> {
    "No sidecar process"@
}

pub open spec fn exited_text(status: Seq<char>) -> Seq<char> {
    "Sidecar exited with status: "@ + status
}

/// The view of a textual outcome: success text or error text.
pub open spec fn outcome_view(outcome: Result<String, String>) -> Result<Seq<char>, Seq<char>> {
    match outcome {
        Ok(text) => Ok(text@),
        Err(text) => Err(text@),
    }
}

pub fn already_running_message() -> (text: String)
    ensures
        text@ == already_running_text(),
{
    String::from_str("Sidecar already running")
}

pub fn started_message(path: &str) -> (text: String)
    ensures
        text@ == started_text(path@),
{
    String::from_str("Sidecar started successfully from: ").concat(path)
}

pub fn spawn_failure_message(path: &str, cause: &str) -> (text: String)
    ensures
        text@ == spawn_failure_text(path@, cause@),
{
    let mut text = String::from_str("Failed to start sidecar at '");
    text.append(path);
    text.append("': ");
    text.append(cause);
    text.append(". Make sure Deno is installed and in PATH.");
    text
}

pub fn probe_failure_message(cause: &str) -> (text: String)
    ensures
        text@ == probe_failure_text(cause@),
{
    String::from_str("Failed to check sidecar status: ").concat(cause)
}

pub fn kill_failure_message(cause: &str) -> (text: String)
    ensures
        text@ == kill_failure_text(cause@),
{
    String::from_str("Failed to kill sidecar: ").concat(cause)
}

pub fn canonicalize_failure_message(cause: &str) -> (text: String)
    ensures
        text@ == canonicalize_failure_text(cause@),
{
    String::from_str("Failed to canonicalize path: ").concat(cause)
}

pub fn stopped_message() -> (text: String)
    ensures
        text@ == stopped_text(),
{
    String::from_str("Sidecar stopped successfully")
}

pub fn nothing_to_stop_message() -> (text: String)
    ensures
        text@ == nothing_to_stop_text(),
{
    String::from_str("No sidecar process to stop")
}

pub fn running_message() -> (text: String)
    ensures
        text@ == running_text(),
{
    String::from_str("Sidecar is running")
}

pub fn no_process_message() -> (text: String)
    ensures
        text@ == no_process_text(),
{
    String::from_str("No sidecar process")
}

pub fn exited_message(status: &str) -> (text: String)
    ensures
        text@ == exited_text(status@),
{
    String::from_str("Sidecar exited with status: ").concat(status)
}

} // verus!
