//! The notification sink's command construction and its log lines.
//!
//! Delivery itself is an IPC call into the consumer process and lives in the
//! surrounding binary; what is verified here is the exact command string that
//! call is handed — `--trigger <event> <payload>`, or `--trigger <event>`
//! when no payload is attached — and the exact operator-visible lines logged
//! for a delivered and for a failed notification. A failure is absorbed at
//! this boundary: it is logged, never raised.

use vstd::prelude::*;
use vstd::string::StringExecFns;

verus! {

/// The command for a named event that carries a payload.
pub open spec fn trigger_command_with(event: Seq<char>, payload: Seq<char>) -> Seq<char> {
    "--trigger "@ + event + " "@ + payload
}

/// The command for a named event without payload.
pub open spec fn trigger_command_bare(event: Seq<char>) -> Seq<char> {
    "--trigger "@ + event
}

/// Builds the single command string handed to the consumer's messaging
/// entry point, character for character.
pub fn format_trigger_command(event: &str, payload: Option<&str>) -> (r: String)
    ensures
        payload matches Some(p) ==> r@ == trigger_command_with(event@, p@),
        payload is None ==> r@ == trigger_command_bare(event@),
{
    let mut s = String::from_str("--trigger ");
    s.append(event);
    match payload {
        Some(p) => {
            s.append(" ");
            s.append(p);
            proof {
                assert(s@ =~= trigger_command_with(event@, p@));
            }
        },
        None => {
            proof {
                assert(s@ =~= trigger_command_bare(event@));
            }
        },
    }
    s
}

/// The line logged to standard output after a delivered notification.
pub open spec fn success_line_spec(command: Seq<char>) -> Seq<char> {
    "Successfully sent to SketchyBar: "@ + command
}

/// The line logged to standard error after a failed notification.
pub open spec fn failure_line_spec(error: Seq<char>) -> Seq<char> {
    "Failed to send to SketchyBar: "@ + error
}

/// The heartbeat line logged every cycle with the current payload.
pub open spec fn running_line_spec(payload: Seq<char>) -> Seq<char> {
    "Program is running. Current message: "@ + payload
}

/// The success log line for a delivered command.
pub fn success_log_line(command: &str) -> (r: String)
    ensures
        r@ == success_line_spec(command@),
{
    let mut s = String::from_str("Successfully sent to SketchyBar: ");
    s.append(command);
    s
}

/// The failure log line for a rejected or undeliverable command; `error` is
/// the consumer-reported reason.
pub fn failure_log_line(error: &str) -> (r: String)
    ensures
        r@ == failure_line_spec(error@),
{
    let mut s = String::from_str("Failed to send to SketchyBar: ");
    s.append(error);
    s
}

/// The per-cycle heartbeat line carrying the payload just sent.
pub fn running_log_line(payload: &str) -> (r: String)
    ensures
        r@ == running_line_spec(payload@),
{
    let mut s = String::from_str("Program is running. Current message: ");
    s.append(payload);
    s
}

} // verus!
