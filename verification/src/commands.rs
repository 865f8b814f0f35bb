//! The responses of the persistence commands.
//!
//! Each command performs one filesystem action on a caller-supplied path
//! and answers with the action's payload or with a flat failure message.
//! The functions here take the action's outcome as a plain value — the
//! text that was read, the success or failure of a write, whether a stat
//! found the file — and produce the command's response, so that the step
//! from outcome to response is stated exactly.

use vstd::prelude::*;

use crate::messages::{
    load_failure_message, load_failure_text, save_export_failure_message,
    save_export_failure_text, save_project_failure_message, save_project_failure_text,
};

verus! {

/// The response of the project-file load command: the text that was read,
/// or the load-failure message naming the path and the cause.
pub fn load_project_response(path: &str, read: Result<String, String>) -> (r: Result<
    String,
    String,
>)
    ensures
        read matches Ok(text) ==> (r matches Ok(out) && out == text),
        read matches Err(cause) ==> (r matches Err(m) && m@ == load_failure_text(
            path@,
            cause@,
        )),
{
    match read {
        Ok(text) => Ok(text),
        Err(cause) => Err(load_failure_message(path, cause.as_str())),
    }
}

/// The response of the project-file save command: success where the write
/// succeeded, else the save-failure message naming the path and the cause.
pub fn save_project_response(path: &str, write: Result<(), String>) -> (r: Result<(), String>)
    ensures
        write is Ok ==> r is Ok,
        write matches Err(cause) ==> (r matches Err(m) && m@ == save_project_failure_text(
            path@,
            cause@,
        )),
{
    match write {
        Ok(_) => Ok(()),
        Err(cause) => Err(save_project_failure_message(path, cause.as_str())),
    }
}

/// The response of the export-file save command: success where the write
/// succeeded, else the export-failure message naming the path and the
/// cause.
pub fn save_export_response(path: &str, write: Result<(), String>) -> (r: Result<(), String>)
    ensures
        write is Ok ==> r is Ok,
        write matches Err(cause) ==> (r matches Err(m) && m@ == save_export_failure_text(
            path@,
            cause@,
        )),
{
    match write {
        Ok(_) => Ok(()),
        Err(cause) => Err(save_export_failure_message(path, cause.as_str())),
    }
}

/// The response of the existence-check command. The check never fails:
/// whatever the stat reported — found, missing, or any error collapsed to
/// "missing" — is answered as a plain boolean.
pub fn check_project_exists_response(found: bool) -> (r: Result<bool, String>)
    ensures
        r matches Ok(b) && b == found,
{
    Ok(found)
}

} // verus!
