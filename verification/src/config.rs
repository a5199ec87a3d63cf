//! Configuration: where log files live, and the timing constants of the
//! capture pipeline.

use vstd::prelude::*;
use vstd::string::StringExecFns;

verus! {

/// Idle timeout in milliseconds: after this much input inactivity, the next
/// text write gets a fresh timestamp prefix.
pub const IDLE_TIMEOUT_MS: u64 = 30000;

/// Dedup window in milliseconds: a repeated notification for the same
/// physical key within this window is suppressed.
pub const DEDUP_WINDOW_MS: u64 = 30;

/// Relies on dirs::data_local_dir: the platform's local application-data
/// directory, if the platform defines one. The result depends on the
/// environment, so nothing is promised of it.
#[verifier::external_body]
fn data_local_dir_string() -> (r: Option<String>) {
    dirs::data_local_dir().map(|p| p.to_string_lossy().into_owned())
}

/// Appends the application's log subdirectory to a base directory.
pub fn join_log_dir(base: &str) -> (r: String)
    ensures
        r@ == base@ + "/EchoKey/logs"@,
{
    let mut s = String::from_str(base);
    s.append("/EchoKey/logs");
    s
}

/// The directory all log files go under: the platform's local
/// application-data directory (or the current directory when the platform
/// does not define one), with an application-named subdirectory appended.
pub fn get_log_directory() -> (r: String)
    ensures
        r@.len() >= "/EchoKey/logs"@.len(),
        r@.subrange(r@.len() - "/EchoKey/logs"@.len(), r@.len() as int) == "/EchoKey/logs"@,
{
    let base = data_local_dir_string();
    let r = match base {
        Some(b) => join_log_dir(b.as_str()),
        None => join_log_dir("."),
    };
    proof {
        assert(r@.subrange(r@.len() - "/EchoKey/logs"@.len(), r@.len() as int)
            =~= "/EchoKey/logs"@);
    }
    r
}

} // verus!
