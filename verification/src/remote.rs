//! What is sent to the remote and what is shown while a transfer runs.

use vstd::prelude::*;
use vstd::string::*;
use crate::branch::{local_ref, local_ref_text, opt_text};
use crate::config::WorkflowConfig;
use crate::error::{Failure, FlowError, Stage};
use crate::lifecycle::{failure, possible};
use crate::text::{decimal, decimal_text, join2};

verus! {

/// The counters of a transfer as the engine reports them.
#[derive(Clone, Copy, Debug, PartialEq, Eq, Structural)]
pub struct TransferStats {
    pub total_objects: u64,
    pub indexed_objects: u64,
    pub received_objects: u64,
    pub local_objects: u64,
    pub total_deltas: u64,
    pub indexed_deltas: u64,
    pub received_bytes: u64,
}

/// The one remote that the workflow talks to.
pub open spec fn remote_name_text() -> Seq<char> {
    "origin"@
}

/// The name of the remote that the workflow talks to.
pub fn remote_name() -> (r: &'static str)
    ensures
        r@ == remote_name_text(),
{
    "origin"
}

/// The reference that a publish pushes: that of the named branch, or of the
/// stable branch where none is named.
pub open spec fn published_ref_text(config: WorkflowConfig, branch: Option<Seq<char>>) -> Seq<
    char,
> {
    match branch {
        Some(b) => local_ref_text(b),
        None => local_ref_text(config.stable@),
    }
}

/// The reference that a publish of `branch` pushes.
pub fn published_ref(config: &WorkflowConfig, branch: Option<&str>) -> (r: String)
    ensures
        r@ == published_ref_text(*config, opt_text(branch)),
{
    match branch {
        Some(b) => local_ref(b),
        None => local_ref(config.stable.as_str()),
    }
}

/// What announces a fetch from the remote `name`.
pub open spec fn fetch_notice_text(name: Seq<char>) -> Seq<char> {
    "Fetching "@ + name + " for repo"@
}

/// The line that announces a fetch from the remote `name`.
pub fn fetch_notice(name: &str) -> (r: String)
    ensures
        r@ == fetch_notice_text(name@),
{
    let mut out = join2("Fetching ", name);
    out.append(" for repo");
    out
}

/// What is shown while a transfer runs: once all objects are received, how
/// many deltas are resolved; before that, how many objects are received,
/// unless none are expected, when nothing is shown. The line ends in a
/// carriage return, so that the next one overwrites it.
pub open spec fn progress_text(s: TransferStats) -> Option<Seq<char>> {
    if s.received_objects == s.total_objects {
        Some(
            "Resolving deltas "@ + decimal_text(s.indexed_deltas as nat) + "/"@ + decimal_text(
                s.total_deltas as nat,
            ) + "\r"@,
        )
    } else if s.total_objects > 0 {
        Some(
            "Received "@ + decimal_text(s.received_objects as nat) + "/"@ + decimal_text(
                s.total_objects as nat,
            ) + " objects ("@ + decimal_text(s.indexed_objects as nat) + ") in "@ + decimal_text(
                s.received_bytes as nat,
            ) + " bytes\r"@,
        )
    } else {
        None
    }
}

/// What is shown once a transfer is over; objects that were found locally
/// are mentioned where there were any.
pub open spec fn summary_text(s: TransferStats) -> Seq<char> {
    let head = "\rReceived "@ + decimal_text(s.indexed_objects as nat) + "/"@ + decimal_text(
        s.total_objects as nat,
    ) + " objects in "@ + decimal_text(s.received_bytes as nat) + " bytes"@;
    if s.local_objects > 0 {
        head + " (used "@ + decimal_text(s.local_objects as nat) + " local objects)"@
    } else {
        head
    }
}

/// The characters of an optional string.
pub open spec fn line_text(v: Option<String>) -> Option<Seq<char>> {
    match v {
        Some(s) => Some(s@),
        None => None,
    }
}

/// The line shown for the counters of a running transfer, if any.
pub fn progress_line(stats: &TransferStats) -> (r: Option<String>)
    ensures
        line_text(r) == progress_text(*stats),
{
    if stats.received_objects == stats.total_objects {
        let mut out = join2("Resolving deltas ", decimal(stats.indexed_deltas).as_str());
        out.append("/");
        out.append(decimal(stats.total_deltas).as_str());
        out.append("\r");
        Some(out)
    } else if stats.total_objects > 0 {
        let mut out = join2("Received ", decimal(stats.received_objects).as_str());
        out.append("/");
        out.append(decimal(stats.total_objects).as_str());
        out.append(" objects (");
        out.append(decimal(stats.indexed_objects).as_str());
        out.append(") in ");
        out.append(decimal(stats.received_bytes).as_str());
        out.append(" bytes\r");
        Some(out)
    } else {
        None
    }
}

/// The line shown once a transfer is over.
pub fn fetch_summary(stats: &TransferStats) -> (r: String)
    ensures
        r@ == summary_text(*stats),
{
    let mut out = join2("\rReceived ", decimal(stats.indexed_objects).as_str());
    out.append("/");
    out.append(decimal(stats.total_objects).as_str());
    out.append(" objects in ");
    out.append(decimal(stats.received_bytes).as_str());
    out.append(" bytes");
    if stats.local_objects > 0 {
        out.append(" (used ");
        out.append(decimal(stats.local_objects).as_str());
        out.append(" local objects)");
    }
    out
}

/// The error of a fetch that failed. A remote that the repository does not
/// define, and that was only tried under its name, is not found; a failure
/// with a remote that it defines is what the engine's failure makes of a
/// transfer.
pub fn fetch_failure(defined: bool, e: &git2::Error) -> (r: FlowError)
    ensures
        !defined ==> r@ == Failure::RemoteNotFound,
        defined ==> possible(Stage::Transfer, r@),
{
    if defined {
        failure(Stage::Transfer, e)
    } else {
        FlowError::RemoteNotFound
    }
}

} // verus!
