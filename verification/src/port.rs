//! Port negotiation: the first free port of a bounded range.

use vstd::prelude::*;
use crate::error::StartError;

verus! {

/// The port that the model service gets when nothing else holds it.
pub const PREFERRED_PORT: u16 = 11434;

/// The last port that the negotiation may hand out.
pub const LAST_PORT: u16 = 11440;

/// `port` lies in `start..=end`, is free, and every port of the range below it is taken.
pub open spec fn is_first_free(port: u16, start: u16, end: u16, occupied: Set<u16>) -> bool {
    &&& start <= port <= end
    &&& !occupied.contains(port)
    &&& forall|q: u16| start <= q < port ==> occupied.contains(q)
}

/// Every port of `start..=end` is taken. True of an empty range.
pub open spec fn all_taken(start: u16, end: u16, occupied: Set<u16>) -> bool {
    forall|q: u16| start <= q <= end ==> occupied.contains(q)
}

/// What a scan does after one bind probe.
#[derive(Clone, Copy, Debug, PartialEq, Eq)]
pub enum ScanStep {
    /// The probed port is free: the scan ends with it.
    Found(u16),
    /// The probed port is taken: probe this one next.
    Next(u16),
    /// The probed port is taken and it was the last of the range.
    Exhausted,
}

/// The step that follows the probe of `port` in a scan that ends at `end`.
pub open spec fn scan_step_of(port: u16, end: u16, in_use: bool) -> ScanStep {
    if !in_use {
        ScanStep::Found(port)
    } else if port < end {
        ScanStep::Next((port + 1) as u16)
    } else {
        ScanStep::Exhausted
    }
}

/// Decides how an ascending scan goes on once the probe of `port` has
/// answered. No port is tried twice and the scan never wraps around.
pub fn scan_step(port: u16, end: u16, in_use: bool) -> (step: ScanStep)
    ensures
        step == scan_step_of(port, end, in_use),
{
    if !in_use {
        ScanStep::Found(port)
    } else if port < end {
        ScanStep::Next(port + 1)
    } else {
        ScanStep::Exhausted
    }
}

/// Whether `port` is among `occupied`.
pub fn is_port_taken(occupied: &Vec<u16>, port: u16) -> (taken: bool)
    ensures
        taken == occupied@.to_set().contains(port),
{
    let mut i: usize = 0;
    while i < occupied.len()
        invariant
            i <= occupied.len(),
            forall|j: int| 0 <= j < i ==> occupied@[j] != port,
        decreases occupied.len() - i,
    {
        if occupied[i] == port {
            return true;
        }
        i += 1;
    }
    false
}

/// Scans `start..=end` upwards against a snapshot of the ports in use and
/// returns the first free one.
///
/// Fails with [`StartError::PortExhausted`] exactly when the range holds no free
/// port, which includes an empty range.
pub fn find_free_port(start: u16, end: u16, occupied: &Vec<u16>) -> (found: Result<u16, StartError>)
    ensures
        match found {
            Ok(port) => is_first_free(port, start, end, occupied@.to_set()),
            Err(e) => e == (StartError::PortExhausted { start, end }) && all_taken(
                start,
                end,
                occupied@.to_set(),
            ),
        },
{
    if start > end {
        return Err(StartError::PortExhausted { start, end });
    }
    let mut port: u16 = start;
    loop
        invariant
            start <= port <= end,
            forall|q: u16| start <= q < port ==> occupied@.to_set().contains(q),
        decreases end - port,
    {
        match scan_step(port, end, is_port_taken(occupied, port)) {
            ScanStep::Found(p) => {
                return Ok(p);
            },
            ScanStep::Next(next) => {
                port = next;
            },
            ScanStep::Exhausted => {
                return Err(StartError::PortExhausted { start, end });
            },
        }
    }
}

/// Negotiates the model service's port.
///
/// Where the service already answers on `preferred`, that port is kept so that the
/// caller attaches to the running instance. Otherwise the result is that of
/// [`find_free_port`] on `preferred..=range_end`.
pub fn acquire(preferred: u16, range_end: u16, already_serving: bool, occupied: &Vec<u16>) -> (found:
    Result<u16, StartError>)
    ensures
        already_serving ==> found == Ok::<u16, StartError>(preferred),
        !already_serving ==> match found {
            Ok(port) => is_first_free(port, preferred, range_end, occupied@.to_set()),
            Err(e) => e == (StartError::PortExhausted { start: preferred, end: range_end })
                && all_taken(preferred, range_end, occupied@.to_set()),
        },
{
    if already_serving {
        Ok(preferred)
    } else {
        find_free_port(preferred, range_end, occupied)
    }
}

/// A range has at most one first free port, and has one exactly when not all
/// of it is taken.
pub proof fn lemma_first_free_unique(a: u16, b: u16, start: u16, end: u16, occupied: Set<u16>)
    requires
        is_first_free(a, start, end, occupied),
    ensures
        !all_taken(start, end, occupied),
        is_first_free(b, start, end, occupied) ==> a == b,
{
}

} // verus!
