//! The library resolver and symbol binder.
//!
//! Loading proceeds in two layers.  The resolver walks an ordered list of
//! candidate library names — most capable first — and the first candidate
//! that both loads and exposes every required entry point wins.  The
//! symbol binder turns the resolver's findings for one candidate (which
//! entry points the symbol-resolution primitive found) into a typed
//! [`XInputHandle`], or rejects the candidate outright when a required
//! entry point is missing; on that path the partially-acquired library
//! must be released, never leaked.
//!
//! The platform glue performs the two outside effects — loading a library
//! by name and resolving a symbol by name or ordinal — and feeds each
//! finding back here, so every decision of the protocol is made by a
//! verified function.

use vstd::prelude::*;

use crate::errors::XInputLoadingFailure;
use crate::handle::XInputHandle;

verus! {

/// The undocumented export ordinal of the extended get-state entry point,
/// which the vendor does not export by name.
pub const ORDINAL_GET_STATE_EX: u16 = 100;

/// The undocumented export ordinal of the extended get-capabilities entry
/// point, which the vendor does not export by name.
pub const ORDINAL_GET_CAPABILITIES_EX: u16 = 108;

/// Which entry points the symbol-resolution primitive found in one loaded
/// candidate library.
#[derive(Debug, Copy, Clone, PartialEq, Eq, Structural)]
pub struct SymbolReport {
    /// The required enable entry point resolved.
    pub enable: bool,
    /// The required get-state entry point resolved.
    pub get_state: bool,
    /// The required set-state entry point resolved.
    pub set_state: bool,
    /// The required get-capabilities entry point resolved.
    pub get_capabilities: bool,
    /// The optional extended get-state entry point resolved (by ordinal).
    pub get_state_ex: bool,
    /// The optional extended get-capabilities entry point resolved (by
    /// ordinal).
    pub get_capabilities_ex: bool,
    /// The optional get-keystroke entry point resolved.
    pub get_keystroke: bool,
    /// The optional get-battery-information entry point resolved.
    pub get_battery_information: bool,
    /// The optional get-audio-device-ids entry point resolved.
    pub get_audio_device_ids: bool,
    /// The optional get-dsound-audio-device-guids entry point resolved.
    pub get_dsound_audio_device_guids: bool,
}

/// What probing one candidate library name turned up.
#[derive(Debug, Copy, Clone, PartialEq, Eq, Structural)]
pub enum ProbeOutcome {
    /// The dynamic loader could not load the candidate.  An expected,
    /// recoverable outcome, not a fault.
    Missing,
    /// The candidate loaded; the report says which entry points resolved.
    Loaded(SymbolReport),
}

/// A report satisfies the binder when all four required entry points
/// resolved.
pub open spec fn has_required_symbols(report: SymbolReport) -> bool {
    report.enable && report.get_state && report.set_state && report.get_capabilities
}

/// The handle that binding a satisfactory report produces: the optional
/// capabilities are copied over, the required ones are implied.
pub open spec fn handle_of_report(report: SymbolReport) -> XInputHandle {
    XInputHandle {
        has_get_state_ex: report.get_state_ex,
        has_get_capabilities_ex: report.get_capabilities_ex,
        has_get_keystroke: report.get_keystroke,
        has_get_battery_information: report.get_battery_information,
        has_get_audio_device_ids: report.get_audio_device_ids,
        has_get_dsound_audio_device_guids: report.get_dsound_audio_device_guids,
    }
}

/// A probe of one candidate succeeds when the candidate loaded and its
/// report satisfies the binder.
pub open spec fn probe_usable(outcome: ProbeOutcome) -> bool {
    match outcome {
        ProbeOutcome::Missing => false,
        ProbeOutcome::Loaded(report) => has_required_symbols(report),
    }
}

/// The symbol binder: resolution of a required entry point that is missing
/// is a hard failure for the whole load, reported as `NoPointers`; a
/// missing optional entry point is simply recorded as absent.
pub fn bind_symbols(report: &SymbolReport) -> (r: Result<XInputHandle, XInputLoadingFailure>)
    ensures
        has_required_symbols(*report) ==> r == Ok::<XInputHandle, XInputLoadingFailure>(
            handle_of_report(*report),
        ),
        !has_required_symbols(*report) ==> r == Err::<XInputHandle, XInputLoadingFailure>(
            XInputLoadingFailure::NoPointers,
        ),
{
    if report.enable && report.get_state && report.set_state && report.get_capabilities {
        Ok(
            XInputHandle {
                has_get_state_ex: report.get_state_ex,
                has_get_capabilities_ex: report.get_capabilities_ex,
                has_get_keystroke: report.get_keystroke,
                has_get_battery_information: report.get_battery_information,
                has_get_audio_device_ids: report.get_audio_device_ids,
                has_get_dsound_audio_device_guids: report.get_dsound_audio_device_guids,
            },
        )
    } else {
        Err(XInputLoadingFailure::NoPointers)
    }
}

/// The outcome of loading one specific candidate name: a handle, `NoDLL`
/// when the candidate did not load, or `NoPointers` when it loaded but
/// lacked a required entry point.
pub fn bind_probe(outcome: &ProbeOutcome) -> (r: Result<XInputHandle, XInputLoadingFailure>)
    ensures
        r == (match *outcome {
            ProbeOutcome::Missing => Err::<XInputHandle, XInputLoadingFailure>(
                XInputLoadingFailure::NoDLL,
            ),
            ProbeOutcome::Loaded(report) => if has_required_symbols(report) {
                Ok::<XInputHandle, XInputLoadingFailure>(handle_of_report(report))
            } else {
                Err::<XInputHandle, XInputLoadingFailure>(XInputLoadingFailure::NoPointers)
            },
        }),
{
    match outcome {
        ProbeOutcome::Missing => Err(XInputLoadingFailure::NoDLL),
        ProbeOutcome::Loaded(report) => bind_symbols(report),
    }
}

/// What the platform glue must do after probing one candidate of the list.
#[derive(Debug, Copy, Clone, PartialEq, Eq, Structural)]
pub enum ProbeDecision {
    /// The candidate provided every required entry point: binding is done
    /// and the search stops.
    Bound(XInputHandle),
    /// The candidate did not load; nothing was acquired.  Go on to the
    /// next candidate.
    TryNext,
    /// The candidate loaded but lacked a required entry point: release the
    /// library — it must not leak — then go on to the next candidate.
    ReleaseAndTryNext,
}

/// Decides, from one probe's outcome, whether the search is over and
/// whether anything must be released.
pub fn decide_probe(outcome: &ProbeOutcome) -> (d: ProbeDecision)
    ensures
        d == (match *outcome {
            ProbeOutcome::Missing => ProbeDecision::TryNext,
            ProbeOutcome::Loaded(report) => if has_required_symbols(report) {
                ProbeDecision::Bound(handle_of_report(report))
            } else {
                ProbeDecision::ReleaseAndTryNext
            },
        }),
{
    match outcome {
        ProbeOutcome::Missing => ProbeDecision::TryNext,
        ProbeOutcome::Loaded(report) => {
            if report.enable && report.get_state && report.set_state && report.get_capabilities {
                ProbeDecision::Bound(
                    XInputHandle {
                        has_get_state_ex: report.get_state_ex,
                        has_get_capabilities_ex: report.get_capabilities_ex,
                        has_get_keystroke: report.get_keystroke,
                        has_get_battery_information: report.get_battery_information,
                        has_get_audio_device_ids: report.get_audio_device_ids,
                        has_get_dsound_audio_device_guids: report.get_dsound_audio_device_guids,
                    },
                )
            } else {
                ProbeDecision::ReleaseAndTryNext
            }
        },
    }
}

/// The resolver over a whole candidate list, given every probe's outcome:
/// the first usable candidate wins, and an exhausted list — including an
/// empty one — is `NoDLL`, even when some candidate loaded without the
/// required entry points.
pub fn resolve_candidates(outcomes: &Vec<ProbeOutcome>) -> (r: Result<
    (usize, XInputHandle),
    XInputLoadingFailure,
>)
    ensures
        match r {
            Ok((chosen, handle)) => {
                &&& chosen < outcomes@.len()
                &&& probe_usable(outcomes@[chosen as int])
                &&& (outcomes@[chosen as int] matches ProbeOutcome::Loaded(report) && handle
                    == handle_of_report(report))
                &&& forall|j: int| 0 <= j < chosen ==> !probe_usable(#[trigger] outcomes@[j])
            },
            Err(e) => {
                &&& e == XInputLoadingFailure::NoDLL
                &&& forall|j: int|
                    0 <= j < outcomes@.len() ==> !probe_usable(#[trigger] outcomes@[j])
            },
        },
{
    let mut i: usize = 0;
    while i < outcomes.len()
        invariant
            i <= outcomes@.len(),
            forall|j: int| 0 <= j < i ==> !probe_usable(#[trigger] outcomes@[j]),
        decreases outcomes@.len() - i,
    {
        match decide_probe(&outcomes[i]) {
            ProbeDecision::Bound(handle) => {
                return Ok((i, handle));
            },
            ProbeDecision::TryNext => {
            },
            ProbeDecision::ReleaseAndTryNext => {
            },
        }
        i = i + 1;
    }
    Err(XInputLoadingFailure::NoDLL)
}

/// The canonical candidate list, most capable first.  The names are tried
/// in exactly this order:
///
/// * `xinput1_4.dll`
/// * `xinput1_3.dll`
/// * `xinput1_2.dll`
/// * `xinput1_1.dll`
/// * `xinput9_1_0.dll`
pub fn candidate_names() -> (names: Vec<&'static str>)
    ensures
        names@.len() == 5,
        names@[0]@ == "xinput1_4.dll"@,
        names@[1]@ == "xinput1_3.dll"@,
        names@[2]@ == "xinput1_2.dll"@,
        names@[3]@ == "xinput1_1.dll"@,
        names@[4]@ == "xinput9_1_0.dll"@,
{
    let mut names: Vec<&'static str> = Vec::new();
    names.push("xinput1_4.dll");
    names.push("xinput1_3.dll");
    names.push("xinput1_2.dll");
    names.push("xinput1_1.dll");
    names.push("xinput9_1_0.dll");
    names
}

} // verus!
