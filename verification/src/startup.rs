//! The order in which the parts of the shell are set up when the
//! application starts.

use vstd::prelude::*;
use crate::setup::{InitError, Progress};

verus! {

/// The operating systems that the shell tells apart.
#[derive(Clone, Copy, Debug, PartialEq, Eq, Structural)]
pub enum Platform {
    /// The system on which an application can leave the dock while it runs.
    MacOs,
    /// Every other system.
    Other,
}

/// A part of the start of the application.
#[derive(Clone, Copy, Debug, PartialEq, Eq, Structural)]
pub enum Phase {
    /// Construct the tray.
    Tray,
    /// Register the global shortcut.
    GlobalShortcut,
    /// Switch the application to the accessory mode, in which it has no
    /// place in the dock. The host cannot fail at this.
    ActivationPolicy,
}

/// The phases of the start on a platform, in order.
pub open spec fn startup_plan(platform: Platform) -> Seq<Phase> {
    if platform == Platform::MacOs {
        seq![Phase::Tray, Phase::GlobalShortcut, Phase::ActivationPolicy]
    } else {
        seq![Phase::Tray, Phase::GlobalShortcut]
    }
}

/// What follows a phase that succeeded.
pub open spec fn after_phase(phase: Phase, platform: Platform) -> Progress<Phase> {
    match phase {
        Phase::Tray => Progress::Request(Phase::GlobalShortcut),
        Phase::GlobalShortcut => if platform == Platform::MacOs {
            Progress::Request(Phase::ActivationPolicy)
        } else {
            Progress::Ready
        },
        Phase::ActivationPolicy => Progress::Ready,
    }
}

/// Where the start stands, given the phase that ended last and how, or
/// nothing if it has not begun.
pub open spec fn startup_progress(
    last: Option<(Phase, Result<(), InitError>)>,
    platform: Platform,
) -> Progress<Phase> {
    match last {
        None => Progress::Request(Phase::Tray),
        Some((_, Err(error))) => Progress::Failed(error),
        Some((phase, Ok(_))) => after_phase(phase, platform),
    }
}

/// Drives the start of the application. Called with nothing, it names the
/// first phase; called with the phase that ended last and how, it names the
/// next phase, reports that the application is ready, or fails with the
/// error of the phase. The first failure aborts the start.
pub fn startup(last: Option<(Phase, Result<(), InitError>)>, platform: Platform) -> (progress:
    Progress<Phase>)
    ensures
        progress == startup_progress(last, platform),
{
    match last {
        None => Progress::Request(Phase::Tray),
        Some((_, Err(error))) => Progress::Failed(error),
        Some((Phase::Tray, Ok(_))) => Progress::Request(Phase::GlobalShortcut),
        Some((Phase::GlobalShortcut, Ok(_))) => match platform {
            Platform::MacOs => Progress::Request(Phase::ActivationPolicy),
            Platform::Other => Progress::Ready,
        },
        Some((Phase::ActivationPolicy, Ok(_))) => Progress::Ready,
    }
}

/// The start walks its plan: it begins with the first phase of the plan,
/// each phase of the plan that succeeds is followed by the next one, and
/// the last one by readiness.
pub proof fn lemma_startup_follows_plan(platform: Platform, i: int)
    requires
        0 <= i < startup_plan(platform).len(),
    ensures
        startup_progress(None, platform) == Progress::Request(startup_plan(platform)[0]),
        i + 1 < startup_plan(platform).len() ==> after_phase(startup_plan(platform)[i], platform)
            == Progress::Request(startup_plan(platform)[i + 1]),
        i + 1 == startup_plan(platform).len() ==> after_phase(startup_plan(platform)[i], platform)
            == Progress::<Phase>::Ready,
{
}

/// The arguments with which the system launches the application at login.
pub open spec fn autostart_argument_texts() -> Seq<Seq<char>> {
    seq!["--minimized"@]
}

/// The arguments with which the system launches the application at login.
pub fn autostart_arguments() -> (arguments: Vec<&'static str>)
    ensures
        arguments@.map_values(|a: &'static str| a@) == autostart_argument_texts(),
{
    let arguments = vec!["--minimized"];
    assert(arguments@.map_values(|a: &'static str| a@) =~= autostart_argument_texts());
    arguments
}

} // verus!
