//! Negotiating the graphics context: what is asked of the adapter and the
//! device, and what happens when a stage of the negotiation fails.
//!
//! Nothing can be drawn without a device, so every failure here is final.

use vstd::prelude::*;

verus! {

/// Which kind of adapter to prefer.
#[derive(Clone, Copy, Debug, PartialEq, Eq, Structural)]
pub enum PowerPreference {
    NoPreference,
    LowPower,
    HighPerformance,
}

/// What the device's allocator should favour.
#[derive(Clone, Copy, Debug, PartialEq, Eq, Structural)]
pub enum MemoryHints {
    Performance,
    MemoryUsage,
}

/// What is asked of an adapter.
#[derive(Clone, Copy, Debug, PartialEq, Eq, Structural)]
pub struct AdapterRequest {
    pub power_preference: PowerPreference,
    /// Whether only a software fallback adapter will do.
    pub force_fallback_adapter: bool,
    /// Whether the adapter must be able to present to the window's surface.
    pub surface_compatible: bool,
}

/// What is asked of a device.
#[derive(Clone, Copy, Debug)]
pub struct DeviceRequest {
    pub label: &'static str,
    /// Whether any optional feature is required.
    pub optional_features: bool,
    /// Whether the default limits are asked for.
    pub default_limits: bool,
    pub memory_hints: MemoryHints,
}

/// The stages of the negotiation, in order.
#[derive(Clone, Copy, Debug, PartialEq, Eq, Structural)]
pub enum Stage {
    CreateSurface,
    RequestAdapter,
    RequestDevice,
    /// Device and queue are there.
    Ready,
}

/// Why the negotiation came to nothing.
#[derive(Clone, Copy, Debug, PartialEq, Eq, Structural)]
pub enum Failure {
    /// The window gave no surface.
    NoSurface,
    /// No adapter can present to the surface.
    NoAdapter,
    /// The adapter gave no device.
    NoDevice,
}

/// How the negotiation goes on after a stage.
#[derive(Clone, Copy, Debug, PartialEq, Eq, Structural)]
pub enum Progress {
    /// Go on with this stage.
    Continue(Stage),
    /// Give up for good and report the failure.
    Fatal(Failure),
}

/// How the negotiation goes on after `stage` has ended: on to the next stage
/// where it succeeded, to a fatal failure where it did not. A ready context
/// stays ready.
pub open spec fn progress(stage: Stage, succeeded: bool) -> Progress {
    match stage {
        Stage::CreateSurface => if succeeded {
            Progress::Continue(Stage::RequestAdapter)
        } else {
            Progress::Fatal(Failure::NoSurface)
        },
        Stage::RequestAdapter => if succeeded {
            Progress::Continue(Stage::RequestDevice)
        } else {
            Progress::Fatal(Failure::NoAdapter)
        },
        Stage::RequestDevice => if succeeded {
            Progress::Continue(Stage::Ready)
        } else {
            Progress::Fatal(Failure::NoDevice)
        },
        Stage::Ready => Progress::Continue(Stage::Ready),
    }
}

/// The adapter to ask for: one that presents to the window's surface,
/// the fastest there is, and no software fallback.
pub fn adapter_request() -> (request: AdapterRequest)
    ensures
        request == (AdapterRequest {
            power_preference: PowerPreference::HighPerformance,
            force_fallback_adapter: false,
            surface_compatible: true,
        }),
{
    AdapterRequest {
        power_preference: PowerPreference::HighPerformance,
        force_fallback_adapter: false,
        surface_compatible: true,
    }
}

/// The device to ask for: no optional features, default limits, memory
/// laid out for speed.
pub fn device_request() -> (request: DeviceRequest)
    ensures
        request.label@ == "device"@,
        !request.optional_features,
        request.default_limits,
        request.memory_hints == MemoryHints::Performance,
{
    DeviceRequest {
        label: "device",
        optional_features: false,
        default_limits: true,
        memory_hints: MemoryHints::Performance,
    }
}

/// Decides how the negotiation goes on once `stage` has ended, well or not.
///
/// A stage that succeeded is followed by the next one. A stage that failed
/// ends the negotiation for good: nothing is tried again. Once ready, the
/// negotiation stays ready.
pub fn advance(stage: Stage, succeeded: bool) -> (step: Progress)
    ensures
        step == progress(stage, succeeded),
        step is Fatal <==> stage != Stage::Ready && !succeeded,
{
    match stage {
        Stage::Ready => Progress::Continue(Stage::Ready),
        Stage::CreateSurface => if succeeded {
            Progress::Continue(Stage::RequestAdapter)
        } else {
            Progress::Fatal(Failure::NoSurface)
        },
        Stage::RequestAdapter => if succeeded {
            Progress::Continue(Stage::RequestDevice)
        } else {
            Progress::Fatal(Failure::NoAdapter)
        },
        Stage::RequestDevice => if succeeded {
            Progress::Continue(Stage::Ready)
        } else {
            Progress::Fatal(Failure::NoDevice)
        },
    }
}

/// The message that tells the operator why the program gives up.
pub fn diagnostic(failure: Failure) -> (message: &'static str)
    ensures
        message@ == (match failure {
            Failure::NoSurface => "create_surface failed."@,
            Failure::NoAdapter => "No suitable GPU adapters found on the system!"@,
            Failure::NoDevice => "Failed to create device and queue"@,
        }),
{
    match failure {
        Failure::NoSurface => "create_surface failed.",
        Failure::NoAdapter => "No suitable GPU adapters found on the system!",
        Failure::NoDevice => "Failed to create device and queue",
    }
}

/// A context gets ready only if every stage succeeds: the three stages lead
/// from creating the surface to a ready context exactly when the surface,
/// the adapter and the device could all be had.
pub proof fn lemma_ready_needs_every_stage(surface: bool, adapter: bool, device: bool)
    ensures
        surface && adapter && device <==> {
            &&& progress(Stage::CreateSurface, surface) == Progress::Continue(Stage::RequestAdapter)
            &&& progress(Stage::RequestAdapter, adapter) == Progress::Continue(
                Stage::RequestDevice,
            )
            &&& progress(Stage::RequestDevice, device) == Progress::Continue(Stage::Ready)
        },
{
}

} // verus!
