//! The settings of the hooks that log a request's progress.

use vstd::prelude::*;

verus! {

/// The severity under which a hook logs.
#[derive(Clone, Copy, Debug, PartialEq, Eq, Structural)]
pub enum Level {
    Error,
    Warn,
    Info,
    Debug,
    Trace,
}

/// The unit in which a hook reports a latency.
#[derive(Clone, Copy, Debug, PartialEq, Eq, Structural)]
pub enum LatencyUnit {
    Seconds,
    Millis,
    Micros,
    Nanos,
}

/// The hook for a chunk of a response body. It does nothing.
#[derive(Debug, Default, Clone, Copy)]
pub struct DefaultOnBodyChunk {
    _priv: (),
}

impl DefaultOnBodyChunk {
    /// The one value of the type: the hook has no setting.
    pub closed spec fn unit() -> Self {
        DefaultOnBodyChunk { _priv: () }
    }

    /// Create a new `DefaultOnBodyChunk`.
    pub fn new() -> (hook: Self)
        ensures
            hook == Self::unit(),
    {
        Self { _priv: () }
    }
}

/// The hook for a request that starts to be processed.
#[derive(Clone, Copy, Debug)]
pub struct DefaultOnRequest {
    level: Level,
}

impl Default for DefaultOnRequest {
    fn default() -> (hook: Self)
        ensures
            hook.level_spec() == Level::Info,
    {
        Self { level: Level::Info }
    }
}

impl DefaultOnRequest {
    /// The severity under which the hook logs.
    pub closed spec fn level_spec(&self) -> Level {
        self.level
    }

    /// Create a new `DefaultOnRequest`, which logs at `Level::Info`.
    pub fn new() -> (hook: Self)
        ensures
            hook.level_spec() == Level::Info,
    {
        Self { level: Level::Info }
    }

    /// Set the [`Level`] used for the hook's events.
    pub fn level(self, level: Level) -> (hook: Self)
        ensures
            hook.level_spec() == level,
    {
        Self { level }
    }

    /// The severity under which the hook logs.
    pub fn current_level(&self) -> (level: Level)
        ensures
            level == self.level_spec(),
    {
        self.level
    }
}

/// The hook for a response that failed.
#[derive(Clone, Copy, Debug)]
pub struct DefaultOnFailure {
    level: Level,
    latency_unit: LatencyUnit,
}

impl Default for DefaultOnFailure {
    fn default() -> (hook: Self)
        ensures
            hook.level_spec() == Level::Info,
            hook.latency_unit_spec() == LatencyUnit::Millis,
    {
        Self { level: Level::Info, latency_unit: LatencyUnit::Millis }
    }
}

impl DefaultOnFailure {
    /// The severity under which the hook logs.
    pub closed spec fn level_spec(&self) -> Level {
        self.level
    }

    /// The unit in which the hook reports latencies.
    pub closed spec fn latency_unit_spec(&self) -> LatencyUnit {
        self.latency_unit
    }

    /// Create a new `DefaultOnFailure`, which logs at `Level::Info` and
    /// reports latencies in milliseconds.
    pub fn new() -> (hook: Self)
        ensures
            hook.level_spec() == Level::Info,
            hook.latency_unit_spec() == LatencyUnit::Millis,
    {
        Self { level: Level::Info, latency_unit: LatencyUnit::Millis }
    }

    /// Set the [`Level`] used for the hook's events.
    pub fn level(self, level: Level) -> (hook: Self)
        ensures
            hook.level_spec() == level,
            hook.latency_unit_spec() == self.latency_unit_spec(),
    {
        Self { level, latency_unit: self.latency_unit }
    }

    /// Set the [`LatencyUnit`] latencies will be reported in.
    pub fn latency_unit(self, latency_unit: LatencyUnit) -> (hook: Self)
        ensures
            hook.level_spec() == self.level_spec(),
            hook.latency_unit_spec() == latency_unit,
    {
        Self { level: self.level, latency_unit }
    }

    /// The severity under which the hook logs.
    pub fn current_level(&self) -> (level: Level)
        ensures
            level == self.level_spec(),
    {
        self.level
    }

    /// The unit in which the hook reports latencies.
    pub fn current_latency_unit(&self) -> (unit: LatencyUnit)
        ensures
            unit == self.latency_unit_spec(),
    {
        self.latency_unit
    }
}

/// The hook for a response that is ready.
#[derive(Clone, Copy, Debug)]
pub struct DefaultOnResponse {
    level: Level,
    latency_unit: LatencyUnit,
    include_headers: bool,
}

impl Default for DefaultOnResponse {
    fn default() -> (hook: Self)
        ensures
            hook.level_spec() == Level::Info,
            hook.latency_unit_spec() == LatencyUnit::Millis,
            !hook.includes_headers(),
    {
        Self { level: Level::Info, latency_unit: LatencyUnit::Millis, include_headers: false }
    }
}

impl DefaultOnResponse {
    /// The severity under which the hook logs.
    pub closed spec fn level_spec(&self) -> Level {
        self.level
    }

    /// The unit in which the hook reports latencies.
    pub closed spec fn latency_unit_spec(&self) -> LatencyUnit {
        self.latency_unit
    }

    /// Whether the hook logs the response's headers.
    pub closed spec fn includes_headers(&self) -> bool {
        self.include_headers
    }

    /// Create a new `DefaultOnResponse`, which logs at `Level::Info`, reports
    /// latencies in milliseconds and leaves the headers out.
    pub fn new() -> (hook: Self)
        ensures
            hook.level_spec() == Level::Info,
            hook.latency_unit_spec() == LatencyUnit::Millis,
            !hook.includes_headers(),
    {
        Self { level: Level::Info, latency_unit: LatencyUnit::Millis, include_headers: false }
    }

    /// Set the [`Level`] used for the hook's events.
    pub fn level(self, level: Level) -> (hook: Self)
        ensures
            hook.level_spec() == level,
            hook.latency_unit_spec() == self.latency_unit_spec(),
            hook.includes_headers() == self.includes_headers(),
    {
        Self { level, latency_unit: self.latency_unit, include_headers: self.include_headers }
    }

    /// Set the [`LatencyUnit`] latencies will be reported in.
    pub fn latency_unit(self, latency_unit: LatencyUnit) -> (hook: Self)
        ensures
            hook.level_spec() == self.level_spec(),
            hook.latency_unit_spec() == latency_unit,
            hook.includes_headers() == self.includes_headers(),
    {
        Self { level: self.level, latency_unit, include_headers: self.include_headers }
    }

    /// Include response headers in the hook's events.
    pub fn include_headers(self, include_headers: bool) -> (hook: Self)
        ensures
            hook.level_spec() == self.level_spec(),
            hook.latency_unit_spec() == self.latency_unit_spec(),
            hook.includes_headers() == include_headers,
    {
        Self { level: self.level, latency_unit: self.latency_unit, include_headers }
    }

    /// The severity under which the hook logs.
    pub fn current_level(&self) -> (level: Level)
        ensures
            level == self.level_spec(),
    {
        self.level
    }

    /// The unit in which the hook reports latencies.
    pub fn current_latency_unit(&self) -> (unit: LatencyUnit)
        ensures
            unit == self.latency_unit_spec(),
    {
        self.latency_unit
    }

    /// Whether the hook logs the response's headers.
    pub fn headers_included(&self) -> (included: bool)
        ensures
            included == self.includes_headers(),
    {
        self.include_headers
    }
}

} // verus!
