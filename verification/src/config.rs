//! Application configuration consumed by the event loop.
//!
//! The values are constructed once (by the surrounding program, from a file
//! or from the defaults) and passed into the loop; the core never reads them
//! from a global.

use vstd::prelude::*;

verus! {

/// Smallest poll timeout, in milliseconds: a configured refresh interval
/// below this is floored so the event loop never busy-spins.
pub const TIMEOUT_FLOOR_MILLIS: u64 = 5;

/// Refresh interval used when no configuration file supplies one.
pub const DEFAULT_REFRESH_MILLIS: u64 = 5;

/// Log-buffer capacity used when no configuration file supplies one.
pub const DEFAULT_LOGS_MAX: usize = 1000;

/// How the application is being run: as a background daemon or as an
/// interactive command-line program with the dashboard attached.
#[derive(Debug, Clone, Copy, PartialEq, Eq, Structural)]
pub enum AppType {
    Daemon,
    CLI,
}

/// Settings of the terminal dashboard itself.
#[derive(Debug, Clone, Copy, PartialEq, Eq, Structural)]
pub struct TuiConfig {
    /// Redraw cadence in milliseconds; also the event-poll timeout.
    pub refresh_millis: u64,
    /// Capacity of the bounded log buffer.
    pub logs_max: usize,
}

/// Whole-application configuration, immutable for the loop's lifetime.
#[derive(Debug, Clone, Copy, PartialEq, Eq, Structural)]
pub struct AppConfig {
    pub app_type: AppType,
    pub tui: TuiConfig,
}

impl Default for AppConfig {
    /// The configuration used when none is found on disk.
    fn default() -> (r: Self)
        ensures
            r.app_type is CLI,
            r.tui.refresh_millis == DEFAULT_REFRESH_MILLIS,
            r.tui.logs_max == DEFAULT_LOGS_MAX,
    {
        AppConfig {
            app_type: AppType::CLI,
            tui: TuiConfig { refresh_millis: DEFAULT_REFRESH_MILLIS, logs_max: DEFAULT_LOGS_MAX },
        }
    }
}

impl TuiConfig {
    /// The per-cycle event-poll timeout: the configured refresh interval,
    /// floored at `TIMEOUT_FLOOR_MILLIS` to bound CPU spin.
    pub fn effective_timeout_millis(&self) -> (r: u64)
        ensures
            r == if self.refresh_millis < TIMEOUT_FLOOR_MILLIS {
                TIMEOUT_FLOOR_MILLIS
            } else {
                self.refresh_millis
            },
    {
        if self.refresh_millis < TIMEOUT_FLOOR_MILLIS {
            TIMEOUT_FLOOR_MILLIS
        } else {
            self.refresh_millis
        }
    }
}

} // verus!
