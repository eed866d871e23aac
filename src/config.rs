//! Run configuration: the operation mode, the payload size, the metrics port
//! and the stopping conditions, resolved once at start.
use vstd::prelude::*;

verus! {

/// Port of the metrics endpoint when none is given.
pub const DEFAULT_METRICS_PORT: u16 = 9148;

/// Time budget in seconds when none is given: effectively unbounded.
pub const DEFAULT_RUN_FOR_SECS: u32 = 0xffff_ffff;

/// Pause between rounds in seconds when none is given.
pub const DEFAULT_SLEEP_FOR_SECS: u32 = 0;

/// What one round does against the data-availability client.
#[derive(Clone, Copy, Debug, PartialEq, Eq, Structural)]
pub enum Mode {
    /// Submit the payload and keep only the request ids.
    Disperse,
    /// Store the payload, retrieve it by its availability proofs and verify
    /// the bytes that come back.
    StoreAndRetrieve,
}

/// Why a set of arguments does not make a run configuration.
#[derive(Clone, Copy, Debug, PartialEq, Eq, Structural)]
pub enum ConfigError {
    /// Neither operation mode was chosen.
    MissingMode,
    /// The payload size is zero.
    ZeroBlockSize,
    /// The metrics port is zero, which names no port to serve on.
    InvalidPort,
}

impl ConfigError {
    /// Process exit status for a configuration error: the usage-error status.
    pub fn exit_code(&self) -> (r: i32)
        ensures
            r == 2,
    {
        2
    }
}

/// A resolved run configuration.
#[derive(Clone, Copy, Debug, PartialEq, Eq, Structural)]
pub struct RunConfiguration {
    pub mode: Mode,
    /// Length of the payload in bytes.
    pub block_size: usize,
    pub metrics_port: u16,
    /// Stop after the first round.
    pub stop_after_one: bool,
    /// Stop once the run has lasted longer than this many seconds.
    pub run_for_secs: u32,
    /// Pause after each round, in seconds; zero means no pause.
    pub sleep_for_secs: u32,
}

impl RunConfiguration {
    /// A configuration that a run can start from.
    pub open spec fn wf(&self) -> bool {
        &&& self.block_size > 0
        &&& self.metrics_port != 0
    }

    /// The error that resolving these arguments gives, if any, in the order in
    /// which they are checked.
    pub open spec fn resolve_error(
        mode: Option<Mode>,
        block_size: usize,
        metrics_port: Option<u16>,
    ) -> Option<ConfigError> {
        if mode is None {
            Some(ConfigError::MissingMode)
        } else if block_size == 0 {
            Some(ConfigError::ZeroBlockSize)
        } else if metrics_port == Some(0u16) {
            Some(ConfigError::InvalidPort)
        } else {
            None
        }
    }

    /// Resolves parsed command-line values into a configuration, filling in
    /// the defaults of the values that were not given.
    pub fn resolve(
        mode: Option<Mode>,
        block_size: usize,
        metrics_port: Option<u16>,
        stop: bool,
        run_for_secs: Option<u32>,
        sleep_for_secs: Option<u32>,
    ) -> (r: Result<RunConfiguration, ConfigError>)
        ensures
            match Self::resolve_error(mode, block_size, metrics_port) {
                Some(e) => r == Err::<RunConfiguration, ConfigError>(e),
                None => r is Ok,
            },
            r matches Ok(c) ==> {
                &&& c.wf()
                &&& Some(c.mode) == mode
                &&& c.block_size == block_size
                &&& c.metrics_port == match metrics_port {
                    Some(p) => p,
                    None => DEFAULT_METRICS_PORT,
                }
                &&& c.stop_after_one == stop
                &&& c.run_for_secs == match run_for_secs {
                    Some(s) => s,
                    None => DEFAULT_RUN_FOR_SECS,
                }
                &&& c.sleep_for_secs == match sleep_for_secs {
                    Some(s) => s,
                    None => DEFAULT_SLEEP_FOR_SECS,
                }
            },
    {
        let mode = match mode {
            Some(m) => m,
            None => return Err(ConfigError::MissingMode),
        };
        if block_size == 0 {
            return Err(ConfigError::ZeroBlockSize);
        }
        let metrics_port = match metrics_port {
            Some(p) => p,
            None => DEFAULT_METRICS_PORT,
        };
        if metrics_port == 0 {
            return Err(ConfigError::InvalidPort);
        }
        let run_for_secs = match run_for_secs {
            Some(s) => s,
            None => DEFAULT_RUN_FOR_SECS,
        };
        let sleep_for_secs = match sleep_for_secs {
            Some(s) => s,
            None => DEFAULT_SLEEP_FOR_SECS,
        };
        Ok(RunConfiguration {
            mode,
            block_size,
            metrics_port,
            stop_after_one: stop,
            run_for_secs,
            sleep_for_secs,
        })
    }

    /// The address the metrics endpoint binds: all IPv4 interfaces, on the
    /// configured port.
    pub fn metrics_bind_address(&self) -> (r: ([u8; 4], u16))
        ensures
            r.0@ == seq![0u8, 0u8, 0u8, 0u8],
            r.1 == self.metrics_port,
    {
        let ip: [u8; 4] = [0, 0, 0, 0];
        assert(ip@ =~= seq![0u8, 0u8, 0u8, 0u8]);
        (ip, self.metrics_port)
    }
}

} // verus!
