//! The validated configuration of a client run.

use vstd::prelude::*;
use crate::backend::{spec_proto_of_name, parse_backend, Proto};
use crate::units::{spec_unit_of_char, UnitScale};

verus! {

/// The port used where none is given.
pub const DEFAULT_PORT: u16 = 5201;

/// The transfer unit size in bytes used where none is given.
pub const DEFAULT_BUFFER_SIZE: usize = 1024;

/// The number of one-second windows measured where none is given.
pub const DEFAULT_DURATION_SECONDS: usize = 10;

/// The scale character used where none is given.
pub const DEFAULT_SCALE: char = 'M';

/// The number of decimal places used where none is given.
pub const DEFAULT_PRECISION: usize = 2;

/// Why a set of command-line values is not a configuration. Every one of
/// these is found before any connection is attempted.
#[derive(Clone, Copy, Debug, PartialEq, Eq, Structural)]
pub enum ConfigError {
    /// The scale character is none of `K`, `M`, `G`, `k`, `m`, `g`.
    UnknownScale,
    /// The backend name is none of `TCP`, `Quiche`, `Quinn`.
    UnknownBackend,
    /// The backend is known but cannot carry a session yet.
    BackendUnavailable,
    /// The transfer unit size is zero.
    ZeroBufferSize,
    /// The number of windows is zero.
    ZeroDuration,
}

/// What the checks on the raw values come to: the unit and backend they
/// select, or the first fault found. The scale is looked at first, then
/// the backend name, then whether that backend is available, then the
/// buffer size, then the duration.
pub open spec fn spec_checked(
    buffer_size: usize,
    duration_seconds: usize,
    scale: char,
    backend: Option<Seq<char>>,
) -> Result<(UnitScale, Proto), ConfigError> {
    match spec_unit_of_char(scale) {
        None => Err(ConfigError::UnknownScale),
        Some(unit) => match spec_proto_of_name(backend) {
            None => Err(ConfigError::UnknownBackend),
            Some(proto) => if !proto.spec_is_available() {
                Err(ConfigError::BackendUnavailable)
            } else if buffer_size == 0 {
                Err(ConfigError::ZeroBufferSize)
            } else if duration_seconds == 0 {
                Err(ConfigError::ZeroDuration)
            } else {
                Ok((unit, proto))
            },
        },
    }
}

/// The settings of one client run. A value of this type has passed the
/// checks of `spec_checked` and cannot be changed afterwards. The server's
/// address is not among what is checked: it is kept as it was given, and
/// whether it names a host is for whoever connects to find out.
pub struct Configuration {
    server_address: String,
    port: u16,
    buffer_size: usize,
    duration_seconds: usize,
    unit: UnitScale,
    precision: usize,
    max_bytes_per_interval: Option<usize>,
    backend: Proto,
}

impl Configuration {
    #[verifier::type_invariant]
    spec fn valid(&self) -> bool {
        &&& self.buffer_size > 0
        &&& self.duration_seconds > 0
        &&& self.backend.spec_is_available()
    }

    /// The server's address, as it was given.
    pub closed spec fn spec_server_address(&self) -> Seq<char> {
        self.server_address@
    }

    /// The server's port.
    pub closed spec fn spec_port(&self) -> u16 {
        self.port
    }

    /// The transfer unit size in bytes.
    pub closed spec fn spec_buffer_size(&self) -> usize {
        self.buffer_size
    }

    /// The number of one-second windows to measure.
    pub closed spec fn spec_duration_seconds(&self) -> usize {
        self.duration_seconds
    }

    /// The unit of the report.
    pub closed spec fn spec_unit(&self) -> UnitScale {
        self.unit
    }

    /// The number of decimal places of the report.
    pub closed spec fn spec_precision(&self) -> usize {
        self.precision
    }

    /// The number of bytes after which a window is cut short, if any.
    pub closed spec fn spec_max_bytes_per_interval(&self) -> Option<usize> {
        self.max_bytes_per_interval
    }

    /// The transport backend.
    pub closed spec fn spec_backend(&self) -> Proto {
        self.backend
    }

    /// What every configuration satisfies.
    pub open spec fn spec_wf(&self) -> bool {
        &&& self.spec_buffer_size() > 0
        &&& self.spec_duration_seconds() > 0
        &&& self.spec_backend().spec_is_available()
    }

    /// Checks the raw values and builds the configuration. The result is
    /// an error exactly where `spec_checked` names one; otherwise it holds
    /// the values as given, with the unit and backend that were selected.
    /// The address is taken as it is, whatever it holds.
    pub fn new(
        server_address: String,
        port: u16,
        buffer_size: usize,
        duration_seconds: usize,
        scale: char,
        precision: usize,
        max_bytes_per_interval: Option<usize>,
        backend: Option<&str>,
    ) -> (r: Result<Configuration, ConfigError>)
        ensures
            match spec_checked(
                buffer_size,
                duration_seconds,
                scale,
                match backend {
                    Some(s) => Some(s@),
                    None => None,
                },
            ) {
                Err(e) => r == Err::<Configuration, ConfigError>(e),
                Ok((unit, proto)) => {
                    &&& r is Ok
                    &&& r->Ok_0.spec_wf()
                    &&& r->Ok_0.spec_server_address() == server_address@
                    &&& r->Ok_0.spec_port() == port
                    &&& r->Ok_0.spec_buffer_size() == buffer_size
                    &&& r->Ok_0.spec_duration_seconds() == duration_seconds
                    &&& r->Ok_0.spec_unit() == unit
                    &&& r->Ok_0.spec_precision() == precision
                    &&& r->Ok_0.spec_max_bytes_per_interval() == max_bytes_per_interval
                    &&& r->Ok_0.spec_backend() == proto
                },
            },
    {
        let unit = match UnitScale::from_char(scale) {
            Ok(u) => u,
            Err(_) => {
                return Err(ConfigError::UnknownScale);
            },
        };
        let proto = match parse_backend(backend) {
            Ok(p) => p,
            Err(_) => {
                return Err(ConfigError::UnknownBackend);
            },
        };
        if !proto.is_available() {
            return Err(ConfigError::BackendUnavailable);
        }
        if buffer_size == 0 {
            return Err(ConfigError::ZeroBufferSize);
        }
        if duration_seconds == 0 {
            return Err(ConfigError::ZeroDuration);
        }
        Ok(
            Configuration {
                server_address,
                port,
                buffer_size,
                duration_seconds,
                unit,
                precision,
                max_bytes_per_interval,
                backend: proto,
            },
        )
    }

    /// The server's address, as it was given.
    pub fn server_address(&self) -> (r: &str)
        ensures
            r@ == self.spec_server_address(),
    {
        self.server_address.as_str()
    }

    /// The server's port.
    pub fn port(&self) -> (r: u16)
        ensures
            r == self.spec_port(),
    {
        self.port
    }

    /// The transfer unit size in bytes. It is never zero.
    pub fn buffer_size(&self) -> (r: usize)
        ensures
            r == self.spec_buffer_size(),
            r > 0,
    {
        proof {
            use_type_invariant(self);
        }
        self.buffer_size
    }

    /// The number of one-second windows to measure. It is never zero.
    pub fn duration_seconds(&self) -> (r: usize)
        ensures
            r == self.spec_duration_seconds(),
            r > 0,
    {
        proof {
            use_type_invariant(self);
        }
        self.duration_seconds
    }

    /// The unit of the report.
    pub fn unit(&self) -> (r: UnitScale)
        ensures
            r == self.spec_unit(),
    {
        self.unit
    }

    /// The number of decimal places of the report.
    pub fn precision(&self) -> (r: usize)
        ensures
            r == self.spec_precision(),
    {
        self.precision
    }

    /// The number of bytes after which a window is cut short, if any.
    pub fn max_bytes_per_interval(&self) -> (r: Option<usize>)
        ensures
            r == self.spec_max_bytes_per_interval(),
    {
        self.max_bytes_per_interval
    }

    /// The transport backend. It is always an available one.
    pub fn backend(&self) -> (r: Proto)
        ensures
            r == self.spec_backend(),
            r.spec_is_available(),
    {
        proof {
            use_type_invariant(self);
        }
        self.backend
    }
}

} // verus!
