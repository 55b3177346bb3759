use vstd::prelude::*;
use vstd::string::StringExecFns;

verus! {

/// The status codes that the daemon's register call returns.
#[derive(Copy, Clone, Debug, PartialEq, Eq, Structural)]
pub enum DNSServiceErrorType {
    NoError,
    Unknown,
    NoSuchName,
    NoMemory,
    BadParam,
    BadReference,
    BadState,
    BadFlags,
    Unsupported,
    NotInitialized,
    AlreadyRegistered,
    NameConflict,
    Invalid,
    Firewall,
    Incompatible,
    BadInterfaceIndex,
    Refused,
    NoSuchRecord,
    NoAuth,
    NoSuchKey,
    NATTraversal,
    DoubleNAT,
    BadTime,
    BadSig,
    BadKey,
    Transient,
    ServiceNotRunning,
    NATPortMappingUnsupported,
    NATPortMappingDisabled,
    NoRouter,
    PollingMode,
    Timeout,
}

/// The numeric codes that name a status: zero, and the negative codes from
/// -65537 down to -65568, of which -65546 is unassigned.
pub open spec fn is_status_code(c: int) -> bool {
    c == 0 || (-65568 <= c <= -65537 && c != -65546)
}

impl DNSServiceErrorType {
    /// The numeric code of the status on the daemon boundary.
    pub open spec fn spec_code(self) -> int {
        match self {
            DNSServiceErrorType::NoError => 0,
            DNSServiceErrorType::Unknown => -65537,
            DNSServiceErrorType::NoSuchName => -65538,
            DNSServiceErrorType::NoMemory => -65539,
            DNSServiceErrorType::BadParam => -65540,
            DNSServiceErrorType::BadReference => -65541,
            DNSServiceErrorType::BadState => -65542,
            DNSServiceErrorType::BadFlags => -65543,
            DNSServiceErrorType::Unsupported => -65544,
            DNSServiceErrorType::NotInitialized => -65545,
            DNSServiceErrorType::AlreadyRegistered => -65547,
            DNSServiceErrorType::NameConflict => -65548,
            DNSServiceErrorType::Invalid => -65549,
            DNSServiceErrorType::Firewall => -65550,
            DNSServiceErrorType::Incompatible => -65551,
            DNSServiceErrorType::BadInterfaceIndex => -65552,
            DNSServiceErrorType::Refused => -65553,
            DNSServiceErrorType::NoSuchRecord => -65554,
            DNSServiceErrorType::NoAuth => -65555,
            DNSServiceErrorType::NoSuchKey => -65556,
            DNSServiceErrorType::NATTraversal => -65557,
            DNSServiceErrorType::DoubleNAT => -65558,
            DNSServiceErrorType::BadTime => -65559,
            DNSServiceErrorType::BadSig => -65560,
            DNSServiceErrorType::BadKey => -65561,
            DNSServiceErrorType::Transient => -65562,
            DNSServiceErrorType::ServiceNotRunning => -65563,
            DNSServiceErrorType::NATPortMappingUnsupported => -65564,
            DNSServiceErrorType::NATPortMappingDisabled => -65565,
            DNSServiceErrorType::NoRouter => -65566,
            DNSServiceErrorType::PollingMode => -65567,
            DNSServiceErrorType::Timeout => -65568,
        }
    }

    /// The numeric code of this status.
    pub fn code(&self) -> (r: i32)
        ensures
            r == self.spec_code(),
    {
        match self {
            DNSServiceErrorType::NoError => 0,
            DNSServiceErrorType::Unknown => -65537,
            DNSServiceErrorType::NoSuchName => -65538,
            DNSServiceErrorType::NoMemory => -65539,
            DNSServiceErrorType::BadParam => -65540,
            DNSServiceErrorType::BadReference => -65541,
            DNSServiceErrorType::BadState => -65542,
            DNSServiceErrorType::BadFlags => -65543,
            DNSServiceErrorType::Unsupported => -65544,
            DNSServiceErrorType::NotInitialized => -65545,
            DNSServiceErrorType::AlreadyRegistered => -65547,
            DNSServiceErrorType::NameConflict => -65548,
            DNSServiceErrorType::Invalid => -65549,
            DNSServiceErrorType::Firewall => -65550,
            DNSServiceErrorType::Incompatible => -65551,
            DNSServiceErrorType::BadInterfaceIndex => -65552,
            DNSServiceErrorType::Refused => -65553,
            DNSServiceErrorType::NoSuchRecord => -65554,
            DNSServiceErrorType::NoAuth => -65555,
            DNSServiceErrorType::NoSuchKey => -65556,
            DNSServiceErrorType::NATTraversal => -65557,
            DNSServiceErrorType::DoubleNAT => -65558,
            DNSServiceErrorType::BadTime => -65559,
            DNSServiceErrorType::BadSig => -65560,
            DNSServiceErrorType::BadKey => -65561,
            DNSServiceErrorType::Transient => -65562,
            DNSServiceErrorType::ServiceNotRunning => -65563,
            DNSServiceErrorType::NATPortMappingUnsupported => -65564,
            DNSServiceErrorType::NATPortMappingDisabled => -65565,
            DNSServiceErrorType::NoRouter => -65566,
            DNSServiceErrorType::PollingMode => -65567,
            DNSServiceErrorType::Timeout => -65568,
        }
    }

    /// The name of the status.
    pub open spec fn spec_name(self) -> Seq<char> {
        match self {
            DNSServiceErrorType::NoError => "NoError"@,
            DNSServiceErrorType::Unknown => "Unknown"@,
            DNSServiceErrorType::NoSuchName => "NoSuchName"@,
            DNSServiceErrorType::NoMemory => "NoMemory"@,
            DNSServiceErrorType::BadParam => "BadParam"@,
            DNSServiceErrorType::BadReference => "BadReference"@,
            DNSServiceErrorType::BadState => "BadState"@,
            DNSServiceErrorType::BadFlags => "BadFlags"@,
            DNSServiceErrorType::Unsupported => "Unsupported"@,
            DNSServiceErrorType::NotInitialized => "NotInitialized"@,
            DNSServiceErrorType::AlreadyRegistered => "AlreadyRegistered"@,
            DNSServiceErrorType::NameConflict => "NameConflict"@,
            DNSServiceErrorType::Invalid => "Invalid"@,
            DNSServiceErrorType::Firewall => "Firewall"@,
            DNSServiceErrorType::Incompatible => "Incompatible"@,
            DNSServiceErrorType::BadInterfaceIndex => "BadInterfaceIndex"@,
            DNSServiceErrorType::Refused => "Refused"@,
            DNSServiceErrorType::NoSuchRecord => "NoSuchRecord"@,
            DNSServiceErrorType::NoAuth => "NoAuth"@,
            DNSServiceErrorType::NoSuchKey => "NoSuchKey"@,
            DNSServiceErrorType::NATTraversal => "NATTraversal"@,
            DNSServiceErrorType::DoubleNAT => "DoubleNAT"@,
            DNSServiceErrorType::BadTime => "BadTime"@,
            DNSServiceErrorType::BadSig => "BadSig"@,
            DNSServiceErrorType::BadKey => "BadKey"@,
            DNSServiceErrorType::Transient => "Transient"@,
            DNSServiceErrorType::ServiceNotRunning => "ServiceNotRunning"@,
            DNSServiceErrorType::NATPortMappingUnsupported => "NATPortMappingUnsupported"@,
            DNSServiceErrorType::NATPortMappingDisabled => "NATPortMappingDisabled"@,
            DNSServiceErrorType::NoRouter => "NoRouter"@,
            DNSServiceErrorType::PollingMode => "PollingMode"@,
            DNSServiceErrorType::Timeout => "Timeout"@,
        }
    }

    /// The name of the status, as it is written in this type.
    pub fn name(&self) -> (r: &'static str)
        ensures
            r@ == self.spec_name(),
    {
        match self {
            DNSServiceErrorType::NoError => "NoError",
            DNSServiceErrorType::Unknown => "Unknown",
            DNSServiceErrorType::NoSuchName => "NoSuchName",
            DNSServiceErrorType::NoMemory => "NoMemory",
            DNSServiceErrorType::BadParam => "BadParam",
            DNSServiceErrorType::BadReference => "BadReference",
            DNSServiceErrorType::BadState => "BadState",
            DNSServiceErrorType::BadFlags => "BadFlags",
            DNSServiceErrorType::Unsupported => "Unsupported",
            DNSServiceErrorType::NotInitialized => "NotInitialized",
            DNSServiceErrorType::AlreadyRegistered => "AlreadyRegistered",
            DNSServiceErrorType::NameConflict => "NameConflict",
            DNSServiceErrorType::Invalid => "Invalid",
            DNSServiceErrorType::Firewall => "Firewall",
            DNSServiceErrorType::Incompatible => "Incompatible",
            DNSServiceErrorType::BadInterfaceIndex => "BadInterfaceIndex",
            DNSServiceErrorType::Refused => "Refused",
            DNSServiceErrorType::NoSuchRecord => "NoSuchRecord",
            DNSServiceErrorType::NoAuth => "NoAuth",
            DNSServiceErrorType::NoSuchKey => "NoSuchKey",
            DNSServiceErrorType::NATTraversal => "NATTraversal",
            DNSServiceErrorType::DoubleNAT => "DoubleNAT",
            DNSServiceErrorType::BadTime => "BadTime",
            DNSServiceErrorType::BadSig => "BadSig",
            DNSServiceErrorType::BadKey => "BadKey",
            DNSServiceErrorType::Transient => "Transient",
            DNSServiceErrorType::ServiceNotRunning => "ServiceNotRunning",
            DNSServiceErrorType::NATPortMappingUnsupported => "NATPortMappingUnsupported",
            DNSServiceErrorType::NATPortMappingDisabled => "NATPortMappingDisabled",
            DNSServiceErrorType::NoRouter => "NoRouter",
            DNSServiceErrorType::PollingMode => "PollingMode",
            DNSServiceErrorType::Timeout => "Timeout",
        }
    }

    /// The status whose code is `c`, or `None` where no status has that code.
    pub fn from_code(c: i32) -> (r: Option<DNSServiceErrorType>)
        ensures
            r is Some <==> is_status_code(c as int),
            r matches Some(t) ==> t.spec_code() == c as int,
    {
        match c {
            0 => Some(DNSServiceErrorType::NoError),
            -65537 => Some(DNSServiceErrorType::Unknown),
            -65538 => Some(DNSServiceErrorType::NoSuchName),
            -65539 => Some(DNSServiceErrorType::NoMemory),
            -65540 => Some(DNSServiceErrorType::BadParam),
            -65541 => Some(DNSServiceErrorType::BadReference),
            -65542 => Some(DNSServiceErrorType::BadState),
            -65543 => Some(DNSServiceErrorType::BadFlags),
            -65544 => Some(DNSServiceErrorType::Unsupported),
            -65545 => Some(DNSServiceErrorType::NotInitialized),
            -65547 => Some(DNSServiceErrorType::AlreadyRegistered),
            -65548 => Some(DNSServiceErrorType::NameConflict),
            -65549 => Some(DNSServiceErrorType::Invalid),
            -65550 => Some(DNSServiceErrorType::Firewall),
            -65551 => Some(DNSServiceErrorType::Incompatible),
            -65552 => Some(DNSServiceErrorType::BadInterfaceIndex),
            -65553 => Some(DNSServiceErrorType::Refused),
            -65554 => Some(DNSServiceErrorType::NoSuchRecord),
            -65555 => Some(DNSServiceErrorType::NoAuth),
            -65556 => Some(DNSServiceErrorType::NoSuchKey),
            -65557 => Some(DNSServiceErrorType::NATTraversal),
            -65558 => Some(DNSServiceErrorType::DoubleNAT),
            -65559 => Some(DNSServiceErrorType::BadTime),
            -65560 => Some(DNSServiceErrorType::BadSig),
            -65561 => Some(DNSServiceErrorType::BadKey),
            -65562 => Some(DNSServiceErrorType::Transient),
            -65563 => Some(DNSServiceErrorType::ServiceNotRunning),
            -65564 => Some(DNSServiceErrorType::NATPortMappingUnsupported),
            -65565 => Some(DNSServiceErrorType::NATPortMappingDisabled),
            -65566 => Some(DNSServiceErrorType::NoRouter),
            -65567 => Some(DNSServiceErrorType::PollingMode),
            -65568 => Some(DNSServiceErrorType::Timeout),
            _ => None,
        }
    }
}

/// What went wrong in a registration.
#[derive(Copy, Clone, Debug, PartialEq, Eq, Structural)]
pub enum DNSErrorKind {
    /// The daemon refused the registration with this status (never `NoError`).
    Service(DNSServiceErrorType),
    /// A string argument holds a null byte, which the null-terminated
    /// boundary cannot carry; the daemon was not called.
    InvalidArgument,
    /// A TXT entry is longer than 255 bytes, or the whole record longer than
    /// 65535 bytes; the daemon was not called.
    InvalidTxtEntry,
}

impl DNSErrorKind {
    /// The name of the error: the status's name for an error of the daemon.
    pub open spec fn spec_name(self) -> Seq<char> {
        match self {
            DNSErrorKind::Service(t) => t.spec_name(),
            DNSErrorKind::InvalidArgument => "InvalidArgument"@,
            DNSErrorKind::InvalidTxtEntry => "InvalidTxtEntry"@,
        }
    }

    /// The name of the error.
    pub fn name(&self) -> (r: &'static str)
        ensures
            r@ == self.spec_name(),
    {
        match self {
            DNSErrorKind::Service(t) => t.name(),
            DNSErrorKind::InvalidArgument => "InvalidArgument",
            DNSErrorKind::InvalidTxtEntry => "InvalidTxtEntry",
        }
    }
}

/// The error of a failed registration.
#[derive(Copy, Clone, Debug, PartialEq, Eq, Structural)]
pub struct DNSError(pub DNSErrorKind);

impl DNSError {
    /// What went wrong.
    pub fn kind(&self) -> (r: DNSErrorKind)
        ensures
            r == self.0,
    {
        self.0
    }

    /// The message that reports the error: `DNS-SD Error: ` and its name.
    pub fn message(&self) -> (r: String)
        ensures
            r@ == "DNS-SD Error: "@ + self.0.spec_name(),
    {
        String::from_str("DNS-SD Error: ").concat(self.0.name())
    }

    /// A short description of errors of this type.
    pub fn description(&self) -> (r: &'static str)
        ensures
            r@ == "DNS-SD Error"@,
    {
        "DNS-SD Error"
    }
}

} // verus!
