//! Message-delivery endpoints: relay endpoints keyed by operator-assigned
//! tags, receipt-bound routes, and the failure taxonomy fed back as
//! liveness.
use crate::pool::exposure::SelectionReceipt;
use vstd::prelude::*;

verus! {

#[verifier::external_type_specification]
#[verifier::external_body]
pub struct ExIoError(std::io::Error);

/// Failure taxonomy that becomes the liveness signal.
#[derive(Debug, Clone, PartialEq, Eq)]
pub enum DeliveryError {
    /// Connection refused.
    ConnectionRefused,
    /// Operation timed out.
    Timeout,
    /// Protocol error, with its description.
    Protocol(String),
}

/// One selected route for a single delivery attempt, paired with the
/// receipt that must be presented back to record its outcome.
pub struct DeliveryRoute<D> {
    pub endpoint: D,
    pub receipt: SelectionReceipt,
}

/// A real relay endpoint reached over TCP. Its pool key is the
/// operator-assigned tag, never the address.
#[derive(Clone)]
pub struct RelayEndpoint {
    endpoint_id: [u8; 32],
    addr: String,
}

impl RelayEndpoint {
    pub closed spec fn spec_endpoint_id(&self) -> [u8; 32] {
        self.endpoint_id
    }

    pub closed spec fn spec_addr(&self) -> Seq<char> {
        self.addr@
    }

    pub fn new(endpoint_id: [u8; 32], addr: String) -> (e: Self)
        ensures
            e.spec_endpoint_id() == endpoint_id,
            e.spec_addr() == addr@,
    {
        RelayEndpoint { endpoint_id, addr }
    }

    pub fn addr(&self) -> (a: &str)
        ensures
            a@ == self.spec_addr(),
    {
        self.addr.as_str()
    }

    /// Stable pool key: the operator-assigned tag.
    pub fn endpoint_id(&self) -> (id: [u8; 32])
        ensures
            id == self.spec_endpoint_id(),
    {
        self.endpoint_id
    }
}

/// The kinds of I/O failure the delivery taxonomy tells apart.
#[derive(Debug, Clone, Copy, PartialEq, Eq, Structural)]
pub enum IoFailure {
    ConnectionRefused,
    TimedOut,
    Other,
}

/// The taxonomy kind of an I/O error: refused connection, timeout, or
/// anything else (`io::Error::kind`).
pub uninterp spec fn spec_io_failure(e: std::io::Error) -> IoFailure;

/// The kind of an I/O error (`io::Error::kind`), as far as the taxonomy
/// distinguishes it. Trusted: the answer is a function of the error.
#[verifier::external_body]
fn io_failure_kind(e: &std::io::Error) -> (k: IoFailure)
    ensures
        k == spec_io_failure(*e),
{
    match e.kind() {
        std::io::ErrorKind::ConnectionRefused => IoFailure::ConnectionRefused,
        std::io::ErrorKind::TimedOut => IoFailure::TimedOut,
        _ => IoFailure::Other,
    }
}

/// The error's description (`ToString::to_string`). Nothing is stated of
/// the text: for an OS error it comes from the platform's C library and
/// may differ between library versions and locales.
#[verifier::external_body]
fn io_error_text(e: &std::io::Error) -> (t: String)
{
    e.to_string()
}

/// Maps an I/O error from a TCP attempt to the delivery-error taxonomy: a
/// refused connection and a timeout are their own kinds; every other error
/// is a protocol error carrying the error's description (whose text is not
/// stated).
pub fn map_io_error(e: std::io::Error) -> (d: DeliveryError)
    ensures
        match spec_io_failure(e) {
            IoFailure::ConnectionRefused => d == DeliveryError::ConnectionRefused,
            IoFailure::TimedOut => d == DeliveryError::Timeout,
            IoFailure::Other => d is Protocol,
        },
{
    match io_failure_kind(&e) {
        IoFailure::ConnectionRefused => DeliveryError::ConnectionRefused,
        IoFailure::TimedOut => DeliveryError::Timeout,
        IoFailure::Other => DeliveryError::Protocol(io_error_text(&e)),
    }
}

} // verus!
