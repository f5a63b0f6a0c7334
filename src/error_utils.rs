use vstd::prelude::*;

verus! {

#[verifier::external_type_specification]
#[verifier::external_body]
pub struct ExIoError(std::io::Error);

/// The classes of I/O failure that the multiplexer tells apart.
#[derive(Clone, Copy, Debug, PartialEq, Eq, Structural)]
pub enum IoKind {
    /// The call would have blocked: no data or connection is ready.
    WouldBlock,
    /// The call was interrupted before completing and may be retried.
    Interrupted,
    /// Any other failure.
    Other,
}

/// The class of an I/O error, as `std::io::Error::kind` reports it.
pub uninterp spec fn io_kind_of(e: std::io::Error) -> IoKind;

/// Relies on `std::io::Error::kind`: the kind of an error is a property of
/// the error value alone; the two kinds of interest map to their own class.
#[verifier::external_body]
fn kind_of(err: &std::io::Error) -> (r: IoKind)
    ensures
        r == io_kind_of(*err),
{
    match err.kind() {
        std::io::ErrorKind::WouldBlock => IoKind::WouldBlock,
        std::io::ErrorKind::Interrupted => IoKind::Interrupted,
        _ => IoKind::Other,
    }
}

/// Whether the error says that the operation would have blocked.
pub fn would_block(err: &std::io::Error) -> (r: bool)
    ensures
        r == (io_kind_of(*err) == IoKind::WouldBlock),
{
    kind_of(err) == IoKind::WouldBlock
}

/// Whether the error says that the operation was interrupted.
pub fn interrupted(err: &std::io::Error) -> (r: bool)
    ensures
        r == (io_kind_of(*err) == IoKind::Interrupted),
{
    kind_of(err) == IoKind::Interrupted
}

} // verus!
