use vstd::prelude::*;

verus! {

/// Outcome of one guarded call.
///
/// `Open` means the primitive was open at the moment the call observed it,
/// so the caller is authorized to proceed with the guarded action. `Closed`
/// means it had already been shut; the caller must not proceed. There are no
/// other outcomes, and a `Status` is produced per call, never stored.
#[derive(Clone, Copy, Debug, PartialEq, Eq, Structural)]
pub enum Status {
    Open,
    Closed,
}

} // verus!
