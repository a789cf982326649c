//! Error taxonomy of the dispatch layer.
//!
//! String- and repeat-prefixed I/O and the unfinished parts of MMIO dispatch
//! surface as `NotSupported`; a classification failure as `DecodeError`.
//! Conditions that the hypervisor treats as fatal for a virtual CPU (an MSR
//! access that no device claims, an EPT-violation exit without fault
//! information, an external interrupt that is not the one forwarded vector)
//! are reported as error values carrying their diagnostic payload, so that
//! the policy decision — halt the vCPU or recover — stays with the caller
//! and is never masked as "handled".

use vstd::prelude::*;

verus! {

/// An error produced while dispatching a trapped device access.
#[derive(Clone, Copy, Debug, PartialEq, Eq, Structural)]
pub enum HvError {
    /// String (`INS`/`OUTS`) or `REP`-prefixed I/O, or another feature this
    /// layer deliberately does not emulate.
    NotSupported,
    /// The trapped instruction could not be classified.
    DecodeError,
    /// A parameter outside the accepted domain (for instance an attach to an
    /// occupied PCI slot).
    InvalidParam,
    /// An MSR access for which no registered device claims the index; fatal
    /// for the vCPU under the current policy.
    NoMsrDevice {
        /// The unclaimed MSR index, from the guest's `rcx`.
        msr: u32,
    },
    /// An EPT-violation exit that carries no nested-page-fault descriptor;
    /// the vCPU state is unrecoverable without it.
    NoFaultInfo {
        /// Guest instruction pointer at the exit, for diagnosis.
        guest_rip: u64,
    },
    /// An external-interrupt exit whose descriptor is missing, invalid, or
    /// names a vector other than the single forwarded one.
    BadInterrupt {
        /// The vector the exit reported, or 0 when the descriptor is absent.
        vector: u8,
        /// Whether the exit descriptor was present and marked valid.
        valid: bool,
    },
}

/// Result of a dispatch operation.
pub type HvResult<T = ()> = Result<T, HvError>;

} // verus!
