//! Error kinds of the discovery layer.

use vstd::prelude::*;

verus! {

/// A record's identity key could not be translated into the modern
/// subsystem's identity-key scheme.
#[derive(Clone, Copy, PartialEq, Eq, Structural, Debug)]
pub struct RecordConversionError;

/// Bytes advertised under a chain key did not hold a canonically encoded fork
/// identifier.
#[derive(Clone, Copy, PartialEq, Eq, Structural, Debug)]
pub struct RecordDecodeError;

/// The synchronization signal could not be delivered because no receiver is
/// left.
#[derive(Clone, Copy, PartialEq, Eq, Structural, Debug)]
pub struct SignalDeliveryError;

} // verus!
