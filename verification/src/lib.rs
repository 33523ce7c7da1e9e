//! An EPID-style anonymous group-signature scheme with member revocation,
//! built on the BLS12-381 pairing groups.
//!
//! An issuer creates public parameters and admits platforms through a
//! two-party join protocol; a platform signs messages anonymously; a verifier
//! checks a signature against a revocation list without learning which
//! platform signed.  The algebra is modelled by the discrete logarithms of
//! the group elements involved, and every protocol step carries a contract
//! over that model.

pub mod types;
pub mod field;
pub mod groups;
pub mod issuer;
pub mod join;
pub mod laws;
pub mod platform;
pub mod utils;
pub mod verify;
pub mod zpk;
