use vstd::prelude::*;

verus! {

/// One symbolic code for every failure mode.
///
/// Size errors and content errors for the same argument are distinct, so a
/// caller can tell whether an argument had the wrong length or well-sized but
/// invalid content. Operation-level failures (recovery, tweaking, a signature
/// that does not match) are distinct from every decode error.
#[derive(Clone, Copy, Debug, PartialEq, Eq, Structural)]
pub enum Error {
    WrongMessageSize,
    WrongPrivateKeySize,
    WrongPublicKeySize,
    WrongTweakKeySize,
    WrongSignatureSize,
    InvalidPrivateKey,
    InvalidPublicKey,
    InvalidSignature,
    InvalidRecoveryId,
    InvalidR,
    InvalidS,
    RecoveryFailure,
    TweakFailure,
    FailedToVerify,
}

} // verus!
