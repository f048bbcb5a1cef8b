//! The power-on policy and the record in which it is persisted.
use vstd::prelude::*;

verus! {

/// What state the device resumes after a restart.
#[derive(Clone, Copy, Debug, PartialEq, Eq, Structural)]
pub enum StartupBehavior {
    ForceOff,
    ForceOn,
    Restore,
}

/// A failure of the persistent key-value store, or a record it cannot hold.
#[derive(Clone, Copy, Debug, PartialEq, Eq, Structural)]
pub enum StorageError {
    /// The storage layer reported an I/O error with this code.
    Io(i32),
    /// The stored record is not a valid policy record.
    Corrupt,
}

/// The key under which the policy record is kept.
pub const STARTUP_KEY: &'static str = "startup-on-off";

/// Tag bytes of the policy record.
pub const TAG_FORCE_OFF: u8 = 0;
pub const TAG_FORCE_ON: u8 = 1;
pub const TAG_RESTORE: u8 = 2;

/// The record for a policy: empty when no preference is set, else one tag byte.
pub open spec fn record_of(v: Option<StartupBehavior>) -> Seq<u8> {
    match v {
        None => Seq::empty(),
        Some(StartupBehavior::ForceOff) => seq![TAG_FORCE_OFF],
        Some(StartupBehavior::ForceOn) => seq![TAG_FORCE_ON],
        Some(StartupBehavior::Restore) => seq![TAG_RESTORE],
    }
}

/// The policy a record holds, or `Corrupt` where the bytes are no record.
pub open spec fn policy_of(b: Seq<u8>) -> Result<Option<StartupBehavior>, StorageError> {
    if b.len() == 0 {
        Ok(None)
    } else if b.len() == 1 && b[0] == TAG_FORCE_OFF {
        Ok(Some(StartupBehavior::ForceOff))
    } else if b.len() == 1 && b[0] == TAG_FORCE_ON {
        Ok(Some(StartupBehavior::ForceOn))
    } else if b.len() == 1 && b[0] == TAG_RESTORE {
        Ok(Some(StartupBehavior::Restore))
    } else {
        Err(StorageError::Corrupt)
    }
}

/// Encodes a policy as the record to persist.
pub fn encode_record(v: Option<StartupBehavior>) -> (r: Vec<u8>)
    ensures
        r@ == record_of(v),
{
    match v {
        None => Vec::new(),
        Some(StartupBehavior::ForceOff) => vec![TAG_FORCE_OFF],
        Some(StartupBehavior::ForceOn) => vec![TAG_FORCE_ON],
        Some(StartupBehavior::Restore) => vec![TAG_RESTORE],
    }
}

/// Decodes a stored record.
pub fn decode_record(b: &[u8]) -> (r: Result<Option<StartupBehavior>, StorageError>)
    ensures
        r == policy_of(b@),
{
    if b.len() == 0 {
        Ok(None)
    } else if b.len() == 1 && b[0] == TAG_FORCE_OFF {
        Ok(Some(StartupBehavior::ForceOff))
    } else if b.len() == 1 && b[0] == TAG_FORCE_ON {
        Ok(Some(StartupBehavior::ForceOn))
    } else if b.len() == 1 && b[0] == TAG_RESTORE {
        Ok(Some(StartupBehavior::Restore))
    } else {
        Err(StorageError::Corrupt)
    }
}

/// Turns what the key-value store's `get` returned into the persisted policy:
/// a missing record means no preference, a storage error is passed on.
pub fn load(stored: Result<Option<Vec<u8>>, StorageError>) -> (r: Result<
    Option<StartupBehavior>,
    StorageError,
>)
    ensures
        r == match stored {
            Err(e) => Err(e),
            Ok(None) => Ok(None),
            Ok(Some(b)) => policy_of(b@),
        },
{
    match stored {
        Err(e) => Err(e),
        Ok(None) => Ok(None),
        Ok(Some(b)) => decode_record(b.as_slice()),
    }
}

/// A policy read back from the record written for it is the policy itself.
pub proof fn lemma_record_round_trip(v: Option<StartupBehavior>)
    ensures
        policy_of(record_of(v)) == Ok::<Option<StartupBehavior>, StorageError>(v),
{
}

} // verus!
