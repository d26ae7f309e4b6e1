//! The ways in which a configuration is turned down.

use vstd::prelude::*;

verus! {

/// Why a detector could not be built: the one setting that is out of bounds.
#[derive(Debug, Clone, Copy, PartialEq, Eq)]
pub enum Error {
    /// The threshold is no number above zero.
    Threshold,
    /// The window of samples has no room at all.
    MaxSampleSize,
    /// The least standard deviation is zero.
    MinStdDeviation,
    /// The estimate of the first heartbeat interval is zero.
    FirstHeartbeatEstimate,
}

impl Error {
    /// The text of the error.
    pub open spec fn spec_message(&self) -> Seq<char> {
        match self {
            Error::Threshold => "Threshold must be > 0"@,
            Error::MaxSampleSize => "Max sample size must be > 0"@,
            Error::MinStdDeviation => "Min standard deviation must be > 0"@,
            Error::FirstHeartbeatEstimate => "First heartbeat estimate must be > 0"@,
        }
    }

    /// The text of the error, for a reader.
    pub fn message(&self) -> (text: String)
        ensures
            text@ == self.spec_message(),
    {
        match self {
            Error::Threshold => "Threshold must be > 0".to_owned(),
            Error::MaxSampleSize => "Max sample size must be > 0".to_owned(),
            Error::MinStdDeviation => "Min standard deviation must be > 0".to_owned(),
            Error::FirstHeartbeatEstimate => "First heartbeat estimate must be > 0".to_owned(),
        }
    }
}

} // verus!
