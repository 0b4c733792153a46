use vstd::prelude::*;

verus! {

/// What can go wrong between the device and the virtual gamepad.
#[derive(Debug, Clone, Copy, PartialEq, Eq, Structural)]
pub enum ControllerError {
    /// The controller could not be opened.
    DeviceUnavailable,
    /// A report is too short to hold every field.
    MalformedReport,
    /// Reading the next report failed.
    ReadFailure,
    /// The virtual device refused an update or a synchronisation.
    SinkFailure,
}

impl ControllerError {
    /// Whether the error ends the session. A short report is skipped and a
    /// refused update costs only the current cycle; a device that cannot be
    /// opened or read stops the loop.
    pub open spec fn spec_is_fatal(self) -> bool {
        self is DeviceUnavailable || self is ReadFailure
    }

    pub fn is_fatal(&self) -> (r: bool)
        ensures
            r == self.spec_is_fatal(),
    {
        match self {
            ControllerError::DeviceUnavailable => true,
            ControllerError::ReadFailure => true,
            ControllerError::MalformedReport => false,
            ControllerError::SinkFailure => false,
        }
    }
}

} // verus!
