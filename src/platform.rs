use crate::error::Error;
use crate::model::state::Mode;
use crate::model::types::Direction;
use vstd::prelude::*;

pub mod linux;
pub mod macos;

verus! {

/// A platform-agnostic keyboard event.
#[derive(Debug, Clone, Copy, PartialEq, Eq, Structural)]
pub enum InputEvent {
    DirectionPressed(Direction),
    DirectionReleased(Direction),
    ModeChanged(Mode),
    ToggleActive,
    EmergencyStop,
}

/// A source of keyboard events, implemented once per operating system.
pub trait InputListener: Send {
    /// Establishes monitoring; fails with a platform error where it cannot.
    fn start(&mut self) -> Result<(), Error>;

    /// The next pending event, or `None` when there is none yet.
    fn next_event(&mut self) -> Result<Option<InputEvent>, Error>;

    /// Releases the monitoring resources.
    fn stop(&mut self) -> Result<(), Error>;
}

/// The operating systems that have a backend.
#[derive(Debug, Clone, Copy, PartialEq, Eq, Structural)]
pub enum Platform {
    Linux,
    MacOS,
    Other,
}

/// The input listener of `platform`; there is none for other systems.
pub fn create_input_listener(platform: Platform) -> (r: Result<Box<dyn InputListener>, Error>)
    ensures
        r.is_ok() <==> platform != Platform::Other,
        r matches Err(Error::Platform(m)) && m@ == "Unsupported platform"@ || r.is_ok(),
{
    match platform {
        Platform::Linux => {
            let l = linux::LinuxInputListener::new();
            match l {
                Ok(l) => Ok(Box::new(l)),
                Err(e) => Err(e),
            }
        },
        Platform::MacOS => {
            let l = macos::MacOSInputListener::new();
            match l {
                Ok(l) => Ok(Box::new(l)),
                Err(e) => Err(e),
            }
        },
        Platform::Other => Err(Error::Platform("Unsupported platform".to_owned())),
    }
}

} // verus!
