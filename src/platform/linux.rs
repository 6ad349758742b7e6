use super::{InputEvent, InputListener};
use crate::error::Error;
use vstd::prelude::*;

verus! {

/// The keyboard listener backend for Linux; monitoring is not available yet.
pub struct LinuxInputListener {}

impl LinuxInputListener {
    pub fn new() -> (r: Result<Self, Error>)
        ensures
            r.is_ok(),
    {
        Ok(LinuxInputListener {})
    }
}

impl InputListener for LinuxInputListener {
    fn start(&mut self) -> Result<(), Error> {
        Err(Error::Platform("Linux input listener not yet implemented".to_owned()))
    }

    fn next_event(&mut self) -> Result<Option<InputEvent>, Error> {
        Ok(None)
    }

    fn stop(&mut self) -> Result<(), Error> {
        Ok(())
    }
}

/// The cursor backend for Linux.
pub struct LinuxCursorActuator {}

impl LinuxCursorActuator {
    pub fn new() -> (r: Result<Self, Error>)
        ensures
            r.is_ok(),
    {
        Ok(LinuxCursorActuator {})
    }
}

} // verus!
