use super::{InputEvent, InputListener};
use crate::error::Error;
use vstd::prelude::*;

verus! {

/// The keyboard listener backend for MacOS; monitoring is not available yet.
pub struct MacOSInputListener {}

impl MacOSInputListener {
    pub fn new() -> (r: Result<Self, Error>)
        ensures
            r.is_ok(),
    {
        Ok(MacOSInputListener {})
    }
}

impl InputListener for MacOSInputListener {
    fn start(&mut self) -> Result<(), Error> {
        Err(Error::Platform("MacOS input listener not yet implemented".to_owned()))
    }

    fn next_event(&mut self) -> Result<Option<InputEvent>, Error> {
        Ok(None)
    }

    fn stop(&mut self) -> Result<(), Error> {
        Ok(())
    }
}

/// The cursor backend for MacOS.
pub struct MacOSCursorActuator {}

impl MacOSCursorActuator {
    pub fn new() -> (r: Result<Self, Error>)
        ensures
            r.is_ok(),
    {
        Ok(MacOSCursorActuator {})
    }
}

} // verus!
