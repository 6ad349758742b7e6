use crate::error::Error;
use crate::platform::InputEvent;
use vstd::prelude::*;

verus! {

/// What the input loop does with the result of one poll of its listener.
#[derive(Debug, Clone, PartialEq, Eq)]
pub enum InputAction {
    /// Send the event on; the loop ends if the channel is closed.
    Forward(InputEvent),
    /// Nothing pending: wait one poll interval and poll again.
    Idle,
    /// The listener failed: the loop ends with this error.
    Fail(Error),
}

pub fn input_action(polled: Result<Option<InputEvent>, Error>) -> (r: InputAction)
    ensures
        r == match polled {
            Ok(Some(e)) => InputAction::Forward(e),
            Ok(None) => InputAction::Idle,
            Err(e) => InputAction::Fail(e),
        },
{
    match polled {
        Ok(Some(e)) => InputAction::Forward(e),
        Ok(None) => InputAction::Idle,
        Err(e) => InputAction::Fail(e),
    }
}

/// A message from the runtime's owner to the motion loop.
pub enum ControlMessage<C> {
    UpdateConfig(C),
    Shutdown,
}

/// What the motion loop does at the start of a frame.
pub enum FrameStart<C> {
    /// Replace the configuration, then run the frame.
    Reload(C),
    /// Run the frame with the configuration held.
    Proceed,
    /// Leave the loop.
    Exit,
}

/// The decision at the start of a frame, from the control message received, if any.
pub fn frame_start<C>(msg: Option<ControlMessage<C>>) -> (r: FrameStart<C>)
    ensures
        r == match msg {
            Some(ControlMessage::UpdateConfig(c)) => FrameStart::Reload(c),
            Some(ControlMessage::Shutdown) => FrameStart::Exit,
            None => FrameStart::<C>::Proceed,
        },
{
    match msg {
        Some(ControlMessage::UpdateConfig(c)) => FrameStart::Reload(c),
        Some(ControlMessage::Shutdown) => FrameStart::Exit,
        None => FrameStart::Proceed,
    }
}

} // verus!
