//! The top of the interface: it holds the request for a restart.

use vstd::prelude::*;
use crate::view::board_component::RestartProps;

verus! {

/// A change of the restart request: `true` when the user asks for a
/// restart, `false` to withdraw the request once it was passed on.
#[derive(Debug, Clone, Copy, PartialEq, Eq, Structural)]
pub struct MsgRestart {
    pub restart: bool,
}

/// The top component.
pub struct MainComponent {
    restart: bool,
}

impl View for MainComponent {
    type V = bool;

    /// Whether a restart is asked for.
    closed spec fn view(&self) -> bool {
        self.restart
    }
}

impl MainComponent {
    /// A component that asks for no restart.
    pub fn create() -> (component: MainComponent)
        ensures
            !component@,
    {
        MainComponent { restart: false }
    }

    /// What is handed down to the component that owns the game.
    pub fn props(&self) -> (props: RestartProps)
        ensures
            props.restart == self@,
    {
        RestartProps { restart: self.restart }
    }

    /// Handles a message: the request becomes what the message says, and
    /// the component is drawn again.
    pub fn update(&mut self, msg: MsgRestart) -> (redraw: bool)
        ensures
            final(self)@ == msg.restart,
            redraw,
    {
        self.restart = msg.restart;

        true
    }

    /// Called once the component was drawn. A pending request has then
    /// been handed down: it is dropped, and the message that withdraws it
    /// is returned for the host to send. Without a request nothing
    /// happens.
    pub fn rendered(&mut self) -> (send: Option<MsgRestart>)
        ensures
            !final(self)@,
            send == if old(self)@ {
                Some(MsgRestart { restart: false })
            } else {
                None
            },
    {
        if self.restart {
            self.restart = false;
            Some(MsgRestart { restart: false })
        } else {
            None
        }
    }
}

} // verus!
