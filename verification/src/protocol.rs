//! The controller's boundary types: requests to and responses from the
//! search daemon, the messages that drive one controller step, and the
//! effects a step hands back to its surroundings.

use vstd::prelude::*;
use crate::mode::Plugin;

verus! {

/// A request for the daemon, fire-and-forget.
#[derive(Clone, Debug, PartialEq, Eq)]
pub enum Request {
    Search(String),
    Activate(u32),
    Complete(u32),
}

/// One result entry of the daemon's last search response. `id` is the
/// daemon's own index for the entry and is what an `Activate` names.
#[derive(Clone, Debug, PartialEq, Eq)]
pub struct PopSearchResult {
    pub id: u32,
    pub name: String,
}

/// A response from the daemon.
#[derive(Clone, Debug, PartialEq, Eq)]
pub enum PopResponse {
    /// clean shutdown signal
    Close,
    /// a feature this controller does not implement
    Context,
    /// launch the desktop entry stored at this path
    DesktopEntry { path: String },
    /// a fresh result list for the last search
    Update(Vec<PopSearchResult>),
    /// a Tab completion of the current input, modifier prefix included
    Fill(String),
}

/// The daemon connection's one-time ready signal, or a response.
#[derive(Clone, Debug)]
pub enum SubscriptionMessage {
    Ready,
    PopMessage(PopResponse),
}

/// A keyboard key, as far as the controller distinguishes them.
#[derive(Clone, Copy, Debug, PartialEq, Eq, Structural)]
pub enum Key {
    Up,
    Down,
    Enter,
    Tab,
    Escape,
    Other,
}

/// One event driving a controller step.
#[derive(Clone, Debug)]
pub enum Message {
    InputChanged(String),
    KeyboardEvent(Key),
    SubscriptionResponse(SubscriptionMessage),
    PluginConfig(Plugin),
    Unfocused,
}

/// The error taxonomy of the controller. All are recoverable: a step that
/// meets one reports it and leaves the state consistent.
#[derive(Clone, Copy, Debug, PartialEq, Eq, Structural)]
pub enum ControllerError {
    /// a daemon response broke an expected invariant
    ProtocolViolation,
    /// a request was due before the ready signal arrived
    ChannelUnavailable,
    /// the daemon asked for a feature this controller does not implement
    UnsupportedFeature,
    /// the spawn of a resolved command failed outside the library
    ExternalProcessFailure,
}

/// What a controller step asks its surroundings to do, in order.
#[derive(Clone, Debug, PartialEq, Eq)]
pub enum Effect {
    /// send this request to the daemon
    Send(Request),
    /// end the session
    Exit,
    /// spawn the desktop entry stored at this path; the session ends with it
    Launch(String),
    /// scroll the result list to the fraction `line / total` of its height
    Snap { line: usize, total: usize },
    /// log this condition; the state was left untouched or consistent
    Report(ControllerError),
}

} // verus!
