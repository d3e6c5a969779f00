//! Connection states of the background tasks shown in the status bar.

use vstd::prelude::*;

use crate::i18n::Translations;

verus! {

/// The state of one background connection.
#[derive(Debug, Clone, Copy, PartialEq, Eq, Structural)]
pub enum ConnState {
    Disconnected,
    Connecting,
    Connected,
    Error,
}

impl Default for ConnState {
    fn default() -> (s: Self)
        ensures
            s == ConnState::Disconnected,
    {
        ConnState::Disconnected
    }
}

impl ConnState {
    /// The message id of this state's label.
    pub open spec fn label_key_spec(self) -> Seq<char> {
        match self {
            ConnState::Disconnected => "status-state-disconnected"@,
            ConnState::Connecting => "status-state-connecting"@,
            ConnState::Connected => "status-state-connected"@,
            ConnState::Error => "status-state-error"@,
        }
    }

    /// The message id of this state's label.
    pub fn label_key(self) -> (s: &'static str)
        ensures
            s@ == self.label_key_spec(),
    {
        match self {
            ConnState::Disconnected => "status-state-disconnected",
            ConnState::Connecting => "status-state-connecting",
            ConnState::Connected => "status-state-connected",
            ConnState::Error => "status-state-error",
        }
    }
}

/// The label shown for a connection state.
pub fn label(state: ConnState, tr: &Translations) -> (s: String)
    ensures
        s@ == tr.lookup(state.label_key_spec()),
{
    tr.get(state.label_key())
}

/// The states of the transceiver link, the DX cluster, the callbook lookup
/// and the upload queue.
#[derive(Debug, Clone, Copy, PartialEq, Eq, Structural)]
pub struct BackgroundStatus {
    pub tci: ConnState,
    pub cluster: ConnState,
    pub qrz: ConnState,
    pub sync: ConnState,
}

impl Default for BackgroundStatus {
    fn default() -> (s: Self)
        ensures
            s == (BackgroundStatus {
                tci: ConnState::Disconnected,
                cluster: ConnState::Disconnected,
                qrz: ConnState::Disconnected,
                sync: ConnState::Disconnected,
            }),
    {
        BackgroundStatus {
            tci: ConnState::default(),
            cluster: ConnState::default(),
            qrz: ConnState::default(),
            sync: ConnState::default(),
        }
    }
}

} // verus!
