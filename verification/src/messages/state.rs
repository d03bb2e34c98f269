use vstd::prelude::*;
use vstd::std_specs::convert::FromSpecImpl;
use super::websocket::WebsocketMessage;

verus! {

/// An event together with the handle of the connection it came over.
pub struct StateMessage<H> {
    pub websocket_sender: H,
    pub message: WebsocketMessage,
}

impl<H> From<(H, WebsocketMessage)> for StateMessage<H> {
    fn from(value: (H, WebsocketMessage)) -> (message: StateMessage<H>) {
        StateMessage { websocket_sender: value.0, message: value.1 }
    }
}

impl<H> FromSpecImpl<(H, WebsocketMessage)> for StateMessage<H> {
    open spec fn obeys_from_spec() -> bool {
        true
    }

    open spec fn from_spec(value: (H, WebsocketMessage)) -> Self {
        StateMessage { websocket_sender: value.0, message: value.1 }
    }
}

} // verus!
