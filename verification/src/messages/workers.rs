use vstd::prelude::*;
use super::websocket::WebsocketMessage;
use super::websocket::WebsocketMessageRequest;

verus! {

/// What the router's queue carries, with events in either form. `H` is the
/// handle that pushes to a client's connection.
pub enum WorkerMessage<H> {
    WebsocketMessage(WebsocketMessage),
    ClientShutdown(u128),
    ClientLogin(u128, H),
}

/// What the router's queue carries: an event that a client submitted, the
/// end of a user's connection, or the login of a user over a new connection.
pub enum WorkerMessageRequest<H> {
    WebsocketMessage(WebsocketMessageRequest),
    ClientShutdown(u128),
    ClientLogin(u128, H),
}

/// One frame that came in over a client's connection.
pub enum ClientFrame {
    /// A text frame: the event it decodes to, or `None` where it decodes to
    /// none.
    Text(Option<WebsocketMessage>),
    /// The client closed the connection.
    Close,
    /// Any other frame.
    Other,
}

/// What the router is told when `frame` came in over the connection of the
/// authenticated user `user_id`.
///
/// A request sent in the user's own name is passed on. A request in another
/// user's name ends the connection instead. So does a close frame. A text
/// frame that decodes to no event, or to an event in its distributed form,
/// and any other frame are dropped.
pub open spec fn told_for<H>(user_id: u128, frame: ClientFrame) -> Option<WorkerMessageRequest<H>> {
    match frame {
        ClientFrame::Text(Some(WebsocketMessage::Request(request))) => {
            if request@.sender_id() == user_id {
                Some(WorkerMessageRequest::WebsocketMessage(request))
            } else {
                Some(WorkerMessageRequest::ClientShutdown(user_id))
            }
        },
        ClientFrame::Text(_) => None,
        ClientFrame::Close => Some(WorkerMessageRequest::ClientShutdown(user_id)),
        ClientFrame::Other => None,
    }
}

/// Decides what the router is told when `frame` came in over the connection
/// of the authenticated user `user_id`.
pub fn worker_message_for<H>(user_id: u128, frame: ClientFrame) -> (told: Option<
    WorkerMessageRequest<H>,
>)
    ensures
        told == told_for::<H>(user_id, frame),
{
    match frame {
        ClientFrame::Text(Some(WebsocketMessage::Request(request))) => {
            if request.sender_id() == user_id {
                Some(WorkerMessageRequest::WebsocketMessage(request))
            } else {
                Some(WorkerMessageRequest::ClientShutdown(user_id))
            }
        },
        ClientFrame::Text(_) => None,
        ClientFrame::Close => Some(WorkerMessageRequest::ClientShutdown(user_id)),
        ClientFrame::Other => None,
    }
}

} // verus!
