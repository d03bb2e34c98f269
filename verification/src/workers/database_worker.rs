use vstd::prelude::*;
use crate::db::models::chat_message::DirectChatMessage;
use crate::db::models::chat_message::DirectChatMessageView;
use crate::messages::websocket::response::DirectChatMessageResponse;
use crate::messages::websocket::response::DirectChatMessageResponseView;
use crate::messages::websocket::response::WebsocketMessageResponse;
use crate::messages::websocket::response::WebsocketMessageResponseView;

verus! {

/// The time between two flushes of the buffer, in milliseconds.
pub const FLUSH_INTERVAL_MILLIS: u64 = 5000;

/// The direct chat messages that wait to be written to durable storage, in
/// the order in which they came.
pub struct Storage {
    pub direct_chat_message: Vec<DirectChatMessageResponse>,
}

impl View for Storage {
    type V = Seq<DirectChatMessageResponseView>;

    open spec fn view(&self) -> Seq<DirectChatMessageResponseView> {
        self.direct_chat_message@.map_values(|message: DirectChatMessageResponse| message@)
    }
}

/// The buffer after `event` came in: a direct chat message is appended, any
/// other event leaves the buffer as it was.
pub open spec fn taken_in(
    buffer: Seq<DirectChatMessageResponseView>,
    event: WebsocketMessageResponseView,
) -> Seq<DirectChatMessageResponseView> {
    match event {
        WebsocketMessageResponseView::DirectChatMessage(message) => buffer.push(message),
        _ => buffer,
    }
}

/// The records that one write to storage holds for `buffer`: one for each
/// message, in the buffer's order.
pub open spec fn records_of(buffer: Seq<DirectChatMessageResponseView>) -> Seq<
    DirectChatMessageView,
> {
    buffer.map_values(|message: DirectChatMessageResponseView| DirectChatMessage::record_of(message))
}

impl Storage {
    /// An empty buffer.
    pub fn new() -> (storage: Self)
        ensures
            storage@ == Seq::<DirectChatMessageResponseView>::empty(),
    {
        let storage = Storage { direct_chat_message: Vec::new() };
        assert(storage@ =~= Seq::<DirectChatMessageResponseView>::empty());
        storage
    }

    /// The number of messages that wait.
    pub fn len(&self) -> (n: usize)
        ensures
            n == self@.len(),
    {
        self.direct_chat_message.len()
    }

    /// Takes in one event from the queue. A direct chat message is appended
    /// to the buffer; any other event is dropped. Says whether the event was
    /// kept.
    pub fn take_in(&mut self, event: WebsocketMessageResponse) -> (kept: bool)
        ensures
            kept == (event@ is DirectChatMessage),
            final(self)@ == taken_in(old(self)@, event@),
    {
        match event {
            WebsocketMessageResponse::DirectChatMessage(chat_message) => {
                let ghost before = self@;
                let ghost added = chat_message@;
                self.direct_chat_message.push(chat_message);
                assert(self@ =~= before.push(added));
                true
            },
            _ => false,
        }
    }

    /// One tick of the flush timer. `connected` says whether a connection to
    /// storage could be had.
    ///
    /// Without a connection the tick is skipped: nothing is handed out and the
    /// buffer keeps what it holds. With one, the buffer is drained: all that
    /// it held is handed out as the records of one write, and it is empty
    /// afterwards, whether or not that write succeeds.
    pub fn flush(&mut self, connected: bool) -> (batch: Option<Vec<DirectChatMessage>>)
        ensures
            batch is Some == connected,
            !connected ==> final(self)@ == old(self)@,
            connected ==> final(self)@ == Seq::<DirectChatMessageResponseView>::empty(),
            batch matches Some(records) ==> {
                &&& records@.map_values(|record: DirectChatMessage| record@) == records_of(
                    old(self)@,
                )
                &&& records@.len() == old(self)@.len()
                &&& forall|i: int|
                    0 <= i < records@.len() ==> (#[trigger] records@[i])@
                        == DirectChatMessage::record_of(old(self)@[i])
            },
    {
        if !connected {
            return None;
        }
        let ghost before = self@;
        let mut drained: Vec<DirectChatMessageResponse> = Vec::new();
        std::mem::swap(&mut drained, &mut self.direct_chat_message);
        assert(self@ =~= Seq::<DirectChatMessageResponseView>::empty());
        let ghost source = drained@;
        let mut records: Vec<DirectChatMessage> = Vec::new();
        for message in it: drained
            invariant
                it.seq() == source,
                records.len() == it.index(),
                forall|j: int|
                    0 <= j < records.len() ==> (#[trigger] records[j])@
                        == DirectChatMessage::record_of(source[j]@),
        {
            records.push(DirectChatMessage::from(message));
        }
        assert(records@.map_values(|record: DirectChatMessage| record@) =~= records_of(before));
        Some(records)
    }
}

} // verus!
