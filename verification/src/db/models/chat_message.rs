use vstd::prelude::*;
use vstd::std_specs::convert::FromSpecImpl;
use vstd::string::StringExecFns;
use crate::clock::Timestamp;
use crate::messages::websocket::response::DirectChatMessageResponse;
use crate::messages::websocket::response::DirectChatMessageResponseView;

verus! {

/// A chat message between two users as durable storage holds it.
#[derive(Debug, Clone, PartialEq, Eq)]
pub struct DirectChatMessage {
    pub id: u128,
    pub message: String,
    pub sender_id: u128,
    pub receiver_id: u128,
    pub read: bool,
    pub created_at: Timestamp,
}

pub struct DirectChatMessageView {
    pub id: u128,
    pub message: Seq<char>,
    pub sender_id: u128,
    pub receiver_id: u128,
    pub read: bool,
    pub created_at: Timestamp,
}

impl View for DirectChatMessage {
    type V = DirectChatMessageView;

    open spec fn view(&self) -> DirectChatMessageView {
        DirectChatMessageView {
            id: self.id,
            message: self.message@,
            sender_id: self.sender_id,
            receiver_id: self.receiver_id,
            read: self.read,
            created_at: self.created_at,
        }
    }
}

impl DirectChatMessage {
    /// The record under which a distributed message is stored. It is stored
    /// as unread, whatever the message says.
    pub open spec fn record_of(message: DirectChatMessageResponseView) -> DirectChatMessageView {
        DirectChatMessageView {
            id: message.id,
            message: message.message,
            sender_id: message.sender_id,
            receiver_id: message.receiver_id,
            read: false,
            created_at: message.created_at,
        }
    }
}

impl From<DirectChatMessageResponse> for DirectChatMessage {
    fn from(value: DirectChatMessageResponse) -> (record: Self) {
        Self {
            id: value.id,
            message: value.message,
            sender_id: value.sender_id,
            receiver_id: value.receiver_id,
            read: false,
            created_at: value.created_at,
        }
    }
}

impl FromSpecImpl<DirectChatMessageResponse> for DirectChatMessage {
    open spec fn obeys_from_spec() -> bool {
        true
    }

    open spec fn from_spec(value: DirectChatMessageResponse) -> Self {
        Self {
            id: value.id,
            message: value.message,
            sender_id: value.sender_id,
            receiver_id: value.receiver_id,
            read: false,
            created_at: value.created_at,
        }
    }
}

impl From<DirectChatMessage> for DirectChatMessageResponse {
    fn from(value: DirectChatMessage) -> (message: Self) {
        Self {
            id: value.id,
            message: value.message,
            sender_id: value.sender_id,
            receiver_id: value.receiver_id,
            read: value.read,
            created_at: value.created_at,
        }
    }
}

impl FromSpecImpl<DirectChatMessage> for DirectChatMessageResponse {
    open spec fn obeys_from_spec() -> bool {
        true
    }

    open spec fn from_spec(value: DirectChatMessage) -> Self {
        Self {
            id: value.id,
            message: value.message,
            sender_id: value.sender_id,
            receiver_id: value.receiver_id,
            read: value.read,
            created_at: value.created_at,
        }
    }
}

/// A value bound to a placeholder of a statement.
#[derive(Debug, Clone, PartialEq, Eq)]
pub enum SqlValue {
    Uuid(u128),
    Text(String),
    Bool(bool),
    Timestamp(Timestamp),
}

pub enum SqlValueView {
    Uuid(u128),
    Text(Seq<char>),
    Bool(bool),
    Timestamp(Timestamp),
}

impl View for SqlValue {
    type V = SqlValueView;

    open spec fn view(&self) -> SqlValueView {
        match self {
            SqlValue::Uuid(id) => SqlValueView::Uuid(*id),
            SqlValue::Text(text) => SqlValueView::Text(text@),
            SqlValue::Bool(flag) => SqlValueView::Bool(*flag),
            SqlValue::Timestamp(at) => SqlValueView::Timestamp(*at),
        }
    }
}

/// A statement for storage: its text, and the values for the placeholders
/// `$1`, `$2`, ... of the text, in that order.
#[derive(Debug, Clone, PartialEq, Eq)]
pub struct Statement {
    pub query: String,
    pub params: Vec<SqlValue>,
}

pub struct StatementView {
    pub query: Seq<char>,
    pub params: Seq<SqlValueView>,
}

impl View for Statement {
    type V = StatementView;

    open spec fn view(&self) -> StatementView {
        StatementView {
            query: self.query@,
            params: self.params@.map_values(|value: SqlValue| value@),
        }
    }
}

/// The number of columns of a stored message.
pub const MESSAGE_COLUMNS: u128 = 6;

/// The decimal digit `d`, for `d` below ten.
pub open spec fn digit(d: nat) -> char {
    if d == 0 {
        '0'
    } else if d == 1 {
        '1'
    } else if d == 2 {
        '2'
    } else if d == 3 {
        '3'
    } else if d == 4 {
        '4'
    } else if d == 5 {
        '5'
    } else if d == 6 {
        '6'
    } else if d == 7 {
        '7'
    } else if d == 8 {
        '8'
    } else {
        '9'
    }
}

/// `n` in decimal, without leading zeros.
pub open spec fn decimal(n: nat) -> Seq<char>
    decreases n,
{
    if n < 10 {
        seq![digit(n)]
    } else {
        decimal(n / 10).push(digit(n % 10))
    }
}

/// The placeholders of the row with index `row`, in brackets: `($1, $2, $3,
/// $4, $5, $6)` for the first row, `($7, ...)` for the second.
pub open spec fn row_placeholders(row: nat) -> Seq<char> {
    "($"@ + decimal(6 * row + 1) + ", $"@ + decimal(6 * row + 2) + ", $"@ + decimal(6 * row + 3)
        + ", $"@ + decimal(6 * row + 4) + ", $"@ + decimal(6 * row + 5) + ", $"@ + decimal(
        6 * row + 6,
    ) + ")"@
}

/// The placeholders of the first `rows` rows, separated by a comma and a
/// blank.
pub open spec fn rows_placeholders(rows: nat) -> Seq<char>
    decreases rows,
{
    if rows == 0 {
        Seq::empty()
    } else if rows == 1 {
        row_placeholders(0)
    } else {
        rows_placeholders((rows - 1) as nat) + ", "@ + row_placeholders((rows - 1) as nat)
    }
}

/// The text of the statement that stores `rows` messages at once.
pub open spec fn bulk_insert_query(rows: nat) -> Seq<char> {
    "INSERT INTO messages (id, message, sender, receiver, read, created_at) VALUES "@
        + rows_placeholders(rows)
}

/// The value for the placeholder with index `k` (counted from zero) of the
/// statement that stores `records`: the columns of the first record, then
/// those of the second, each in the order identifier, text, sender, receiver,
/// read, time of creation.
pub open spec fn bulk_insert_param(records: Seq<DirectChatMessageView>, k: int) -> SqlValueView {
    let record = records[k / 6];
    let column = k % 6;
    if column == 0 {
        SqlValueView::Uuid(record.id)
    } else if column == 1 {
        SqlValueView::Text(record.message)
    } else if column == 2 {
        SqlValueView::Uuid(record.sender_id)
    } else if column == 3 {
        SqlValueView::Uuid(record.receiver_id)
    } else if column == 4 {
        SqlValueView::Bool(record.read)
    } else {
        SqlValueView::Timestamp(record.created_at)
    }
}

/// The values for the placeholders of the statement that stores `records`.
pub open spec fn bulk_insert_params(records: Seq<DirectChatMessageView>) -> Seq<SqlValueView> {
    Seq::new(6 * records.len(), |k: int| bulk_insert_param(records, k))
}

/// The text of one decimal digit.
fn digit_text(d: u128) -> (text: &'static str)
    requires
        d < 10,
    ensures
        text@ == seq![digit(d as nat)],
{
    proof {
        reveal_strlit("0");
        reveal_strlit("1");
        reveal_strlit("2");
        reveal_strlit("3");
        reveal_strlit("4");
        reveal_strlit("5");
        reveal_strlit("6");
        reveal_strlit("7");
        reveal_strlit("8");
        reveal_strlit("9");
    }
    let text = if d == 0 {
        "0"
    } else if d == 1 {
        "1"
    } else if d == 2 {
        "2"
    } else if d == 3 {
        "3"
    } else if d == 4 {
        "4"
    } else if d == 5 {
        "5"
    } else if d == 6 {
        "6"
    } else if d == 7 {
        "7"
    } else if d == 8 {
        "8"
    } else {
        "9"
    };
    assert(text@ =~= seq![digit(d as nat)]);
    text
}

/// Appends `n` in decimal to `text`.
fn push_decimal(text: &mut String, n: u128)
    ensures
        final(text)@ == old(text)@ + decimal(n as nat),
    decreases n,
{
    if n >= 10 {
        push_decimal(text, n / 10);
    }
    text.append(digit_text(n % 10));
    assert(text@ =~= old(text)@ + decimal(n as nat));
}

/// Appends the placeholders of the row with index `row` to `text`.
fn push_row_placeholders(text: &mut String, row: usize)
    ensures
        final(text)@ == old(text)@ + row_placeholders(row as nat),
{
    let base: u128 = (row as u128) * MESSAGE_COLUMNS;
    text.append("($");
    push_decimal(text, base + 1);
    text.append(", $");
    push_decimal(text, base + 2);
    text.append(", $");
    push_decimal(text, base + 3);
    text.append(", $");
    push_decimal(text, base + 4);
    text.append(", $");
    push_decimal(text, base + 5);
    text.append(", $");
    push_decimal(text, base + 6);
    text.append(")");
    assert(text@ =~= old(text)@ + row_placeholders(row as nat));
}

impl DirectChatMessage {
    /// The statement that stores `messages` at once, one row for each in the
    /// order given. For no message there is nothing to store and no
    /// statement.
    pub fn insert_bulk(messages: &Vec<DirectChatMessage>) -> (statement: Option<Statement>)
        ensures
            statement is Some == (messages@.len() > 0),
            statement matches Some(stored) ==> {
                &&& stored@.query == bulk_insert_query(messages@.len())
                &&& stored@.params == bulk_insert_params(
                    messages@.map_values(|message: DirectChatMessage| message@),
                )
            },
    {
        if messages.len() == 0 {
            return None;
        }
        let ghost records = messages@.map_values(|message: DirectChatMessage| message@);
        let mut query = String::from_str(
            "INSERT INTO messages (id, message, sender, receiver, read, created_at) VALUES ",
        );
        let mut params: Vec<SqlValue> = Vec::new();
        let mut i: usize = 0;
        while i < messages.len()
            invariant
                i <= messages.len(),
                records == messages@.map_values(|message: DirectChatMessage| message@),
                query@ == bulk_insert_query(i as nat),
                params@.len() == 6 * i,
                forall|k: int|
                    0 <= k < 6 * i ==> (#[trigger] params@[k])@ == bulk_insert_param(records, k),
            decreases messages.len() - i,
        {
            if i > 0 {
                query.append(", ");
            }
            push_row_placeholders(&mut query, i);
            assert(query@ =~= bulk_insert_query((i + 1) as nat));
            let message = &messages[i];
            assert(records[i as int] == message@);
            params.push(SqlValue::Uuid(message.id));
            params.push(SqlValue::Text(message.message.clone()));
            params.push(SqlValue::Uuid(message.sender_id));
            params.push(SqlValue::Uuid(message.receiver_id));
            params.push(SqlValue::Bool(message.read));
            params.push(SqlValue::Timestamp(message.created_at));
            i += 1;
        }
        let statement = Statement { query, params };
        assert(statement@.params =~= bulk_insert_params(records));
        Some(statement)
    }
}

} // verus!
