use chat_backend::clock::Timestamp;
use chat_backend::db::models::chat_message::SqlValue;
use chat_backend::db::models::chat_message::Statement;
use chat_backend::db::models::group::ApproveJoinResolution;
use chat_backend::db::models::DirectChatMessage;

fn record(id: u128) -> DirectChatMessage {
    DirectChatMessage {
        id,
        message: format!("text {}", id),
        sender_id: id * 10,
        receiver_id: id * 100,
        read: id % 2 == 0,
        created_at: Timestamp { secs: id as i64, nanos: 1 },
    }
}

fn params_of(id: u128) -> Vec<SqlValue> {
    vec![
        SqlValue::Uuid(id),
        SqlValue::Text(format!("text {}", id)),
        SqlValue::Uuid(id * 10),
        SqlValue::Uuid(id * 100),
        SqlValue::Bool(id % 2 == 0),
        SqlValue::Timestamp(Timestamp { secs: id as i64, nanos: 1 }),
    ]
}

#[test]
fn nothing_to_insert_gives_no_statement() {
    assert_eq!(DirectChatMessage::insert_bulk(&vec![]), None);
}

#[test]
fn one_message_gives_one_row() {
    let statement = DirectChatMessage::insert_bulk(&vec![record(1)]);
    assert_eq!(
        statement,
        Some(Statement {
            query: String::from(
                "INSERT INTO messages (id, message, sender, receiver, read, created_at) VALUES ($1, $2, $3, $4, $5, $6)"
            ),
            params: params_of(1),
        })
    );
}

#[test]
fn two_messages_give_two_rows_with_running_placeholders() {
    let statement = DirectChatMessage::insert_bulk(&vec![record(1), record(2)]).expect("two rows");
    assert_eq!(
        statement.query,
        "INSERT INTO messages (id, message, sender, receiver, read, created_at) VALUES ($1, $2, $3, $4, $5, $6), ($7, $8, $9, $10, $11, $12)"
    );
    let mut expected = params_of(1);
    expected.extend(params_of(2));
    assert_eq!(statement.params, expected);
}

#[test]
fn many_messages_number_their_placeholders_in_decimal() {
    let messages: Vec<DirectChatMessage> = (1..=20u128).map(record).collect();
    let statement = DirectChatMessage::insert_bulk(&messages).expect("twenty rows");
    let mut expected =
        String::from("INSERT INTO messages (id, message, sender, receiver, read, created_at) VALUES ");
    for row in 0..20usize {
        if row > 0 {
            expected.push_str(", ");
        }
        let base = row * 6;
        expected.push_str(&format!(
            "(${}, ${}, ${}, ${}, ${}, ${})",
            base + 1,
            base + 2,
            base + 3,
            base + 4,
            base + 5,
            base + 6
        ));
    }
    assert_eq!(statement.query, expected);
    assert!(statement.query.ends_with("($115, $116, $117, $118, $119, $120)"));
    assert_eq!(statement.params.len(), 120);
    assert_eq!(statement.params[6 * 16], SqlValue::Uuid(17));
    assert_eq!(statement.params[6 * 16 + 1], SqlValue::Text(String::from("text 17")));
    assert_eq!(statement.params[6 * 19 + 4], SqlValue::Bool(true));
    assert_eq!(statement.params[6 * 19 + 5], SqlValue::Timestamp(Timestamp { secs: 20, nanos: 1 }));
}

#[test]
fn resolution_of_a_join_request_from_an_answer() {
    assert_eq!(ApproveJoinResolution::from(true), ApproveJoinResolution::Approved);
    assert_eq!(ApproveJoinResolution::from(false), ApproveJoinResolution::Unapproved);
}

#[test]
fn resolution_words() {
    assert_eq!(ApproveJoinResolution::Approved.to_string(), "approved");
    assert_eq!(ApproveJoinResolution::Unhandled.to_string(), "unhandled");
    assert_eq!(ApproveJoinResolution::Unapproved.to_string(), "unapproved");
}
