//! Messaging: conversations between the renter and the owner about a rental,
//! and the messages in them.

use vstd::prelude::*;
use crate::error::{
    database_error_message, database_failure, fail, is_failure, read_or_fail, ApiError, DbError, ErrorKind,
};
use crate::ids::Id;
use crate::pagination::{
    capped_size, limit_window, LimitWindow, DEFAULT_MESSAGE_PAGE_SIZE, DEFAULT_PAGE_SIZE,
};
use crate::text::{join2, owned};
use crate::time::Timestamp;

verus! {

/// A request of a renter to open a conversation about a rental with a first
/// message.
#[derive(Clone, Debug, PartialEq, Eq)]
pub struct CreateConversationRequest {
    pub rental_id: Id,
    pub message: String,
}

/// A request to send a message; it is text unless it says otherwise.
#[derive(Clone, Debug, PartialEq, Eq)]
pub struct SendMessageRequest {
    pub content: String,
    pub message_type: Option<String>,
}

/// The query of a listing of conversations or of messages.
#[derive(Clone, Debug, PartialEq, Eq)]
pub struct ConversationFilters {
    pub status: Option<String>,
    pub limit: Option<i64>,
    pub offset: Option<i64>,
}

/// A conversation as a party to it sees it.
#[derive(Clone, Debug, PartialEq, Eq)]
pub struct ConversationResponse {
    pub id: Id,
    pub rental_id: Id,
    pub owner_id: Id,
    pub renter_id: Id,
    pub status: String,
    pub created_at: Timestamp,
    pub updated_at: Timestamp,
    pub last_message: Option<MessageResponse>,
    pub unread_count: i64,
}

/// A message of a conversation.
#[derive(Clone, Debug, PartialEq, Eq)]
pub struct MessageResponse {
    pub id: Id,
    pub conversation_id: Id,
    pub sender_id: Id,
    pub content: String,
    pub message_type: String,
    pub is_read: bool,
    pub created_at: Timestamp,
}

/// A conversation that was accepted and is to be recorded with its first
/// message.
#[derive(Clone, Debug, PartialEq, Eq)]
pub struct NewConversation {
    pub rental_id: Id,
    pub owner_id: Id,
    pub renter_id: Id,
    pub message: String,
}

/// What the database adds to a new conversation and its first message.
#[derive(Clone, Copy, Debug, PartialEq, Eq, Structural)]
pub struct ConversationStamp {
    pub conversation_id: Id,
    pub message_id: Id,
    pub message_created_at: Timestamp,
}

/// A recorded conversation.
#[derive(Clone, Debug, PartialEq, Eq)]
pub struct ConversationRecord {
    pub id: Id,
    pub rental_id: Id,
    pub owner_id: Id,
    pub renter_id: Id,
    pub status: String,
    pub created_at: Timestamp,
    pub updated_at: Timestamp,
}

/// What is read of the last message of a conversation.
#[derive(Clone, Debug, PartialEq, Eq)]
pub struct MessageRecord {
    pub id: Id,
    pub sender_id: Id,
    pub content: String,
    pub message_type: String,
    pub created_at: Timestamp,
}

/// A row of a listing of conversations.
#[derive(Clone, Debug, PartialEq, Eq)]
pub struct ConversationRow {
    pub conversation: ConversationRecord,
    pub last_message: Option<MessageRecord>,
    pub unread_count: Option<i64>,
}

/// What a listing of conversations asks the database for.
#[derive(Clone, Debug, PartialEq, Eq)]
pub struct ConversationQuery {
    pub status: String,
    pub window: LimitWindow,
}

/// A message that was accepted and is to be recorded.
#[derive(Clone, Debug, PartialEq, Eq)]
pub struct NewMessage {
    pub conversation_id: Id,
    pub sender_id: Id,
    pub content: String,
    pub message_type: String,
}

/// What the database adds to a new message.
#[derive(Clone, Copy, Debug, PartialEq, Eq, Structural)]
pub struct MessageStamp {
    pub id: Id,
    pub created_at: Timestamp,
}

/// How many messages of a conversation were marked as read.
#[derive(Clone, Copy, Debug, PartialEq, Eq, Structural)]
pub struct MarkedRead {
    pub conversation_id: Id,
    pub messages_marked_read: u64,
}

// ---------------------------------------------------------------------------
// Opening a conversation
// ---------------------------------------------------------------------------

/// The message that refuses a second conversation about a rental.
pub open spec fn already_exists_message(conversation: Id) -> Seq<char> {
    "Conversation already exists: "@ + conversation.text()
}

/// True when `r` is the decision owed to the request of `user_id` to open a
/// conversation, given the renter of the rental, the owner of its product,
/// and the conversation that the two already have about it.
///
/// The rental must exist and `user_id` must be its renter. A conversation
/// that exists is a conflict, and the message names it.
pub open spec fn conversation_decided(
    user_id: Id,
    request: CreateConversationRequest,
    renter: Result<Option<Id>, DbError>,
    owner: Result<Option<Id>, DbError>,
    existing: Result<Option<Id>, DbError>,
    r: Result<NewConversation, ApiError>,
) -> bool {
    match renter {
        Err(_) => is_failure(r, ErrorKind::Internal, database_error_message()),
        Ok(None) => is_failure(r, ErrorKind::NotFound, "Rental not found"@),
        Ok(Some(renter_id)) => if renter_id != user_id {
            is_failure(r, ErrorKind::Forbidden, "You can only create conversations for your own rentals"@)
        } else {
            match owner {
                Ok(Some(owner_id)) => match existing {
                    Err(_) => is_failure(r, ErrorKind::Internal, database_error_message()),
                    Ok(Some(conversation)) => is_failure(
                        r,
                        ErrorKind::Conflict,
                        already_exists_message(conversation),
                    ),
                    Ok(None) => r == Ok::<NewConversation, ApiError>(
                        NewConversation {
                            rental_id: request.rental_id,
                            owner_id,
                            renter_id: user_id,
                            message: request.message,
                        },
                    ),
                },
                _ => is_failure(r, ErrorKind::Internal, database_error_message()),
            }
        },
    }
}

/// Decides on a request of `user_id` to open a conversation, as
/// `conversation_decided` lays down.
pub fn create_conversation(
    user_id: Id,
    request: CreateConversationRequest,
    renter: Result<Option<Id>, DbError>,
    owner: Result<Option<Id>, DbError>,
    existing: Result<Option<Id>, DbError>,
) -> (r: Result<NewConversation, ApiError>)
    ensures
        conversation_decided(user_id, request, renter, owner, existing, r),
{
    let renter_id = match renter {
        Err(_) => {
            return database_failure();
        },
        Ok(None) => {
            return fail(ErrorKind::NotFound, "Rental not found");
        },
        Ok(Some(renter_id)) => renter_id,
    };
    if renter_id != user_id {
        return fail(ErrorKind::Forbidden, "You can only create conversations for your own rentals");
    }
    let owner_id = match owner {
        Ok(Some(owner_id)) => owner_id,
        _ => {
            return database_failure();
        },
    };
    match existing {
        Err(_) => database_failure(),
        Ok(Some(conversation)) => {
            let text = conversation.to_text();
            let message = join2("Conversation already exists: ", text.as_str());
            fail(ErrorKind::Conflict, message.as_str())
        },
        Ok(None) => Ok(
            NewConversation { rental_id: request.rental_id, owner_id, renter_id: user_id, message: request.message },
        ),
    }
}

/// The new conversation as its renter sees it, once it was written: active,
/// with the first message as its last, and nothing unread.
pub fn conversation_created(conversation: NewConversation, inserted: Result<ConversationStamp, DbError>) -> (r:
    Result<ConversationResponse, ApiError>)
    ensures
        match inserted {
            Ok(stamp) => {
                &&& r matches Ok(made)
                &&& made.id == stamp.conversation_id
                &&& made.rental_id == conversation.rental_id
                &&& made.owner_id == conversation.owner_id
                &&& made.renter_id == conversation.renter_id
                &&& made.status@ == "active"@
                &&& made.created_at == stamp.message_created_at
                &&& made.updated_at == stamp.message_created_at
                &&& made.unread_count == 0
                &&& made.last_message matches Some(first)
                &&& first.id == stamp.message_id
                &&& first.conversation_id == stamp.conversation_id
                &&& first.sender_id == conversation.renter_id
                &&& first.content == conversation.message
                &&& first.message_type@ == "text"@
                &&& !first.is_read
                &&& first.created_at == stamp.message_created_at
            },
            Err(_) => is_failure(r, ErrorKind::Internal, database_error_message()),
        },
{
    let stamp = match read_or_fail(inserted) {
        Ok(stamp) => stamp,
        Err(e) => {
            return Err(e);
        },
    };
    Ok(
        ConversationResponse {
            id: stamp.conversation_id,
            rental_id: conversation.rental_id,
            owner_id: conversation.owner_id,
            renter_id: conversation.renter_id,
            status: owned("active"),
            created_at: stamp.message_created_at,
            updated_at: stamp.message_created_at,
            last_message: Some(
                MessageResponse {
                    id: stamp.message_id,
                    conversation_id: stamp.conversation_id,
                    sender_id: conversation.renter_id,
                    content: conversation.message,
                    message_type: owned("text"),
                    is_read: false,
                    created_at: stamp.message_created_at,
                },
            ),
            unread_count: 0,
        },
    )
}

// ---------------------------------------------------------------------------
// Reading and listing conversations
// ---------------------------------------------------------------------------

/// The last message of a conversation as a listing shows it: never as read.
pub open spec fn last_message_of(conversation_id: Id, message: Option<MessageRecord>) -> Option<MessageResponse> {
    match message {
        Some(m) => Some(
            MessageResponse {
                id: m.id,
                conversation_id,
                sender_id: m.sender_id,
                content: m.content,
                message_type: m.message_type,
                is_read: false,
                created_at: m.created_at,
            },
        ),
        None => None,
    }
}

/// A conversation as a party to it sees it.
pub open spec fn conversation_shown(
    conversation: ConversationRecord,
    last_message: Option<MessageRecord>,
    unread_count: i64,
) -> ConversationResponse {
    ConversationResponse {
        id: conversation.id,
        rental_id: conversation.rental_id,
        owner_id: conversation.owner_id,
        renter_id: conversation.renter_id,
        status: conversation.status,
        created_at: conversation.created_at,
        updated_at: conversation.updated_at,
        last_message: last_message_of(conversation.id, last_message),
        unread_count,
    }
}

/// A row of a listing as a party sees it; a count of unread messages that
/// was not read is shown as zero.
pub open spec fn row_shown(row: ConversationRow) -> ConversationResponse {
    conversation_shown(
        row.conversation,
        row.last_message,
        match row.unread_count {
            Some(n) => n,
            None => 0,
        },
    )
}

/// A conversation as a party to it sees it.
pub fn show_conversation(conversation: ConversationRecord, last_message: Option<MessageRecord>, unread_count: i64) -> (r:
    ConversationResponse)
    ensures
        r == conversation_shown(conversation, last_message, unread_count),
{
    let conversation_id = conversation.id;
    let last = match last_message {
        Some(m) => Some(
            MessageResponse {
                id: m.id,
                conversation_id,
                sender_id: m.sender_id,
                content: m.content,
                message_type: m.message_type,
                is_read: false,
                created_at: m.created_at,
            },
        ),
        None => None,
    };
    ConversationResponse {
        id: conversation.id,
        rental_id: conversation.rental_id,
        owner_id: conversation.owner_id,
        renter_id: conversation.renter_id,
        status: conversation.status,
        created_at: conversation.created_at,
        updated_at: conversation.updated_at,
        last_message: last,
        unread_count,
    }
}

/// What a listing of the caller's conversations asks for: the active ones
/// unless `filters` names another status, twenty unless it names a limit, and
/// never more than a hundred.
pub fn list_conversations(filters: ConversationFilters) -> (q: ConversationQuery)
    ensures
        q.status@ == match filters.status {
            Some(s) => s@,
            None => "active"@,
        },
        q.window.limit == capped_size(filters.limit, DEFAULT_PAGE_SIZE),
        q.window.offset == match filters.offset {
            Some(o) => o,
            None => 0,
        },
{
    let window = limit_window(filters.limit, filters.offset, DEFAULT_PAGE_SIZE);
    let status = match filters.status {
        Some(s) => s,
        None => owned("active"),
    };
    ConversationQuery { status, window }
}

/// The rows of a listing as a party sees them, in the order read.
pub fn show_conversations(rows: Vec<ConversationRow>) -> (shown: Vec<ConversationResponse>)
    ensures
        shown@.len() == rows@.len(),
        forall|i: int| 0 <= i < rows@.len() ==> shown@[i] == row_shown(#[trigger] rows@[i]),
{
    let ghost all = rows@;
    let mut rest = rows;
    let mut reversed: Vec<ConversationResponse> = Vec::new();
    while rest.len() > 0
        invariant
            rest@.len() + reversed@.len() == all.len(),
            rest@ == all.take(rest@.len() as int),
            forall|k: int| 0 <= k < reversed@.len() ==> reversed@[k] == row_shown(#[trigger] all[all.len() - 1 - k]),
        decreases rest@.len(),
    {
        let row = rest.pop().unwrap();
        assert(rest@ =~= all.take(rest@.len() as int));
        assert(row == all[all.len() - 1 - reversed@.len()]);
        let unread: i64 = match row.unread_count {
            Some(n) => n,
            None => 0,
        };
        reversed.push(show_conversation(row.conversation, row.last_message, unread));
    }
    let mut shown: Vec<ConversationResponse> = Vec::new();
    while reversed.len() > 0
        invariant
            reversed@.len() + shown@.len() == all.len(),
            forall|k: int| 0 <= k < reversed@.len() ==> reversed@[k] == row_shown(#[trigger] all[all.len() - 1 - k]),
            forall|i: int| 0 <= i < shown@.len() ==> shown@[i] == row_shown(#[trigger] all[i]),
        decreases reversed@.len(),
    {
        let ghost k = reversed@.len() - 1;
        let next = reversed.pop().unwrap();
        assert(next == row_shown(all[all.len() - 1 - k]));
        shown.push(next);
    }
    shown
}

/// Hands a conversation to a party to it, with its last message and the
/// count of messages the party has not read.
pub fn get_conversation(
    conversation: Result<Option<ConversationRecord>, DbError>,
    last_message: Result<Option<MessageRecord>, DbError>,
    unread_count: Result<i64, DbError>,
) -> (r: Result<ConversationResponse, ApiError>)
    ensures
        match conversation {
            Err(_) => is_failure(r, ErrorKind::Internal, database_error_message()),
            Ok(None) => is_failure(r, ErrorKind::NotFound, "Conversation not found"@),
            Ok(Some(found)) => match (last_message, unread_count) {
                (Ok(last), Ok(unread)) => r == Ok::<ConversationResponse, ApiError>(
                    conversation_shown(found, last, unread),
                ),
                _ => is_failure(r, ErrorKind::Internal, database_error_message()),
            },
        },
{
    let found = match conversation {
        Err(_) => {
            return database_failure();
        },
        Ok(None) => {
            return fail(ErrorKind::NotFound, "Conversation not found");
        },
        Ok(Some(found)) => found,
    };
    let last = match read_or_fail(last_message) {
        Ok(last) => last,
        Err(e) => {
            return Err(e);
        },
    };
    let unread: i64 = match read_or_fail(unread_count) {
        Ok(unread) => unread,
        Err(e) => {
            return Err(e);
        },
    };
    Ok(show_conversation(found, last, unread))
}

// ---------------------------------------------------------------------------
// Messages
// ---------------------------------------------------------------------------

/// Lets a caller into a conversation that it is a party to. A conversation
/// that is missing and one that the caller has no part in are not told apart.
pub fn enter_conversation(conversation: Result<Option<Id>, DbError>) -> (r: Result<Id, ApiError>)
    ensures
        match conversation {
            Err(_) => is_failure(r, ErrorKind::Internal, database_error_message()),
            Ok(None) => is_failure(r, ErrorKind::NotFound, "Conversation not found or access denied"@),
            Ok(Some(id)) => r == Ok::<Id, ApiError>(id),
        },
{
    match conversation {
        Err(_) => database_failure(),
        Ok(None) => fail(ErrorKind::NotFound, "Conversation not found or access denied"),
        Ok(Some(id)) => Ok(id),
    }
}

/// Decides on a request of `user_id` to send a message to a conversation
/// that is active and that it is a party to; `conversation` is what was
/// found of such a conversation.
pub fn send_message(
    user_id: Id,
    conversation_id: Id,
    request: SendMessageRequest,
    conversation: Result<Option<Id>, DbError>,
) -> (r: Result<NewMessage, ApiError>)
    ensures
        match conversation {
            Err(_) => is_failure(r, ErrorKind::Internal, database_error_message()),
            Ok(None) => is_failure(r, ErrorKind::NotFound, "Conversation not found or access denied"@),
            Ok(Some(_)) => {
                &&& r matches Ok(message)
                &&& message.conversation_id == conversation_id
                &&& message.sender_id == user_id
                &&& message.content == request.content
                &&& message.message_type@ == match request.message_type {
                    Some(t) => t@,
                    None => "text"@,
                }
            },
        },
{
    match enter_conversation(conversation) {
        Ok(_) => {},
        Err(e) => {
            return Err(e);
        },
    }
    let message_type = match request.message_type {
        Some(t) => t,
        None => owned("text"),
    };
    Ok(NewMessage { conversation_id, sender_id: user_id, content: request.content, message_type })
}

/// The new message as its sender sees it, once it was written and the
/// conversation was marked as changed.
pub fn message_sent(message: NewMessage, inserted: Result<MessageStamp, DbError>, touched: Result<(), DbError>) -> (r:
    Result<MessageResponse, ApiError>)
    ensures
        match (inserted, touched) {
            (Ok(stamp), Ok(_)) => r == Ok::<MessageResponse, ApiError>(
                MessageResponse {
                    id: stamp.id,
                    conversation_id: message.conversation_id,
                    sender_id: message.sender_id,
                    content: message.content,
                    message_type: message.message_type,
                    is_read: false,
                    created_at: stamp.created_at,
                },
            ),
            _ => is_failure(r, ErrorKind::Internal, database_error_message()),
        },
{
    let stamp = match read_or_fail(inserted) {
        Ok(stamp) => stamp,
        Err(e) => {
            return Err(e);
        },
    };
    match read_or_fail(touched) {
        Ok(_) => {},
        Err(e) => {
            return Err(e);
        },
    }
    Ok(
        MessageResponse {
            id: stamp.id,
            conversation_id: message.conversation_id,
            sender_id: message.sender_id,
            content: message.content,
            message_type: message.message_type,
            is_read: false,
            created_at: stamp.created_at,
        },
    )
}

/// The window of the listing of messages that `filters` asks for, for a
/// party to the conversation: fifty unless it names a limit, and never more
/// than a hundred.
pub fn list_messages(filters: &ConversationFilters, conversation: Result<Option<Id>, DbError>) -> (r: Result<
    LimitWindow,
    ApiError,
>)
    ensures
        match conversation {
            Err(_) => is_failure(r, ErrorKind::Internal, database_error_message()),
            Ok(None) => is_failure(r, ErrorKind::NotFound, "Conversation not found or access denied"@),
            Ok(Some(_)) => {
                &&& r matches Ok(w)
                &&& w.limit == capped_size(filters.limit, DEFAULT_MESSAGE_PAGE_SIZE)
                &&& w.offset == match filters.offset {
                    Some(o) => o,
                    None => 0,
                }
            },
        },
{
    match enter_conversation(conversation) {
        Ok(_) => Ok(limit_window(filters.limit, filters.offset, DEFAULT_MESSAGE_PAGE_SIZE)),
        Err(e) => Err(e),
    }
}

/// The answer to a request of a party to mark the messages of the other
/// party as read, given how many were marked.
pub fn mark_messages_read(conversation_id: Id, conversation: Result<Option<Id>, DbError>, marked: Result<u64, DbError>) -> (r:
    Result<MarkedRead, ApiError>)
    ensures
        match conversation {
            Err(_) => is_failure(r, ErrorKind::Internal, database_error_message()),
            Ok(None) => is_failure(r, ErrorKind::NotFound, "Conversation not found or access denied"@),
            Ok(Some(_)) => match marked {
                Ok(count) => r == Ok::<MarkedRead, ApiError>(
                    MarkedRead { conversation_id, messages_marked_read: count },
                ),
                Err(_) => is_failure(r, ErrorKind::Internal, database_error_message()),
            },
        },
{
    match enter_conversation(conversation) {
        Ok(_) => {},
        Err(e) => {
            return Err(e);
        },
    }
    match read_or_fail(marked) {
        Ok(count) => Ok(MarkedRead { conversation_id, messages_marked_read: count }),
        Err(e) => Err(e),
    }
}

} // verus!
