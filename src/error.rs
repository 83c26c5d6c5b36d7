//! Errors of the device-group client, and the classification of the
//! service's bad-request messages into operation-specific kinds.
use vstd::prelude::*;
use crate::raw::{NOTIFICATION_KEY_KEY, OperationResponse};

verus! {

/// Message the service gives when a group name is already taken.
pub const ALREADY_EXISTS_MESSAGE: &'static str = "notification_key already exists";

/// Message the service gives when none of the registration ids is usable.
pub const NO_REGISTRATION_ID_MESSAGE: &'static str = "no valid registration ids";

/// Message the service gives when a name and a key belong to different groups.
pub const KEY_NAME_AND_KEY_DONT_MATCH: &'static str =
    "notification_key_name doesn't match the group name of the notification_key";

/// Message the service gives when no group has the given key or name.
pub const KEY_NOT_FOUND: &'static str = "notification_key not found";

/// Key of the message member of a bad-request body.
pub const ERROR_KEY: &'static str = "error";

/// The member `key` of the JSON object `body`, when the body is one JSON
/// object and that member holds a string.
pub uninterp spec fn json_string_member(body: Seq<u8>, key: Seq<char>) -> Option<Seq<char>>;

/// Relies on `serde_json::from_slice` to read the body as a JSON object, and on
/// `serde_json::Map::get` to take its member `key`, kept when it is a string.
#[verifier::external_body]
fn string_member(body: &[u8], key: &str) -> (r: Option<String>)
    ensures
        match r {
            Some(s) => json_string_member(body@, key@) == Some(s@),
            None => json_string_member(body@, key@) is None,
        },
{
    match serde_json::from_slice::<serde_json::Map<String, serde_json::Value>>(body) {
        Ok(object) => match object.get(key) {
            Some(serde_json::Value::String(s)) => Some(s.clone()),
            _ => None,
        },
        Err(_) => None,
    }
}

/// Error when creating a device-group client.
#[derive(Debug, Clone, Copy, PartialEq, Eq, Structural)]
pub enum FCMDeviceGroupClientCreationError {
    /// The sender id cannot stand in an HTTP header value.
    InvalidHeaderValue,
    /// The HTTP client could not be built.
    ClientBuild,
}

/// Bad-request body from the service.
#[derive(Debug, Clone)]
pub struct FCMDeviceGroupsBadRequest {
    /// The message of the body.
    pub error: String,
}

impl FCMDeviceGroupsBadRequest {
    /// The text of this error: the service's message.
    pub fn fmt(&self) -> (r: String)
        ensures
            r@ == self.error@,
    {
        self.error.clone()
    }
}

/// A set of bad-request kinds that a message may be classified into.
pub trait FCMDeviceGroupError: Sized {
    /// Whether `r` is the classification of `message`.
    spec fn classifies(message: Seq<char>, r: Option<Self>) -> bool;

    /// Classifies a bad-request body; `None` when its message is not one of
    /// this set's.
    fn from_error_str(error: FCMDeviceGroupsBadRequest) -> (r: Option<Self>)
        ensures
            Self::classifies(error.error@, r),
    ;
}

impl FCMDeviceGroupError for FCMDeviceGroupsBadRequest {
    /// Every message is kept as it is.
    open spec fn classifies(message: Seq<char>, r: Option<Self>) -> bool {
        r matches Some(b) && b.error@ == message
    }

    fn from_error_str(error: FCMDeviceGroupsBadRequest) -> (r: Option<Self>) {
        Some(error)
    }
}

/// Bad-request kinds of creating a group.
#[derive(Debug, Clone, Copy, PartialEq, Eq, Structural)]
pub enum CreateGroupError {
    /// The group name is already taken.
    AlreadyExists,
    /// None of the registration ids is usable.
    NoValidRegistrationIds,
}

/// The create kind of a message.
pub open spec fn create_group_error_of(message: Seq<char>) -> Option<CreateGroupError> {
    if message == ALREADY_EXISTS_MESSAGE@ {
        Some(CreateGroupError::AlreadyExists)
    } else if message == NO_REGISTRATION_ID_MESSAGE@ {
        Some(CreateGroupError::NoValidRegistrationIds)
    } else {
        None
    }
}

/// The message of a create kind.
pub open spec fn create_group_message(e: CreateGroupError) -> Seq<char> {
    match e {
        CreateGroupError::AlreadyExists => ALREADY_EXISTS_MESSAGE@,
        CreateGroupError::NoValidRegistrationIds => NO_REGISTRATION_ID_MESSAGE@,
    }
}

impl FCMDeviceGroupError for CreateGroupError {
    open spec fn classifies(message: Seq<char>, r: Option<Self>) -> bool {
        r == create_group_error_of(message)
    }

    fn from_error_str(error: FCMDeviceGroupsBadRequest) -> (r: Option<Self>) {
        if error.error == String::from_str(ALREADY_EXISTS_MESSAGE) {
            Some(CreateGroupError::AlreadyExists)
        } else if error.error == String::from_str(NO_REGISTRATION_ID_MESSAGE) {
            Some(CreateGroupError::NoValidRegistrationIds)
        } else {
            None
        }
    }
}

impl CreateGroupError {
    /// The service's message for this kind.
    pub fn fmt(&self) -> (r: String)
        ensures
            r@ == create_group_message(*self),
    {
        match self {
            CreateGroupError::AlreadyExists => String::from_str(ALREADY_EXISTS_MESSAGE),
            CreateGroupError::NoValidRegistrationIds => String::from_str(NO_REGISTRATION_ID_MESSAGE),
        }
    }
}

/// Bad-request kinds of adding devices to a group or removing them.
#[derive(Debug, Clone, Copy, PartialEq, Eq, Structural)]
pub enum ChangeGroupMembersError {
    /// None of the registration ids is usable.
    NoValidRegistrationIds,
    /// The name and the key belong to different groups.
    KeyNameAndKeyDontMatch,
    /// No group has the key.
    KeyNotFound,
}

/// The add/remove kind of a message.
pub open spec fn change_group_members_error_of(message: Seq<char>) -> Option<ChangeGroupMembersError> {
    if message == NO_REGISTRATION_ID_MESSAGE@ {
        Some(ChangeGroupMembersError::NoValidRegistrationIds)
    } else if message == KEY_NAME_AND_KEY_DONT_MATCH@ {
        Some(ChangeGroupMembersError::KeyNameAndKeyDontMatch)
    } else if message == KEY_NOT_FOUND@ {
        Some(ChangeGroupMembersError::KeyNotFound)
    } else {
        None
    }
}

/// The message of an add/remove kind.
pub open spec fn change_group_members_message(e: ChangeGroupMembersError) -> Seq<char> {
    match e {
        ChangeGroupMembersError::NoValidRegistrationIds => NO_REGISTRATION_ID_MESSAGE@,
        ChangeGroupMembersError::KeyNameAndKeyDontMatch => KEY_NAME_AND_KEY_DONT_MATCH@,
        ChangeGroupMembersError::KeyNotFound => KEY_NOT_FOUND@,
    }
}

impl FCMDeviceGroupError for ChangeGroupMembersError {
    open spec fn classifies(message: Seq<char>, r: Option<Self>) -> bool {
        r == change_group_members_error_of(message)
    }

    fn from_error_str(error: FCMDeviceGroupsBadRequest) -> (r: Option<Self>) {
        if error.error == String::from_str(NO_REGISTRATION_ID_MESSAGE) {
            Some(ChangeGroupMembersError::NoValidRegistrationIds)
        } else if error.error == String::from_str(KEY_NAME_AND_KEY_DONT_MATCH) {
            Some(ChangeGroupMembersError::KeyNameAndKeyDontMatch)
        } else if error.error == String::from_str(KEY_NOT_FOUND) {
            Some(ChangeGroupMembersError::KeyNotFound)
        } else {
            None
        }
    }
}

impl ChangeGroupMembersError {
    /// The service's message for this kind.
    pub fn fmt(&self) -> (r: String)
        ensures
            r@ == change_group_members_message(*self),
    {
        match self {
            ChangeGroupMembersError::NoValidRegistrationIds => String::from_str(
                NO_REGISTRATION_ID_MESSAGE,
            ),
            ChangeGroupMembersError::KeyNameAndKeyDontMatch => String::from_str(
                KEY_NAME_AND_KEY_DONT_MATCH,
            ),
            ChangeGroupMembersError::KeyNotFound => String::from_str(KEY_NOT_FOUND),
        }
    }
}

/// Bad-request kinds of looking up a group's key.
#[derive(Debug, Clone, Copy, PartialEq, Eq, Structural)]
pub enum GetKeyError {
    /// No group has the name.
    KeyNotFound,
}

/// The lookup kind of a message.
pub open spec fn get_key_error_of(message: Seq<char>) -> Option<GetKeyError> {
    if message == KEY_NOT_FOUND@ {
        Some(GetKeyError::KeyNotFound)
    } else {
        None
    }
}

impl FCMDeviceGroupError for GetKeyError {
    open spec fn classifies(message: Seq<char>, r: Option<Self>) -> bool {
        r == get_key_error_of(message)
    }

    fn from_error_str(error: FCMDeviceGroupsBadRequest) -> (r: Option<Self>) {
        if error.error == String::from_str(KEY_NOT_FOUND) {
            Some(GetKeyError::KeyNotFound)
        } else {
            None
        }
    }
}

impl GetKeyError {
    /// The service's message for this kind.
    pub fn fmt(&self) -> (r: String)
        ensures
            r@ == KEY_NOT_FOUND@,
    {
        String::from_str(KEY_NOT_FOUND)
    }
}

/// Each message of the service's table classifies to its kind, for each
/// operation it belongs to, and the messages are pairwise distinct.
pub proof fn lemma_message_table()
    ensures
        create_group_error_of(ALREADY_EXISTS_MESSAGE@) == Some(CreateGroupError::AlreadyExists),
        create_group_error_of(NO_REGISTRATION_ID_MESSAGE@) == Some(
            CreateGroupError::NoValidRegistrationIds,
        ),
        change_group_members_error_of(NO_REGISTRATION_ID_MESSAGE@) == Some(
            ChangeGroupMembersError::NoValidRegistrationIds,
        ),
        change_group_members_error_of(KEY_NAME_AND_KEY_DONT_MATCH@) == Some(
            ChangeGroupMembersError::KeyNameAndKeyDontMatch,
        ),
        change_group_members_error_of(KEY_NOT_FOUND@) == Some(ChangeGroupMembersError::KeyNotFound),
        get_key_error_of(KEY_NOT_FOUND@) == Some(GetKeyError::KeyNotFound),
{
    reveal_strlit("notification_key already exists");
    reveal_strlit("no valid registration ids");
    reveal_strlit("notification_key_name doesn't match the group name of the notification_key");
    reveal_strlit("notification_key not found");
    assert(NO_REGISTRATION_ID_MESSAGE@.len() != ALREADY_EXISTS_MESSAGE@.len());
    assert(KEY_NAME_AND_KEY_DONT_MATCH@.len() != NO_REGISTRATION_ID_MESSAGE@.len());
}

/// Whether an HTTP status is a success (2xx).
pub open spec fn is_success(status: u16) -> bool {
    200 <= status <= 299
}

/// Error when making a device-group request; `E` is the set of bad-request
/// kinds of the operation.
#[derive(Debug, Clone)]
pub enum FCMDeviceGroupsRequestError<E> {
    /// The exchange failed: the HTTP status when there was one (a non-2xx
    /// answer not classified), none for a transport failure or a success body
    /// that does not decode.
    HttpError(Option<u16>),
    /// A bad request whose message is one of the operation's kinds.
    BadRequestError(E),
    /// The token provider failed, with its message; no request was sent.
    GetTokenError(String),
}

/// What a bad-request answer with message `message` turns into.
pub open spec fn bad_request_outcome<E: FCMDeviceGroupError>(
    message: Seq<char>,
    r: Result<OperationResponse, FCMDeviceGroupsRequestError<E>>,
) -> bool {
    ||| (r matches Err(FCMDeviceGroupsRequestError::BadRequestError(e)) && E::classifies(
        message,
        Some(e),
    ))
    ||| (E::classifies(message, None) && r == Err::<
        OperationResponse,
        FCMDeviceGroupsRequestError<E>,
    >(FCMDeviceGroupsRequestError::HttpError(Some(400))))
}

/// What an answer with `status` and `body` turns into: a 2xx decodes the key,
/// a 400 is classified by its message, anything else is an HTTP error.
pub open spec fn response_outcome<E: FCMDeviceGroupError>(
    status: u16,
    body: Seq<u8>,
    r: Result<OperationResponse, FCMDeviceGroupsRequestError<E>>,
) -> bool {
    if is_success(status) {
        match json_string_member(body, NOTIFICATION_KEY_KEY@) {
            Some(k) => r matches Ok(resp) && resp.notification_key@ == k,
            None => r == Err::<OperationResponse, FCMDeviceGroupsRequestError<E>>(
                FCMDeviceGroupsRequestError::HttpError(None),
            ),
        }
    } else if status == 400 {
        match json_string_member(body, ERROR_KEY@) {
            Some(m) => bad_request_outcome(m, r),
            None => r == Err::<OperationResponse, FCMDeviceGroupsRequestError<E>>(
                FCMDeviceGroupsRequestError::HttpError(Some(400)),
            ),
        }
    } else {
        r == Err::<OperationResponse, FCMDeviceGroupsRequestError<E>>(
            FCMDeviceGroupsRequestError::HttpError(Some(status)),
        )
    }
}

impl<E: FCMDeviceGroupError> FCMDeviceGroupsRequestError<E> {
    /// Turns an answer into the response body or an error: a 2xx decodes the
    /// key, a 400 is classified by the message of its body, any other status
    /// is an HTTP error without reading the body.
    pub fn json_response(status: u16, body: &[u8]) -> (r: Result<OperationResponse, Self>)
        ensures
            response_outcome(status, body@, r),
    {
        if 200 <= status && status <= 299 {
            match string_member(body, NOTIFICATION_KEY_KEY) {
                Some(k) => Ok(OperationResponse { notification_key: k }),
                None => Err(FCMDeviceGroupsRequestError::HttpError(None)),
            }
        } else if status == 400 {
            match string_member(body, ERROR_KEY) {
                Some(m) => match E::from_error_str(FCMDeviceGroupsBadRequest { error: m }) {
                    Some(e) => Err(FCMDeviceGroupsRequestError::BadRequestError(e)),
                    None => Err(FCMDeviceGroupsRequestError::HttpError(Some(400))),
                },
                None => Err(FCMDeviceGroupsRequestError::HttpError(Some(400))),
            }
        } else {
            Err(FCMDeviceGroupsRequestError::HttpError(Some(status)))
        }
    }
}

/// The bad-request error, or HTTP error with status 400, that a message gives.
pub open spec fn classified_error<E>(kind: Option<E>) -> Result<
    OperationResponse,
    FCMDeviceGroupsRequestError<E>,
> {
    match kind {
        Some(e) => Err(FCMDeviceGroupsRequestError::BadRequestError(e)),
        None => Err(FCMDeviceGroupsRequestError::HttpError(Some(400))),
    }
}

/// A 400 answer to a create whose body holds message `m` is the bad-request
/// error of m's kind, or an HTTP error with status 400 when `m` has no kind.
pub proof fn lemma_create_group_bad_request(
    body: Seq<u8>,
    m: Seq<char>,
    r: Result<OperationResponse, FCMDeviceGroupsRequestError<CreateGroupError>>,
)
    requires
        json_string_member(body, ERROR_KEY@) == Some(m),
        response_outcome(400, body, r),
    ensures
        r == classified_error(create_group_error_of(m)),
{
}

/// A 400 answer to an add or remove whose body holds message `m` is the
/// bad-request error of m's kind, or an HTTP error with status 400 when `m`
/// has no kind.
pub proof fn lemma_change_group_members_bad_request(
    body: Seq<u8>,
    m: Seq<char>,
    r: Result<OperationResponse, FCMDeviceGroupsRequestError<ChangeGroupMembersError>>,
)
    requires
        json_string_member(body, ERROR_KEY@) == Some(m),
        response_outcome(400, body, r),
    ensures
        r == classified_error(change_group_members_error_of(m)),
{
}

/// A 400 answer to a lookup whose body holds message `m` is the bad-request
/// error of m's kind, or an HTTP error with status 400 when `m` has no kind.
pub proof fn lemma_get_key_bad_request(
    body: Seq<u8>,
    m: Seq<char>,
    r: Result<OperationResponse, FCMDeviceGroupsRequestError<GetKeyError>>,
)
    requires
        json_string_member(body, ERROR_KEY@) == Some(m),
        response_outcome(400, body, r),
    ensures
        r == classified_error(get_key_error_of(m)),
{
}

/// An answer whose status is neither 2xx nor 400 is an HTTP error with that
/// status, whatever its body: the same outcome holds for any other body.
pub proof fn lemma_other_status_ignores_body<E: FCMDeviceGroupError>(
    status: u16,
    body: Seq<u8>,
    other: Seq<u8>,
    r: Result<OperationResponse, FCMDeviceGroupsRequestError<E>>,
)
    requires
        !is_success(status),
        status != 400,
        response_outcome(status, body, r),
    ensures
        r == Err::<OperationResponse, FCMDeviceGroupsRequestError<E>>(
            FCMDeviceGroupsRequestError::HttpError(Some(status)),
        ),
        response_outcome(status, other, r),
{
}

} // verus!
