//! The shaping of each request to the device-group endpoint, the headers of
//! the client, and the turning of an answer into a device group.
use vstd::prelude::*;
use crate::error::{
    FCMDeviceGroupClientCreationError, FCMDeviceGroupError, FCMDeviceGroupsRequestError,
    json_string_member, response_outcome,
};
use crate::raw::{NOTIFICATION_KEY_KEY, NOTIFICATION_KEY_NAME_KEY, Operation, operation_json};
use crate::FCMDeviceGroup;

verus! {

/// Default URL of the device-group endpoint.
pub const FIREBASE_NOTIFICATION_URL: &'static str = "https://fcm.googleapis.com/fcm/notification";

/// OAuth scope asked of the token provider.
pub const FCM_DEVICE_GROUP_SCOPE: &'static str = "https://www.googleapis.com/auth/firebase.messaging";

/// Header that names the sender id.
pub const PROJECT_ID_HEADER: &'static str = "project_id";

/// Header that asks for access-token authentication.
pub const ACCESS_TOKEN_AUTH_HEADER: &'static str = "access_token_auth";

/// Value of the access-token authentication header.
pub const ACCESS_TOKEN_AUTH_VALUE: &'static str = "true";

/// Header that carries the bearer token.
pub const AUTHORIZATION_HEADER: &'static str = "authorization";

/// Prefix of the authorization value.
pub const BEARER_PREFIX: &'static str = "Bearer ";

/// Header that names the body's media type.
pub const CONTENT_TYPE_HEADER: &'static str = "content-type";

/// Media type of every request.
pub const JSON_CONTENT_TYPE: &'static str = "application/json";

/// Whether `s` can stand in an HTTP header value: each character is a tab, or
/// neither a control character below 32 nor DEL.
pub open spec fn valid_header_value(s: Seq<char>) -> bool {
    forall|i: int|
        0 <= i < s.len() ==> ((s[i] as u32 >= 32 && s[i] as u32 != 127) || s[i] == '\t')
}

/// Relies on `reqwest::header::HeaderValue::from_str` (the `http` crate's),
/// which accepts a text exactly when each of its bytes is a tab, or at least 32
/// and not 127; a character beyond ASCII has only bytes of 128 and more.
#[verifier::external_body]
fn is_valid_header_value(s: &str) -> (r: bool)
    ensures
        r == valid_header_value(s@),
{
    reqwest::header::HeaderValue::from_str(s).is_ok()
}

/// The views of a list of name/value pairs.
pub open spec fn pair_views(pairs: Seq<(String, String)>) -> Seq<(Seq<char>, Seq<char>)> {
    pairs.map_values(|p: (String, String)| (p.0@, p.1@))
}

/// The headers that a client sends with every request.
pub open spec fn default_header_views(sender_id: Seq<char>) -> Seq<(Seq<char>, Seq<char>)> {
    seq![(PROJECT_ID_HEADER@, sender_id), (ACCESS_TOKEN_AUTH_HEADER@, ACCESS_TOKEN_AUTH_VALUE@)]
}

/// The headers that a client installs for every request: the sender id as
/// `project_id`, and `access_token_auth: true`; an error when the sender id
/// cannot stand in a header value.
pub fn default_headers(sender_id: &str) -> (r: Result<
    Vec<(String, String)>,
    FCMDeviceGroupClientCreationError,
>)
    ensures
        r is Ok <==> valid_header_value(sender_id@),
        r matches Ok(h) ==> pair_views(h@) == default_header_views(sender_id@),
        r matches Err(e) ==> e == FCMDeviceGroupClientCreationError::InvalidHeaderValue,
{
    if !is_valid_header_value(sender_id) {
        return Err(FCMDeviceGroupClientCreationError::InvalidHeaderValue);
    }
    let mut headers: Vec<(String, String)> = Vec::new();
    headers.push((String::from_str(PROJECT_ID_HEADER), String::from_str(sender_id)));
    headers.push(
        (String::from_str(ACCESS_TOKEN_AUTH_HEADER), String::from_str(ACCESS_TOKEN_AUTH_VALUE)),
    );
    assert(pair_views(headers@) =~= default_header_views(sender_id@));
    Ok(headers)
}

/// HTTP method of a request.
#[derive(Debug, Clone, Copy, PartialEq, Eq, Structural)]
pub enum Method {
    /// A lookup.
    Get,
    /// An operation with a JSON body.
    Post,
}

/// A request ready to be sent to the endpoint, on top of the client's default
/// headers.
#[derive(Debug, Clone)]
pub struct PreparedRequest {
    /// HTTP method.
    pub method: Method,
    /// Query parameters, in order.
    pub query: Vec<(String, String)>,
    /// Headers of this request, in order.
    pub headers: Vec<(String, String)>,
    /// JSON body, if any.
    pub body: Option<String>,
}

/// The headers of one request: the JSON media type, and the bearer token when
/// the provider gave one.
pub open spec fn request_header_views(token: Option<Seq<char>>) -> Seq<(Seq<char>, Seq<char>)> {
    seq![(CONTENT_TYPE_HEADER@, JSON_CONTENT_TYPE@)] + match token {
        Some(t) => seq![(AUTHORIZATION_HEADER@, BEARER_PREFIX@ + t)],
        None => Seq::empty(),
    }
}

/// Every request names the JSON media type; it carries
/// `authorization: Bearer <token>` when the provider gave a token, and no
/// authorization header when it gave none.
pub proof fn lemma_authorization_policy(token: Option<Seq<char>>)
    ensures
        request_header_views(token).contains((CONTENT_TYPE_HEADER@, JSON_CONTENT_TYPE@)),
        token matches Some(t) ==> request_header_views(token).contains(
            (AUTHORIZATION_HEADER@, BEARER_PREFIX@ + t),
        ),
        token is None ==> forall|i: int|
            0 <= i < request_header_views(token).len() ==> request_header_views(token)[i].0
                != AUTHORIZATION_HEADER@,
{
    reveal_strlit("content-type");
    reveal_strlit("authorization");
    let h = request_header_views(token);
    assert(h[0] == (CONTENT_TYPE_HEADER@, JSON_CONTENT_TYPE@));
    if let Some(t) = token {
        assert(h[1] == (AUTHORIZATION_HEADER@, BEARER_PREFIX@ + t));
    } else {
        assert(h.len() == 1);
        assert(h[0].0.len() == 12);
        assert(AUTHORIZATION_HEADER@.len() == 13);
    }
}

/// The view of what the token provider answered: the token, if any.
pub open spec fn token_view(token: Option<String>) -> Option<Seq<char>> {
    match token {
        Some(t) => Some(t@),
        None => None,
    }
}

/// The headers of one request for what the token provider answered.
pub fn request_headers(token: Option<String>) -> (r: Vec<(String, String)>)
    ensures
        pair_views(r@) == request_header_views(token_view(token)),
{
    let mut headers: Vec<(String, String)> = Vec::new();
    headers.push((String::from_str(CONTENT_TYPE_HEADER), String::from_str(JSON_CONTENT_TYPE)));
    match token {
        Some(t) => {
            let mut value = String::from_str(BEARER_PREFIX);
            value.append(t.as_str());
            headers.push((String::from_str(AUTHORIZATION_HEADER), value));
        },
        None => {},
    }
    assert(pair_views(headers@) =~= request_header_views(token_view(token)));
    headers
}

/// Whether `req` is the POST of `op`: no query, the request headers for
/// `token`, and the operation's JSON as body.
pub open spec fn is_operation_request(
    req: PreparedRequest,
    op: Operation,
    token: Option<Seq<char>>,
) -> bool {
    &&& req.method == Method::Post
    &&& req.query@.len() == 0
    &&& pair_views(req.headers@) == request_header_views(token)
    &&& req.body is Some
    &&& req.body->Some_0@ == operation_json(op)
}

/// Whether `req` is the GET that looks up the group named `name`: the name as
/// the one query parameter, the request headers for `token`, and no body.
pub open spec fn is_get_key_request(
    req: PreparedRequest,
    name: Seq<char>,
    token: Option<Seq<char>>,
) -> bool {
    &&& req.method == Method::Get
    &&& pair_views(req.query@) == seq![(NOTIFICATION_KEY_NAME_KEY@, name)]
    &&& pair_views(req.headers@) == request_header_views(token)
    &&& req.body is None
}

/// The POST that applies `op`, given what the token provider answered: a
/// provider failure gives `GetTokenError` with its message and no request.
pub fn prepare_operation<E: FCMDeviceGroupError>(
    op: &Operation,
    token: Result<Option<String>, String>,
) -> (r: Result<PreparedRequest, FCMDeviceGroupsRequestError<E>>)
    ensures
        token matches Err(m) ==> (r matches Err(FCMDeviceGroupsRequestError::GetTokenError(m2))
            && m2@ == m@),
        token matches Ok(t) ==> (r matches Ok(req) && is_operation_request(
            req,
            *op,
            token_view(t),
        )),
{
    match token {
        Err(m) => Err(FCMDeviceGroupsRequestError::GetTokenError(m)),
        Ok(t) => Ok(
            PreparedRequest {
                method: Method::Post,
                query: Vec::new(),
                headers: request_headers(t),
                body: Some(op.to_json()),
            },
        ),
    }
}

/// The GET that looks up the key of the group named `notification_key_name`,
/// given what the token provider answered: a provider failure gives
/// `GetTokenError` with its message and no request.
pub fn prepare_get_key<E: FCMDeviceGroupError>(
    notification_key_name: &str,
    token: Result<Option<String>, String>,
) -> (r: Result<PreparedRequest, FCMDeviceGroupsRequestError<E>>)
    ensures
        token matches Err(m) ==> (r matches Err(FCMDeviceGroupsRequestError::GetTokenError(m2))
            && m2@ == m@),
        token matches Ok(t) ==> (r matches Ok(req) && is_get_key_request(
            req,
            notification_key_name@,
            token_view(t),
        )),
{
    match token {
        Err(m) => Err(FCMDeviceGroupsRequestError::GetTokenError(m)),
        Ok(t) => {
            let mut query: Vec<(String, String)> = Vec::new();
            query.push(
                (String::from_str(NOTIFICATION_KEY_NAME_KEY), String::from_str(notification_key_name)),
            );
            assert(pair_views(query@) =~= seq![(NOTIFICATION_KEY_NAME_KEY@, notification_key_name@)]);
            Ok(PreparedRequest { method: Method::Get, query, headers: request_headers(t), body: None })
        },
    }
}

/// The device group that an answer gives for a request made about the group
/// named `notification_key_name`: the name is carried over, the key comes
/// from the body.
pub fn device_group_response<E: FCMDeviceGroupError>(
    notification_key_name: String,
    status: u16,
    body: &[u8],
) -> (r: Result<FCMDeviceGroup, FCMDeviceGroupsRequestError<E>>)
    ensures
        r matches Ok(g) ==> g.notification_key_name@ == notification_key_name@,
        ({
            let resp = match r {
                Ok(g) => Ok(crate::raw::OperationResponse { notification_key: g.notification_key }),
                Err(e) => Err(e),
            };
            response_outcome(status, body@, resp)
        }),
{
    match FCMDeviceGroupsRequestError::<E>::json_response(status, body) {
        Ok(resp) => Ok(
            FCMDeviceGroup { notification_key_name, notification_key: resp.notification_key },
        ),
        Err(e) => Err(e),
    }
}

} // verus!
