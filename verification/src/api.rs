//! What the HTTP handlers answer: each handler's decision, from the outcome of the
//! database work the caller performed, to a status code and a body.

use vstd::prelude::*;
use crate::codec::{data_url_prefix, decode_image, image_data_url, spec_base64_decode, spec_image_data_url};
use crate::password::{check_password, spec_argon2_accepts, spec_phc_parses};
use crate::token::{spec_token_user, verify_token};
use vstd::string::StringSliceAdditionalSpecFns;

verus! {

pub const STATUS_OK: u16 = 200;
pub const STATUS_CREATED: u16 = 201;
pub const STATUS_BAD_REQUEST: u16 = 400;
pub const STATUS_UNAUTHORIZED: u16 = 401;
pub const STATUS_NOT_FOUND: u16 = 404;
pub const STATUS_INTERNAL_ERROR: u16 = 500;

/// The body of an answer.
#[derive(Debug, Clone, PartialEq, Eq)]
pub enum ReplyBody {
    /// No body.
    Empty,
    /// A JSON number: the id of a created or updated row.
    Id(i32),
    /// A plain-text message.
    Text(String),
    /// A JSON string.
    JsonText(String),
    /// The JSON object `{"usr_id": ..}` sent after a successful login.
    SignedIn { usr_id: i32 },
    /// The JSON object `{"user_id": ..}` naming the holder of a valid session token.
    TokenUser { user_id: i32 },
    /// The JSON of the record or records the handler fetched.
    Record,
}

/// An answer: an HTTP status code and a body.
#[derive(Debug, Clone, PartialEq, Eq)]
pub struct Reply {
    pub status: u16,
    pub body: ReplyBody,
}

/// `reply` carries `status` and the plain-text message `text`.
pub open spec fn is_text_reply(reply: Reply, status: u16, text: Seq<char>) -> bool {
    &&& reply.status == status
    &&& reply.body matches ReplyBody::Text(t) && t@ == text
}

/// `reply` carries `status` and the JSON string `text`.
pub open spec fn is_json_text_reply(reply: Reply, status: u16, text: Seq<char>) -> bool {
    &&& reply.status == status
    &&& reply.body matches ReplyBody::JsonText(t) && t@ == text
}

/// `reply` is the answer to an insertion: the new row's id with 201 Created, or the
/// handler's failure message with 500.
pub open spec fn is_insert_reply(reply: Reply, inserted: Result<i32, String>, failure: Seq<char>) -> bool {
    match inserted {
        Ok(id) => reply.status == STATUS_CREATED && reply.body == ReplyBody::Id(id),
        Err(_) => is_text_reply(reply, STATUS_INTERNAL_ERROR, failure),
    }
}

fn text_reply(status: u16, text: &str) -> (reply: Reply)
    ensures
        is_text_reply(reply, status, text@),
{
    Reply { status, body: ReplyBody::Text(String::from_str(text)) }
}

/// A bare 500 answer, given when a listing cannot be read from the database.
pub fn server_error_reply() -> (reply: Reply)
    ensures
        reply.status == STATUS_INTERNAL_ERROR,
        reply.body == ReplyBody::Empty,
{
    Reply { status: STATUS_INTERNAL_ERROR, body: ReplyBody::Empty }
}

/// The answer to an insertion that returns the new row's id.
pub fn insert_reply(inserted: Result<i32, String>, failure: &str) -> (reply: Reply)
    ensures
        is_insert_reply(reply, inserted, failure@),
{
    match inserted {
        Ok(id) => Reply { status: STATUS_CREATED, body: ReplyBody::Id(id) },
        Err(_) => text_reply(STATUS_INTERNAL_ERROR, failure),
    }
}

/// `POST /user`: the answer once the new account is inserted (or not).
pub fn create_user_reply(inserted: Result<i32, String>) -> (reply: Reply)
    ensures
        is_insert_reply(reply, inserted, "Failed to create user"@),
{
    insert_reply(inserted, "Failed to create user")
}

/// `POST /swipe`: the answer once the swipe is inserted (or not).
pub fn create_swipe_reply(inserted: Result<i32, String>) -> (reply: Reply)
    ensures
        is_insert_reply(reply, inserted, "Failed to create swipe"@),
{
    insert_reply(inserted, "Failed to create swipe")
}

/// `POST /log`: the answer once the log line is inserted (or not).
pub fn add_log_reply(inserted: Result<i32, String>) -> (reply: Reply)
    ensures
        is_insert_reply(reply, inserted, "Failed to add log"@),
{
    insert_reply(inserted, "Failed to add log")
}

/// `POST /cat`, first step: the uploaded Base64 text is decoded into the image to
/// store, or the request is refused with 400 when it is not valid Base64.
pub fn decode_cat_upload(image_base64: &str) -> (decoded: Result<Vec<u8>, Reply>)
    ensures
        spec_base64_decode(image_base64@) is None <==> decoded is Err,
        decoded matches Ok(image) ==> spec_base64_decode(image_base64@) == Some(image@),
        decoded matches Ok(image) ==> spec_image_data_url(image@) == data_url_prefix() + image_base64@,
        decoded matches Err(reply) ==> is_text_reply(reply, STATUS_BAD_REQUEST, "Invalid base64 image"@),
{
    match decode_image(image_base64) {
        Some(image) => Ok(image),
        None => Err(text_reply(STATUS_BAD_REQUEST, "Invalid base64 image")),
    }
}

/// `POST /cat`, second step: the answer once the image is inserted (or not).
pub fn create_cat_reply(inserted: Result<i32, String>) -> (reply: Reply)
    ensures
        is_insert_reply(reply, inserted, "Failed to create cat"@),
{
    insert_reply(inserted, "Failed to create cat")
}

/// `GET /user/{email}`: `found` tells whether the lookup found the user.
pub fn user_lookup_reply(found: Result<bool, String>) -> (reply: Reply)
    ensures
        found == Ok::<bool, String>(true) ==> reply.status == STATUS_OK && reply.body == ReplyBody::Record,
        found == Ok::<bool, String>(false) ==> is_text_reply(reply, STATUS_NOT_FOUND, "User not found"@),
        found is Err ==> is_text_reply(reply, STATUS_INTERNAL_ERROR, "DB error"@),
{
    match found {
        Ok(true) => Reply { status: STATUS_OK, body: ReplyBody::Record },
        Ok(false) => text_reply(STATUS_NOT_FOUND, "User not found"),
        Err(_) => text_reply(STATUS_INTERNAL_ERROR, "DB error"),
    }
}

/// `GET /logs/{usr_id}`: the logs read (ordered newest first by the query), or 500.
pub fn logs_reply(fetched: Result<(), String>) -> (reply: Reply)
    ensures
        fetched is Ok ==> reply.status == STATUS_OK && reply.body == ReplyBody::Record,
        fetched is Err ==> is_text_reply(reply, STATUS_INTERNAL_ERROR, "Failed to fetch logs"@),
{
    match fetched {
        Ok(()) => Reply { status: STATUS_OK, body: ReplyBody::Record },
        Err(_) => text_reply(STATUS_INTERNAL_ERROR, "Failed to fetch logs"),
    }
}

/// `DELETE /album/d/{id}`: the answer once the album entry is deleted (or not).
pub fn delete_reply(deleted: Result<(), String>) -> (reply: Reply)
    ensures
        deleted is Ok ==> is_text_reply(reply, STATUS_OK, "Deleted successfully"@),
        deleted is Err ==> is_text_reply(reply, STATUS_INTERNAL_ERROR, "Failed to delete"@),
{
    match deleted {
        Ok(()) => text_reply(STATUS_OK, "Deleted successfully"),
        Err(_) => text_reply(STATUS_INTERNAL_ERROR, "Failed to delete"),
    }
}

/// The account a login looks up by its login name.
#[derive(Debug, Clone, PartialEq, Eq)]
pub struct StoredUser {
    pub id: i32,
    pub pas_hash: String,
}

/// How a login attempt ends.
#[derive(Debug, Clone, PartialEq, Eq)]
pub enum LoginOutcome {
    /// The password matches: the user with this id is signed in.
    Granted(i32),
    /// The password does not match the stored hash.
    WrongPassword,
    /// No account has this login.
    UnknownUser,
    /// The lookup failed.
    DatabaseError,
    /// The stored hash is not a PHC string; the login cannot be decided.
    MalformedHash,
}

/// How a login with `password` ends, given the outcome of looking up its account.
pub open spec fn spec_login_outcome(lookup: Result<Option<StoredUser>, String>, password: Seq<u8>) -> LoginOutcome {
    match lookup {
        Ok(Some(user)) => {
            if !spec_phc_parses(user.pas_hash@) {
                LoginOutcome::MalformedHash
            } else if spec_argon2_accepts(password, user.pas_hash@) {
                LoginOutcome::Granted(user.id)
            } else {
                LoginOutcome::WrongPassword
            }
        },
        Ok(None) => LoginOutcome::UnknownUser,
        Err(_) => LoginOutcome::DatabaseError,
    }
}

/// A login with the password an account was registered with is granted: whenever the
/// stored hash is one that `hash_password` made of that password (it parses and the
/// password is accepted against it), the account's user is signed in.
pub proof fn registered_password_signs_in(user: StoredUser, password: Seq<u8>)
    requires
        spec_phc_parses(user.pas_hash@),
        spec_argon2_accepts(password, user.pas_hash@),
    ensures
        spec_login_outcome(Ok(Some(user)), password) == LoginOutcome::Granted(user.id),
{
}

/// How every login ends: a failed lookup is a database error, a missing account is an
/// unknown user, a stored hash that is not a PHC string cannot decide, and otherwise
/// the password is granted exactly when Argon2 accepts it against the stored hash and
/// refused as a wrong password (never as an unknown user) when it does not.
pub proof fn login_outcome_cases(lookup: Result<Option<StoredUser>, String>, password: Seq<u8>)
    ensures
        lookup is Err ==> spec_login_outcome(lookup, password) == LoginOutcome::DatabaseError,
        lookup == Ok::<Option<StoredUser>, String>(None) ==> spec_login_outcome(lookup, password) == LoginOutcome::UnknownUser,
        lookup matches Ok(Some(user)) ==> {
            &&& !spec_phc_parses(user.pas_hash@) ==> spec_login_outcome(lookup, password) == LoginOutcome::MalformedHash
            &&& spec_phc_parses(user.pas_hash@) && spec_argon2_accepts(password, user.pas_hash@)
                ==> spec_login_outcome(lookup, password) == LoginOutcome::Granted(user.id)
            &&& spec_phc_parses(user.pas_hash@) && !spec_argon2_accepts(password, user.pas_hash@)
                ==> spec_login_outcome(lookup, password) == LoginOutcome::WrongPassword
        },
        spec_login_outcome(lookup, password) is UnknownUser ==> lookup == Ok::<Option<StoredUser>, String>(None),
        spec_login_outcome(lookup, password) matches LoginOutcome::Granted(id) ==> (lookup matches Ok(Some(user))
            && user.id == id && spec_argon2_accepts(password, user.pas_hash@)),
{
}

/// `POST /auth`: decides a login from the outcome of looking up the account.
pub fn login_outcome(lookup: &Result<Option<StoredUser>, String>, password: &str) -> (outcome: LoginOutcome)
    ensures
        outcome == spec_login_outcome(*lookup, password.spec_bytes()),
        lookup is Err ==> outcome == LoginOutcome::DatabaseError,
        *lookup == Ok::<Option<StoredUser>, String>(None) ==> outcome == LoginOutcome::UnknownUser,
        lookup matches Ok(Some(user)) ==> {
            &&& !spec_phc_parses(user.pas_hash@) ==> outcome == LoginOutcome::MalformedHash
            &&& spec_phc_parses(user.pas_hash@) && spec_argon2_accepts(password.spec_bytes(), user.pas_hash@)
                ==> outcome == LoginOutcome::Granted(user.id)
            &&& spec_phc_parses(user.pas_hash@) && !spec_argon2_accepts(password.spec_bytes(), user.pas_hash@)
                ==> outcome == LoginOutcome::WrongPassword
        },
{
    match lookup {
        Ok(Some(user)) => {
            match check_password(password, user.pas_hash.as_str()) {
                None => LoginOutcome::MalformedHash,
                Some(true) => LoginOutcome::Granted(user.id),
                Some(false) => LoginOutcome::WrongPassword,
            }
        },
        Ok(None) => LoginOutcome::UnknownUser,
        Err(_) => LoginOutcome::DatabaseError,
    }
}

/// `POST /auth`: the answer to a decided login. A granted login also gets the
/// session cookie (see `session_cookie`).
pub fn login_reply(outcome: LoginOutcome) -> (reply: Reply)
    requires
        !(outcome is MalformedHash),
    ensures
        outcome matches LoginOutcome::Granted(id) ==> reply.status == STATUS_OK && reply.body == (ReplyBody::SignedIn { usr_id: id }),
        outcome is WrongPassword ==> is_json_text_reply(reply, STATUS_UNAUTHORIZED, "Invalid password"@),
        outcome is UnknownUser ==> is_text_reply(reply, STATUS_NOT_FOUND, "User not found"@),
        outcome is DatabaseError ==> is_text_reply(reply, STATUS_INTERNAL_ERROR, "Database error"@),
{
    match outcome {
        LoginOutcome::Granted(id) => Reply { status: STATUS_OK, body: ReplyBody::SignedIn { usr_id: id } },
        LoginOutcome::WrongPassword => Reply {
            status: STATUS_UNAUTHORIZED,
            body: ReplyBody::JsonText(String::from_str("Invalid password")),
        },
        LoginOutcome::UnknownUser => text_reply(STATUS_NOT_FOUND, "User not found"),
        _ => text_reply(STATUS_INTERNAL_ERROR, "Database error"),
    }
}

/// The cookie that carries a session token to the browser.
#[derive(Debug, Clone, PartialEq, Eq)]
pub struct SessionCookie {
    pub name: String,
    pub value: String,
    pub path: String,
    pub secure: bool,
    pub http_only: bool,
}

/// The name of the session cookie.
pub open spec fn session_cookie_name() -> Seq<char> {
    "auth_token"@
}

/// The name of the session cookie, for looking it up in a request.
pub fn session_cookie_key() -> (name: &'static str)
    ensures
        name@ == session_cookie_name(),
{
    "auth_token"
}

/// The session cookie for `token`: `auth_token`, for every path, sent over plain HTTP
/// too, and hidden from scripts.
pub fn session_cookie(token: String) -> (cookie: SessionCookie)
    ensures
        cookie.name@ == session_cookie_name(),
        cookie.value@ == token@,
        cookie.path@ == "/"@,
        !cookie.secure,
        cookie.http_only,
{
    SessionCookie {
        name: String::from_str("auth_token"),
        value: token,
        path: String::from_str("/"),
        secure: false,
        http_only: true,
    }
}

/// `reply` is the answer of `GET /protect` for the user a session token names.
pub open spec fn is_protected_reply(reply: Reply, user: Option<i32>) -> bool {
    match user {
        Some(id) => reply.status == STATUS_OK && reply.body == (ReplyBody::TokenUser { user_id: id }),
        None => is_text_reply(reply, STATUS_UNAUTHORIZED, "NotJWTToken"@),
    }
}

/// `GET /protect`: the answer for the user the session token names, if any.
pub fn protected_reply(user: Option<i32>) -> (reply: Reply)
    ensures
        is_protected_reply(reply, user),
{
    match user {
        Some(id) => Reply { status: STATUS_OK, body: ReplyBody::TokenUser { user_id: id } },
        None => text_reply(STATUS_UNAUTHORIZED, "NotJWTToken"),
    }
}

/// `GET /protect`: checks the session cookie's token, if the request has one, against
/// the secret by the machine's clock.
pub fn protected_route_reply(cookie_token: Option<&str>, secret: &str) -> (reply: Reply)
    ensures
        cookie_token is None ==> is_protected_reply(reply, None),
        cookie_token matches Some(token) ==> exists|now: u64|
            is_protected_reply(reply, #[trigger] spec_token_user(token@, secret@, now)),
{
    match cookie_token {
        Some(token) => protected_reply(verify_token(token, secret)),
        None => protected_reply(None),
    }
}

/// `GET /api/cat`: what the front end receives of a cat (the creation date travels
/// beside it unchanged).
#[derive(Debug, Clone, PartialEq, Eq)]
pub struct CatCard {
    pub id: i32,
    pub image: String,
    pub usr_id: i32,
}

/// `GET /api/cat`: a cat row shown as a card: its image as a `data:` URL and its maker.
pub fn cat_card(id: i32, image: &[u8], maker_id: i32) -> (card: CatCard)
    requires
        image@.len() <= usize::MAX / 2,
    ensures
        card.id == id,
        card.usr_id == maker_id,
        card.image@ == spec_image_data_url(image@),
{
    CatCard { id, image: image_data_url(image), usr_id: maker_id }
}

/// `GET /tops`: the images of the best-graded cats, in the order read, as `data:` URLs
/// (their average grades travel beside them unchanged).
pub fn top_cat_images(images: &Vec<Vec<u8>>) -> (urls: Vec<String>)
    requires
        forall|i: int| 0 <= i < images@.len() ==> (#[trigger] images@[i])@.len() <= usize::MAX / 2,
    ensures
        urls@.len() == images@.len(),
        forall|i: int| 0 <= i < images@.len() ==> (#[trigger] urls@[i])@ == spec_image_data_url(images@[i]@),
{
    let mut urls: Vec<String> = Vec::new();
    let n: usize = images.len();
    for k in 0..n
        invariant
            n == images@.len(),
            forall|i: int| 0 <= i < images@.len() ==> (#[trigger] images@[i])@.len() <= usize::MAX / 2,
            urls@.len() == k,
            forall|i: int| 0 <= i < k ==> (#[trigger] urls@[i])@ == spec_image_data_url(images@[i]@),
    {
        let url = image_data_url(images[k].as_slice());
        urls.push(url);
    }
    urls
}

/// An album entry as read from the database: the cat's image and the entry's id.
#[derive(Debug, Clone, PartialEq, Eq)]
pub struct AlbumRow {
    pub image: Vec<u8>,
    pub id: i32,
}

/// An album entry as the front end shows it.
#[derive(Debug, Clone, PartialEq, Eq)]
pub struct AlbumCard {
    pub image: String,
    pub id: i32,
}

/// `GET /album/{user_id}`: the user's album entries, in the order read (best graded
/// first), with their images as `data:` URLs.
pub fn album_cards(rows: &Vec<AlbumRow>) -> (cards: Vec<AlbumCard>)
    requires
        forall|i: int| 0 <= i < rows@.len() ==> (#[trigger] rows@[i]).image@.len() <= usize::MAX / 2,
    ensures
        cards@.len() == rows@.len(),
        forall|i: int| 0 <= i < rows@.len() ==> {
            &&& (#[trigger] cards@[i]).id == rows@[i].id
            &&& cards@[i].image@ == spec_image_data_url(rows@[i].image@)
        },
{
    let mut cards: Vec<AlbumCard> = Vec::new();
    let n: usize = rows.len();
    for k in 0..n
        invariant
            n == rows@.len(),
            forall|i: int| 0 <= i < rows@.len() ==> (#[trigger] rows@[i]).image@.len() <= usize::MAX / 2,
            cards@.len() == k,
            forall|i: int| 0 <= i < k ==> {
                &&& (#[trigger] cards@[i]).id == rows@[i].id
                &&& cards@[i].image@ == spec_image_data_url(rows@[i].image@)
            },
    {
        let row = &rows[k];
        let card = AlbumCard { image: image_data_url(row.image.as_slice()), id: row.id };
        cards.push(card);
    }
    cards
}

} // verus!
