//! The web front end's decisions: what it requests, where, and what it does with
//! the answers.

use vstd::prelude::*;

verus! {

/// A signed-in user as the front end keeps it.
#[derive(Debug, Clone, PartialEq, Eq)]
pub struct Usr {
    pub id: i32,
}

/// The answer of the login endpoint as the front end reads it.
#[derive(Debug, Clone, PartialEq, Eq)]
pub struct LoginResponse {
    pub user_id: i32,
}

/// A user together with a flag the pages share.
#[derive(Debug, Clone, PartialEq, Eq)]
pub struct SignalUsr {
    pub user: Usr,
    pub flag: bool,
}

/// What a card shows: an image URL, and the album entry it stands for, if any.
#[derive(Debug, Clone, PartialEq, Eq)]
pub struct CardInfo {
    pub data: String,
    pub id: Option<i32>,
}

/// The decimal text of a digit.
pub open spec fn spec_digit_text(d: int) -> Seq<char> {
    if d == 0 { "0"@ }
    else if d == 1 { "1"@ }
    else if d == 2 { "2"@ }
    else if d == 3 { "3"@ }
    else if d == 4 { "4"@ }
    else if d == 5 { "5"@ }
    else if d == 6 { "6"@ }
    else if d == 7 { "7"@ }
    else if d == 8 { "8"@ }
    else { "9"@ }
}

/// The decimal digits of a natural number, most significant first, without
/// leading zeros.
pub open spec fn spec_digits(n: nat) -> Seq<char>
    decreases n,
{
    if n < 10 {
        spec_digit_text(n as int)
    } else {
        spec_digits(n / 10) + spec_digit_text((n % 10) as int)
    }
}

/// The decimal text of an integer, as `to_string` writes it.
pub open spec fn spec_decimal(n: int) -> Seq<char> {
    if n < 0 {
        "-"@ + spec_digits((-n) as nat)
    } else {
        spec_digits(n as nat)
    }
}

fn append_digit(text: &mut String, d: u32)
    requires
        d < 10,
    ensures
        final(text)@ == old(text)@ + spec_digit_text(d as int),
{
    if d == 0 { text.append("0"); }
    else if d == 1 { text.append("1"); }
    else if d == 2 { text.append("2"); }
    else if d == 3 { text.append("3"); }
    else if d == 4 { text.append("4"); }
    else if d == 5 { text.append("5"); }
    else if d == 6 { text.append("6"); }
    else if d == 7 { text.append("7"); }
    else if d == 8 { text.append("8"); }
    else { text.append("9"); }
}

fn append_digits(text: &mut String, n: u32)
    ensures
        final(text)@ == old(text)@ + spec_digits(n as nat),
    decreases n,
{
    if n >= 10 {
        append_digits(text, n / 10);
    }
    append_digit(text, n % 10);
    proof {
        if n < 10 {
            assert(n % 10 == n);
        }
    }
    assert(text@ =~= old(text)@ + spec_digits(n as nat));
}

/// Appends the decimal text of `n`.
pub fn append_decimal(text: &mut String, n: i32)
    ensures
        final(text)@ == old(text)@ + spec_decimal(n as int),
{
    if n < 0 {
        text.append("-");
        let magnitude: u32 = (-(n as i64)) as u32;
        append_digits(text, magnitude);
        assert(text@ =~= old(text)@ + spec_decimal(n as int));
    } else {
        append_digits(text, n as u32);
    }
}

/// The medal shown beside a place of the top list: gold, silver and bronze for the
/// first three places, nothing below.
pub fn get_cat_medal(n: usize) -> (medal: String)
    ensures
        n == 0 ==> medal@ == "🥇"@,
        n == 1 ==> medal@ == "🥈"@,
        n == 2 ==> medal@ == "🥉"@,
        n > 2 ==> medal@ == ""@,
{
    match n {
        0 => String::from_str("🥇"),
        1 => String::from_str("🥈"),
        2 => String::from_str("🥉"),
        _ => String::from_str(""),
    }
}

/// The two modes of the sign-in form.
#[derive(Debug, Clone, PartialEq, Eq)]
pub enum AuthAction {
    Login,
    Register,
}

/// A JSON `POST` the front end sends: where, and what (the body is sent as JSON with
/// `Content-Type: application/json`).
#[derive(Debug, Clone, PartialEq, Eq)]
pub struct PostRequest<B> {
    pub url: String,
    pub body: B,
}

/// The body of the sign-in form's request: the login, the e-mail address (as typed,
/// also when logging in) and the password, sent under `pas_hash`.
#[derive(Debug, Clone, PartialEq, Eq)]
pub struct UserInput {
    pub login: String,
    pub email: String,
    pub pas_hash: String,
}

/// The endpoint the sign-in form posts to: the login endpoint, or the one that
/// creates accounts.
pub fn auth_endpoint(action: AuthAction) -> (url: String)
    ensures
        action is Login ==> url@ == "http://localhost:3000/auth"@,
        action is Register ==> url@ == "http://localhost:3000/user"@,
{
    match action {
        AuthAction::Login => String::from_str("http://localhost:3000/auth"),
        AuthAction::Register => String::from_str("http://localhost:3000/user"),
    }
}

/// The one request a submitted sign-in form sends (with the browser's credentials):
/// to the endpoint of its mode, carrying the fields as typed.
pub fn auth_request(action: AuthAction, username: String, email: String, password: String) -> (request: PostRequest<UserInput>)
    ensures
        action is Login ==> request.url@ == "http://localhost:3000/auth"@,
        action is Register ==> request.url@ == "http://localhost:3000/user"@,
        request.body == (UserInput { login: username, email, pas_hash: password }),
{
    PostRequest { url: auth_endpoint(action), body: UserInput { login: username, email, pas_hash: password } }
}

/// Whether the form asks for an e-mail address: only when registering.
pub fn asks_for_email(action: AuthAction) -> (asks: bool)
    ensures
        asks == (action is Register),
{
    match action {
        AuthAction::Login => false,
        AuthAction::Register => true,
    }
}

/// The answer of the login endpoint: the signed-in user's id.
#[derive(Debug, Clone, PartialEq, Eq)]
pub struct AuthResponse {
    pub usr_id: i32,
}

/// The body of a 200 answer as the form reads it.
#[derive(Debug, Clone, PartialEq, Eq)]
pub enum AuthBody {
    /// The body's text could not be read.
    Unreadable,
    /// The text was read but is not the JSON of an `AuthResponse`.
    Unexpected,
    /// The text is the JSON of an `AuthResponse`.
    Parsed(AuthResponse),
}

/// What the browser's storage keeps after a successful login: the user id under
/// `usr`, and the session flag under `token`.
#[derive(Debug, Clone, PartialEq, Eq)]
pub struct StoredSession {
    pub usr: i32,
    pub token: bool,
}

/// What the sign-in form does with the server's answer.
#[derive(Debug, Clone, PartialEq, Eq)]
pub enum AuthStep {
    /// 200 with a readable `{usr_id}` body: store this session, then reload.
    SaveSessionAndReload(StoredSession),
    /// 200 whose body is not `{usr_id}`: store nothing, report it, reload.
    ReloadWithoutSaving,
    /// 200 whose body cannot be read: report it and stop (no reload).
    StopUnreadable,
    /// 201: the account exists now; switch the form to login and reload, storing nothing.
    SwitchToLoginAndReload,
    /// Any other status: report the failure and stay.
    ReportFailure,
    /// The request itself failed: forget the session flag.
    ForgetSession,
}

/// The step the sign-in form takes for the answer's status (`None` when the request
/// failed) and, for a 200 answer, its body.
pub fn auth_step(status: Option<u16>, body: AuthBody) -> (step: AuthStep)
    ensures
        status == Some(200u16) ==> match body {
            AuthBody::Parsed(r) => step == AuthStep::SaveSessionAndReload(StoredSession { usr: r.usr_id, token: true }),
            AuthBody::Unexpected => step is ReloadWithoutSaving,
            AuthBody::Unreadable => step is StopUnreadable,
        },
        status == Some(201u16) ==> step is SwitchToLoginAndReload,
        status matches Some(s) && s != 200 && s != 201 ==> step is ReportFailure,
        status is None ==> step is ForgetSession,
{
    match status {
        Some(200) => match body {
            AuthBody::Parsed(r) => AuthStep::SaveSessionAndReload(StoredSession { usr: r.usr_id, token: true }),
            AuthBody::Unexpected => AuthStep::ReloadWithoutSaving,
            AuthBody::Unreadable => AuthStep::StopUnreadable,
        },
        Some(201) => AuthStep::SwitchToLoginAndReload,
        Some(_) => AuthStep::ReportFailure,
        None => AuthStep::ForgetSession,
    }
}

/// A swipe the front end records.
#[derive(Debug, Clone, PartialEq, Eq)]
pub struct SwipeInput {
    pub usr_id: i32,
    pub cat_id: i32,
    pub swipe_chose: bool,
}

/// An album request the front end sends for a liked cat.
#[derive(Debug, Clone, PartialEq, Eq)]
pub struct AlbumUsrInput {
    pub id_usr: i32,
    pub id_cat: i32,
    pub usr_grade: i32,
}

/// The grade the front end asks for when a cat is liked.
pub const LIKED_GRADE: i32 = 5;

/// The requests a swipe sends, in this order: always the swipe, to
/// `http://localhost:3000/swipe`; for a liked cat then the album request with grade 5,
/// to `http://localhost:3000/album/`. A dropped cat sends nothing to the album.
pub fn swipe_requests(usr_id: i32, cat_id: i32, liked: bool) -> (requests: (PostRequest<SwipeInput>, Option<PostRequest<AlbumUsrInput>>))
    ensures
        requests.0.url@ == "http://localhost:3000/swipe"@,
        requests.0.body == (SwipeInput { usr_id, cat_id, swipe_chose: liked }),
        liked ==> (requests.1 matches Some(album) && album.url@ == "http://localhost:3000/album/"@
            && album.body == (AlbumUsrInput { id_usr: usr_id, id_cat: cat_id, usr_grade: LIKED_GRADE })),
        !liked ==> requests.1 is None,
{
    let swipe = PostRequest {
        url: String::from_str("http://localhost:3000/swipe"),
        body: SwipeInput { usr_id, cat_id, swipe_chose: liked },
    };
    if liked {
        let album = PostRequest {
            url: String::from_str("http://localhost:3000/album/"),
            body: AlbumUsrInput { id_usr: usr_id, id_cat: cat_id, usr_grade: LIKED_GRADE },
        };
        (swipe, Some(album))
    } else {
        (swipe, None)
    }
}

/// The URL of a user's album.
pub fn album_url(user_id: i32) -> (url: String)
    ensures
        url@ == "http://127.0.0.1:3000/album/"@ + spec_decimal(user_id as int),
{
    let mut url = String::from_str("http://127.0.0.1:3000/album/");
    append_decimal(&mut url, user_id);
    url
}

/// The key a card is rendered under: the decimal id of its album entry, or empty.
pub fn card_key(card: &CardInfo) -> (key: String)
    ensures
        card.id matches Some(id) ==> key@ == spec_decimal(id as int),
        card.id is None ==> key@ == Seq::<char>::empty(),
{
    let mut key = String::new();
    match card.id {
        Some(id) => {
            append_decimal(&mut key, id);
            assert(key@ =~= spec_decimal(id as int));
        },
        None => {},
    }
    key
}

/// What the delete button of a card requests: the deletion of its album entry when
/// it stands for one, nothing otherwise. The page reloads either way.
pub fn delete_url(card: &CardInfo) -> (url: Option<String>)
    ensures
        card.id is None ==> url is None,
        card.id matches Some(id) ==> (url matches Some(u) && u@ == "http://localhost:3000/album/d/"@ + spec_decimal(id as int)),
{
    match card.id {
        Some(id) => {
            let mut url = String::from_str("http://localhost:3000/album/d/");
            append_decimal(&mut url, id);
            Some(url)
        },
        None => None,
    }
}

/// The pages of the front end, reachable once signed in.
#[derive(Debug, Clone, Copy, PartialEq, Eq)]
pub enum Route {
    Home,
    TopCat,
    Favorite,
}

/// The path each page is served under.
pub fn route_path(route: Route) -> (path: &'static str)
    ensures
        route is Home ==> path@ == "/"@,
        route is TopCat ==> path@ == "/top_cat/"@,
        route is Favorite ==> path@ == "/favorite/"@,
{
    match route {
        Route::Home => "/",
        Route::TopCat => "/top_cat/",
        Route::Favorite => "/favorite/",
    }
}

/// What the front end knows of the session when it starts.
#[derive(Debug, Clone, Copy, PartialEq, Eq)]
pub struct SessionState {
    pub signed_in: bool,
    pub user_id: i32,
}

/// The session restored from the browser's storage: signed in when a session flag
/// can be read there (whatever its value), and the stored user id when there is one (0 otherwise).
pub fn restore_session(flag_stored: bool, stored_user: Option<i32>) -> (state: SessionState)
    ensures
        state.signed_in == flag_stored,
        stored_user matches Some(id) ==> state.user_id == id,
        stored_user is None ==> state.user_id == 0,
{
    let user_id: i32 = match stored_user {
        Some(id) => id,
        None => 0,
    };
    SessionState { signed_in: flag_stored, user_id }
}

/// The class the cat card takes as soon as it is swiped: to the right when liked,
/// to the left when dropped.
pub fn swipe_class(liked: bool) -> (class: String)
    ensures
        liked ==> class@ == "swipe-right"@,
        !liked ==> class@ == "swipe-left"@,
{
    if liked {
        String::from_str("swipe-right")
    } else {
        String::from_str("swipe-left")
    }
}

/// Where the swipe animation stands once the swipe's requests are sent.
#[derive(Debug, Clone, Copy, PartialEq, Eq)]
pub enum AnimationPhase {
    /// The requests were sent; the card is sliding out.
    Requested,
    /// A new cat was asked for.
    CatReloaded,
    /// The card plays its return animation.
    Restarting,
}

/// A change of the card's animation class.
#[derive(Debug, Clone, PartialEq, Eq)]
pub enum ClassChange {
    Replace(String),
    Clear,
}

/// One step of the swipe animation: wait, then ask for a new cat and/or change the
/// card's class, then go on to the next phase (none: the animation is over).
#[derive(Debug, Clone, PartialEq, Eq)]
pub struct AnimationStep {
    pub wait_ms: u32,
    pub reload_cat: bool,
    pub class_change: Option<ClassChange>,
    pub next: Option<AnimationPhase>,
}

/// The step the swipe animation takes from a phase: 800 ms after the requests a new
/// cat is asked for; 100 ms later the card takes the `restart` class; 200 ms later
/// its class is cleared and the animation ends.
pub fn animation_step(phase: AnimationPhase) -> (step: AnimationStep)
    ensures
        phase is Requested ==> step.wait_ms == 800 && step.reload_cat && step.class_change is None
            && step.next == Some(AnimationPhase::CatReloaded),
        phase is CatReloaded ==> step.wait_ms == 100 && !step.reload_cat
            && (step.class_change matches Some(ClassChange::Replace(c)) && c@ == "restart"@)
            && step.next == Some(AnimationPhase::Restarting),
        phase is Restarting ==> step.wait_ms == 200 && !step.reload_cat
            && step.class_change == Some(ClassChange::Clear) && step.next is None,
{
    match phase {
        AnimationPhase::Requested => AnimationStep {
            wait_ms: 800,
            reload_cat: true,
            class_change: None,
            next: Some(AnimationPhase::CatReloaded),
        },
        AnimationPhase::CatReloaded => AnimationStep {
            wait_ms: 100,
            reload_cat: false,
            class_change: Some(ClassChange::Replace(String::from_str("restart"))),
            next: Some(AnimationPhase::Restarting),
        },
        AnimationPhase::Restarting => AnimationStep {
            wait_ms: 200,
            reload_cat: false,
            class_change: Some(ClassChange::Clear),
            next: None,
        },
    }
}

} // verus!
