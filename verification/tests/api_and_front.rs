use kotovoe::album::{
    album_next, album_reply, album_write_for, check_album_grade, AlbumAction, AlbumEvent, AlbumState, AlbumWrite,
};
use kotovoe::api::{
    add_log_reply, album_cards, cat_card, create_cat_reply, create_swipe_reply, create_user_reply,
    decode_cat_upload, delete_reply, login_outcome, login_reply, logs_reply, protected_reply,
    protected_route_reply, server_error_reply, session_cookie, top_cat_images, user_lookup_reply,
    AlbumCard, AlbumRow, LoginOutcome, Reply, ReplyBody, StoredUser,
};
use kotovoe::front::{
    album_url, asks_for_email, auth_endpoint, auth_request, auth_step, AuthBody, AuthResponse, PostRequest,
    StoredSession, UserInput, card_key, delete_url, get_cat_medal,
    animation_step, restore_session, route_path, swipe_class, AnimationPhase, AnimationStep, ClassChange, swipe_requests, AlbumUsrInput, AuthAction, AuthStep, CardInfo, Route,
    SessionState, SwipeInput,
};
use kotovoe::password::{check_password, hash_password};
use kotovoe::token::generate_jwt;

fn text(status: u16, t: &str) -> Reply {
    Reply { status, body: ReplyBody::Text(t.to_string()) }
}

#[test]
fn insert_replies() {
    assert_eq!(create_user_reply(Ok(3)), Reply { status: 201, body: ReplyBody::Id(3) });
    assert_eq!(create_user_reply(Err("x".into())), text(500, "Failed to create user"));
    assert_eq!(create_swipe_reply(Ok(8)), Reply { status: 201, body: ReplyBody::Id(8) });
    assert_eq!(create_swipe_reply(Err("x".into())), text(500, "Failed to create swipe"));
    assert_eq!(add_log_reply(Err("x".into())), text(500, "Failed to add log"));
    assert_eq!(create_cat_reply(Err("x".into())), text(500, "Failed to create cat"));
    assert_eq!(create_cat_reply(Ok(1)), Reply { status: 201, body: ReplyBody::Id(1) });
}

#[test]
fn cat_upload_decoding() {
    assert_eq!(decode_cat_upload("aGVsbG8="), Ok(b"hello".to_vec()));
    assert_eq!(decode_cat_upload("%%%"), Err(text(400, "Invalid base64 image")));
}

#[test]
fn lookup_and_listing_replies() {
    assert_eq!(user_lookup_reply(Ok(true)), Reply { status: 200, body: ReplyBody::Record });
    assert_eq!(user_lookup_reply(Ok(false)), text(404, "User not found"));
    assert_eq!(user_lookup_reply(Err("x".into())), text(500, "DB error"));
    assert_eq!(logs_reply(Ok(())), Reply { status: 200, body: ReplyBody::Record });
    assert_eq!(logs_reply(Err("x".into())), text(500, "Failed to fetch logs"));
    assert_eq!(delete_reply(Ok(())), text(200, "Deleted successfully"));
    assert_eq!(delete_reply(Err("x".into())), text(500, "Failed to delete"));
    assert_eq!(server_error_reply(), Reply { status: 500, body: ReplyBody::Empty });
}

#[test]
fn registered_password_is_granted_and_others_refused() {
    let phc = hash_password("meow123");
    assert!(phc.starts_with("$argon2id$"));
    assert_ne!(phc, "meow123");
    assert_eq!(check_password("meow123", &phc), Some(true));
    assert_eq!(check_password("meow124", &phc), Some(false));
    let user = StoredUser { id: 12, pas_hash: phc };
    let granted = login_outcome(&Ok(Some(user.clone())), "meow123");
    assert_eq!(granted, LoginOutcome::Granted(12));
    assert_eq!(login_reply(granted), Reply { status: 200, body: ReplyBody::SignedIn { usr_id: 12 } });
    let refused = login_outcome(&Ok(Some(user)), "woof");
    assert_eq!(refused, LoginOutcome::WrongPassword);
    assert_eq!(
        login_reply(refused),
        Reply { status: 401, body: ReplyBody::JsonText("Invalid password".to_string()) }
    );
}

#[test]
fn malformed_stored_hash() {
    assert_eq!(check_password("pw", "plain text"), None);
    let user = StoredUser { id: 1, pas_hash: "plain text".to_string() };
    assert_eq!(login_outcome(&Ok(Some(user)), "pw"), LoginOutcome::MalformedHash);
}

#[test]
fn login_lookup_failures() {
    assert_eq!(login_outcome(&Ok(None), "pw"), LoginOutcome::UnknownUser);
    assert_eq!(login_outcome(&Err("down".into()), "pw"), LoginOutcome::DatabaseError);
    assert_eq!(login_reply(LoginOutcome::UnknownUser), text(404, "User not found"));
    assert_eq!(login_reply(LoginOutcome::DatabaseError), text(500, "Database error"));
}

#[test]
fn session_cookie_settings() {
    let c = session_cookie("tok".to_string());
    assert_eq!(c.name, "auth_token");
    assert_eq!(c.value, "tok");
    assert_eq!(c.path, "/");
    assert!(!c.secure);
    assert!(c.http_only);
}

#[test]
fn protected_route_answers() {
    assert_eq!(protected_reply(Some(4)), Reply { status: 200, body: ReplyBody::TokenUser { user_id: 4 } });
    assert_eq!(protected_route_reply(None, "s"), text(401, "NotJWTToken"));
    assert_eq!(protected_route_reply(Some("junk"), "s"), text(401, "NotJWTToken"));
    let token = generate_jwt(4, "s");
    assert_eq!(
        protected_route_reply(Some(&token), "s"),
        Reply { status: 200, body: ReplyBody::TokenUser { user_id: 4 } }
    );
}

#[test]
fn listings_show_images_as_data_urls() {
    let card = cat_card(2, b"hello", 9);
    assert_eq!(card.id, 2);
    assert_eq!(card.usr_id, 9);
    assert_eq!(card.image, "data:image/jpeg;base64,aGVsbG8=");
    let urls = top_cat_images(&vec![b"a".to_vec(), b"hello".to_vec()]);
    assert_eq!(urls, vec!["data:image/jpeg;base64,YQ==".to_string(), "data:image/jpeg;base64,aGVsbG8=".to_string()]);
    assert!(top_cat_images(&vec![]).is_empty());
    let cards = album_cards(&vec![AlbumRow { image: b"hell".to_vec(), id: 5 }]);
    assert_eq!(cards, vec![AlbumCard { image: "data:image/jpeg;base64,aGVsbA==".to_string(), id: 5 }]);
}

#[test]
fn album_grade_range() {
    let refused = text(400, "usr_grade must be between 1 and 10");
    assert_eq!(check_album_grade(0), Err(refused.clone()));
    assert_eq!(check_album_grade(11), Err(refused.clone()));
    assert_eq!(check_album_grade(-3), Err(refused));
    assert_eq!(check_album_grade(1), Ok(()));
    assert_eq!(check_album_grade(10), Ok(()));
    assert_eq!(check_album_grade(5), Ok(()));
}

#[test]
fn album_writes() {
    assert_eq!(album_write_for(Ok(true)), Ok(AlbumWrite::IncrementGrade));
    assert_eq!(album_write_for(Ok(false)), Ok(AlbumWrite::Insert { grade: 5 }));
    assert_eq!(album_write_for(Err("x".into())), Err(Reply { status: 500, body: ReplyBody::Empty }));
}

#[test]
fn album_replies() {
    assert_eq!(album_reply(Ok(Some(17))), Reply { status: 201, body: ReplyBody::Id(17) });
    assert_eq!(album_reply(Ok(None)), Reply { status: 201, body: ReplyBody::Id(0) });
    assert_eq!(album_reply(Err("boom".into())), text(500, "Failed to update album: boom"));
}

#[test]
fn medals() {
    assert_eq!(get_cat_medal(0), "🥇");
    assert_eq!(get_cat_medal(1), "🥈");
    assert_eq!(get_cat_medal(2), "🥉");
    assert_eq!(get_cat_medal(3), "");
    assert_eq!(get_cat_medal(usize::MAX), "");
}

#[test]
fn sign_in_form() {
    assert_eq!(auth_endpoint(AuthAction::Login), "http://localhost:3000/auth");
    assert_eq!(auth_endpoint(AuthAction::Register), "http://localhost:3000/user");
    assert!(asks_for_email(AuthAction::Register));
    assert!(!asks_for_email(AuthAction::Login));
}

#[test]
fn login_request_and_answer() {
    let request = auth_request(AuthAction::Login, "cat".into(), "".into(), "pw".into());
    assert_eq!(
        request,
        PostRequest {
            url: "http://localhost:3000/auth".to_string(),
            body: UserInput { login: "cat".into(), email: "".into(), pas_hash: "pw".into() }
        }
    );
    assert_eq!(
        auth_step(Some(200), AuthBody::Parsed(AuthResponse { usr_id: 7 })),
        AuthStep::SaveSessionAndReload(StoredSession { usr: 7, token: true })
    );
}

#[test]
fn register_request_and_answer() {
    let request = auth_request(AuthAction::Register, "cat".into(), "c@k.ru".into(), "pw".into());
    assert_eq!(request.url, "http://localhost:3000/user");
    assert_eq!(request.body, UserInput { login: "cat".into(), email: "c@k.ru".into(), pas_hash: "pw".into() });
    assert_eq!(auth_step(Some(201), AuthBody::Unexpected), AuthStep::SwitchToLoginAndReload);
}

#[test]
fn odd_sign_in_answers() {
    assert_eq!(auth_step(Some(200), AuthBody::Unexpected), AuthStep::ReloadWithoutSaving);
    assert_eq!(auth_step(Some(200), AuthBody::Unreadable), AuthStep::StopUnreadable);
    assert_eq!(auth_step(Some(401), AuthBody::Unexpected), AuthStep::ReportFailure);
    assert_eq!(auth_step(Some(500), AuthBody::Parsed(AuthResponse { usr_id: 1 })), AuthStep::ReportFailure);
    assert_eq!(auth_step(None, AuthBody::Unreadable), AuthStep::ForgetSession);
}

#[test]
fn swipes() {
    let (swipe, album) = swipe_requests(4, 9, true);
    assert_eq!(swipe.url, "http://localhost:3000/swipe");
    assert_eq!(swipe.body, SwipeInput { usr_id: 4, cat_id: 9, swipe_chose: true });
    let album = album.unwrap();
    assert_eq!(album.url, "http://localhost:3000/album/");
    assert_eq!(album.body, AlbumUsrInput { id_usr: 4, id_cat: 9, usr_grade: 5 });
    let (swipe, album) = swipe_requests(3, 8, false);
    assert_eq!(
        swipe,
        PostRequest {
            url: "http://localhost:3000/swipe".to_string(),
            body: SwipeInput { usr_id: 3, cat_id: 8, swipe_chose: false }
        }
    );
    assert_eq!(album, None);
}

#[test]
fn urls_and_keys() {
    assert_eq!(album_url(42), "http://127.0.0.1:3000/album/42");
    assert_eq!(album_url(0), "http://127.0.0.1:3000/album/0");
    let card = CardInfo { data: "x".into(), id: Some(-15) };
    assert_eq!(card_key(&card), "-15");
    assert_eq!(delete_url(&card), Some("http://localhost:3000/album/d/-15".to_string()));
    let none = CardInfo { data: "x".into(), id: None };
    assert_eq!(card_key(&none), "");
    assert_eq!(delete_url(&none), None);
    for n in [i32::MIN, -1, 7, 10, 99, 100, 123456, i32::MAX] {
        let c = CardInfo { data: String::new(), id: Some(n) };
        assert_eq!(card_key(&c), n.to_string());
    }
}

#[test]
fn routes() {
    assert_eq!(route_path(Route::Home), "/");
    assert_eq!(route_path(Route::TopCat), "/top_cat/");
    assert_eq!(route_path(Route::Favorite), "/favorite/");
}

#[test]
fn session_restore() {
    assert_eq!(restore_session(true, Some(9)), SessionState { signed_in: true, user_id: 9 });
    assert_eq!(restore_session(false, None), SessionState { signed_in: false, user_id: 0 });
    assert_eq!(restore_session(false, Some(4)), SessionState { signed_in: false, user_id: 4 });
}

#[test]
fn swipe_animation() {
    assert_eq!(swipe_class(true), "swipe-right");
    assert_eq!(swipe_class(false), "swipe-left");
    assert_eq!(
        animation_step(AnimationPhase::Requested),
        AnimationStep { wait_ms: 800, reload_cat: true, class_change: None, next: Some(AnimationPhase::CatReloaded) }
    );
    assert_eq!(
        animation_step(AnimationPhase::CatReloaded),
        AnimationStep {
            wait_ms: 100,
            reload_cat: false,
            class_change: Some(ClassChange::Replace("restart".to_string())),
            next: Some(AnimationPhase::Restarting)
        }
    );
    assert_eq!(
        animation_step(AnimationPhase::Restarting),
        AnimationStep { wait_ms: 200, reload_cat: false, class_change: Some(ClassChange::Clear), next: None }
    );
}

#[test]
fn uploaded_cat_is_shown_as_uploaded() {
    let upload = "aGVsbG8gY2F0IQ==";
    let image = decode_cat_upload(upload).unwrap();
    let card = cat_card(1, &image, 2);
    assert_eq!(card.image, format!("data:image/jpeg;base64,{}", upload));
}

#[test]
fn second_like_of_a_new_cat() {
    assert_eq!(album_write_for(Ok(false)), Ok(AlbumWrite::Insert { grade: 5 }));
    assert_eq!(album_write_for(Ok(true)), Ok(AlbumWrite::IncrementGrade));
}

#[test]
fn album_request_runs_write_then_recompute_then_answer() {
    let (s1, a1) = album_next(AlbumState::Received, AlbumEvent::Requested { usr_grade: 5 });
    assert_eq!((&s1, &a1), (&AlbumState::LookingUp, &AlbumAction::LookUp));
    let (s2, a2) = album_next(s1, AlbumEvent::LookedUp(Ok(false)));
    assert_eq!((&s2, &a2), (&AlbumState::Writing, &AlbumAction::Write(AlbumWrite::Insert { grade: 5 })));
    let (s3, a3) = album_next(s2, AlbumEvent::Written(Ok(Some(12))));
    assert_eq!((&s3, &a3), (&AlbumState::Recomputing(Ok(Some(12))), &AlbumAction::RecomputeCatGrade));
    let (s4, a4) = album_next(s3, AlbumEvent::CatGradeRecomputed);
    assert_eq!(s4, AlbumState::Answered);
    assert_eq!(a4, AlbumAction::Answer(Reply { status: 201, body: ReplyBody::Id(12) }));
}

#[test]
fn album_request_failures() {
    let (s, a) = album_next(AlbumState::Received, AlbumEvent::Requested { usr_grade: 11 });
    assert_eq!(s, AlbumState::Answered);
    assert_eq!(a, AlbumAction::Answer(text(400, "usr_grade must be between 1 and 10")));
    let (s, a) = album_next(AlbumState::LookingUp, AlbumEvent::LookedUp(Err("down".into())));
    assert_eq!(s, AlbumState::Answered);
    assert_eq!(a, AlbumAction::Answer(Reply { status: 500, body: ReplyBody::Empty }));
    let (s, a) = album_next(AlbumState::Writing, AlbumEvent::Written(Err("boom".into())));
    assert_eq!(a, AlbumAction::RecomputeCatGrade);
    let (_, a) = album_next(s, AlbumEvent::CatGradeRecomputed);
    assert_eq!(a, AlbumAction::Answer(text(500, "Failed to update album: boom")));
}
