use mimo::api::{
    acknowledged, change_reply, creation_reply, listing_reply, login, me_reply, not_logged_in,
    registration_hash, registration_reply, require_login, session_user, status_code,
    user_list_reply, Body, LoginVerdict, Reply, Status,
};
use mimo::password::{check_password, hash_password};
use mimo::records::{public_profile, User};
use mimo::text::text_contains;

fn user(id: i64, username: &str, name: &str, hash: &str) -> User {
    User {
        id,
        username: username.to_string(),
        name: name.to_string(),
        password_hash: hash.to_string(),
        created_at: "2025-01-01 10:00:00".to_string(),
    }
}

fn error_of(r: &Reply) -> (Status, String) {
    match &r.body {
        Body::Error { message } => (r.status, message.clone()),
        _ => panic!("not an error reply"),
    }
}

#[test]
fn status_numbers() {
    assert_eq!(status_code(Status::Success), 200);
    assert_eq!(status_code(Status::Unauthorized), 401);
    assert_eq!(status_code(Status::Conflict), 409);
    assert_eq!(status_code(Status::InternalError), 500);
}

#[test]
fn requests_without_a_session_are_refused() {
    assert_eq!(session_user(Ok(Some(7))), Some(7));
    assert_eq!(session_user(Ok(None)), None);
    assert_eq!(session_user(Err("bad cookie".to_string())), None);
    assert!(matches!(require_login(Some(3)), Ok(3)));
    match require_login(None) {
        Err(r) => assert_eq!(error_of(&r), (Status::Unauthorized, "未登录".to_string())),
        Ok(_) => panic!("must be refused"),
    }
    assert_eq!(error_of(&not_logged_in()), (Status::Unauthorized, "未登录".to_string()));
}

#[test]
fn me_answers_the_session() {
    let r = me_reply(Some(5), Some("张三".to_string()));
    assert_eq!(r.status, Status::Success);
    assert!(matches!(r.body, Body::Identity { id: 5, ref name } if name == "张三"));
    let r = me_reply(Some(5), None);
    assert!(matches!(r.body, Body::Identity { id: 5, ref name } if name.is_empty()));
    assert_eq!(error_of(&me_reply(None, None)).0, Status::Unauthorized);
}

#[test]
fn record_changes_are_answered() {
    let r = creation_reply(Ok(42));
    assert_eq!(r.status, Status::Success);
    assert!(matches!(r.body, Body::Created { id: 42 }));
    assert_eq!(
        error_of(&creation_reply(Err("FOREIGN KEY constraint failed".to_string()))),
        (Status::InternalError, "FOREIGN KEY constraint failed".to_string())
    );
    assert!(matches!(change_reply(Ok(0)).body, Body::Done));
    assert!(matches!(change_reply(Ok(1)).body, Body::Done));
    assert_eq!(error_of(&change_reply(Err("locked".to_string()))).0, Status::InternalError);
    assert!(matches!(acknowledged().body, Body::Done));
}

#[test]
fn listings_pass_rows_or_fail() {
    assert_eq!(listing_reply::<Vec<i32>>(Ok(vec![1, 2])).ok(), Some(vec![1, 2]));
    match listing_reply::<Vec<i32>>(Err("no such table".to_string())) {
        Err(r) => assert_eq!(error_of(&r), (Status::InternalError, "no such table".to_string())),
        Ok(_) => panic!("must fail"),
    }
}

#[test]
fn user_list_hides_password_hashes() {
    let users = vec![user(1, "alice", "Alice", "$2b$04$secret"), user(2, "bob", "Bob", "h")];
    let listed = user_list_reply(Ok(users)).ok().unwrap();
    assert_eq!(listed.len(), 2);
    assert_eq!((listed[0].id, listed[0].username.as_str(), listed[0].name.as_str()), (1, "alice", "Alice"));
    assert_eq!((listed[1].id, listed[1].username.as_str(), listed[1].name.as_str()), (2, "bob", "Bob"));
    let p = public_profile(&user(9, "c", "C", "x"));
    assert_eq!((p.id, p.username.as_str(), p.name.as_str()), (9, "c", "C"));
}

#[test]
fn duplicate_usernames_are_a_conflict() {
    let r = registration_reply(Err("UNIQUE constraint failed: users.username".to_string()));
    assert_eq!(error_of(&r), (Status::Conflict, "用户名已存在".to_string()));
    let r = registration_reply(Err("disk I/O error".to_string()));
    assert_eq!(error_of(&r), (Status::InternalError, "disk I/O error".to_string()));
    assert!(matches!(registration_reply(Ok(3)).body, Body::Created { id: 3 }));
}

#[test]
fn text_search() {
    assert!(text_contains("UNIQUE constraint failed", "UNIQUE"));
    assert!(text_contains("failed: UNIQUE", "UNIQUE"));
    assert!(!text_contains("unique constraint", "UNIQUE"));
    assert!(text_contains("abc", ""));
    assert!(!text_contains("UNIQ", "UNIQUE"));
    assert!(text_contains("键UNIQUE值", "UNIQUE"));
}

#[test]
fn hashes_are_bcrypt_hashes_of_the_password() {
    let h = hash_password("hunter2").unwrap();
    assert_ne!(h, "hunter2");
    assert_eq!(h.len(), 60);
    assert!(h.starts_with("$2b$04$"));
    assert!(check_password("hunter2", &h));
    assert!(!check_password("hunter3", &h));
    assert!(!check_password("hunter2", "not a hash"));
}

#[test]
fn checks_a_known_hash() {
    let hash = "$2b$04$EGdrhbKUv8Oc9vGiXX0HQOxSg445d458Muh7DAHskb6QbtCvdxcie";
    assert!(check_password("correctbatteryhorsestapler", hash));
    assert!(!check_password("wrong", hash));
}

#[test]
fn registered_password_signs_in() {
    let h = registration_hash("s3cret").ok().unwrap();
    let out = login(Ok(Some(user(4, "dave", "Dave", &h))), "s3cret");
    assert_eq!(out.verdict, LoginVerdict::Accepted);
    assert_eq!(out.reply.status, Status::Success);
    assert!(matches!(out.reply.body, Body::Identity { id: 4, ref name } if name == "Dave"));
    let s = out.session.unwrap();
    assert_eq!((s.user_id, s.user_name.as_str()), (4, "Dave"));
}

#[test]
fn failed_logins() {
    let h = registration_hash("s3cret").ok().unwrap();
    let out = login(Ok(Some(user(4, "dave", "Dave", &h))), "guess");
    assert_eq!(out.verdict, LoginVerdict::WrongPassword);
    assert_eq!(error_of(&out.reply), (Status::Unauthorized, "密码错误".to_string()));
    assert!(out.session.is_none());

    let out = login(Ok(Some(user(4, "dave", "Dave", "garbage"))), "s3cret");
    assert_eq!(out.verdict, LoginVerdict::WrongPassword);

    let out = login(Ok(None), "s3cret");
    assert_eq!(out.verdict, LoginVerdict::NoSuchUser);
    assert_eq!(error_of(&out.reply), (Status::Unauthorized, "用户不存在".to_string()));
    assert!(out.session.is_none());

    let out = login(Err("database is locked".to_string()), "s3cret");
    assert_eq!(out.verdict, LoginVerdict::LookupFailed);
    assert_eq!(error_of(&out.reply), (Status::InternalError, "database is locked".to_string()));
    assert!(out.session.is_none());
}

#[test]
fn text_search_agrees_with_str_contains() {
    let hays = ["", "U", "UNIQUE", "xUNIQUEx", "UNIQU", "NIQUE", "UUNIQUE", "constraint 约束 UNIQUE"];
    let needles = ["", "U", "UNIQUE", "QUE", "约束", "x"];
    for h in hays {
        for n in needles {
            assert_eq!(text_contains(h, n), h.contains(n), "{:?} in {:?}", n, h);
        }
    }
}

#[test]
fn registration_stores_a_cost_four_bcrypt_hash() {
    let h = registration_hash("pa55").ok().unwrap();
    assert_eq!(h.len(), 60);
    assert!(h.starts_with("$2b$04$"));
    assert_ne!(h, "pa55");
    assert!(check_password("pa55", &h));
}

#[test]
fn report_counts_default_to_zero() {
    assert_eq!(mimo::records::count_or_zero(Ok(17)), 17);
    assert_eq!(mimo::records::count_or_zero(Ok(0)), 0);
    assert_eq!(mimo::records::count_or_zero(Err("no such table: tasks".to_string())), 0);
}
