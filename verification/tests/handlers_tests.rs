use backend::handlers::{
    find_user_decision, login_check, new_card_decision, new_list_decision, patch_board_decision,
    patch_card_decision, patch_list_decision, patch_me_decision, register_user,
};
use backend::hashing::{hash_password, verify_password};
use backend::identity::parse_subject;
use backend::token::{verify_token, JWTConfig};
use backend::{
    Board, BoardUpdate, Card, CardUpdate, List, ListUpdate, ServiceError, User, UserUpdate,
};

const NOW: u64 = 1_700_000_000;
const USER_ID: u128 = 0x11111111_2222_3333_4444_555555555555;

fn config() -> JWTConfig {
    JWTConfig { key: "login-secret".to_string(), expiry_secs: 3600 }
}

#[test]
fn login_unknown_user_is_invalid_credentials() {
    let r = login_check(None, "password", &config(), NOW);
    assert_eq!(r.unwrap_err(), ServiceError::InvalidCredentials);
}

#[test]
fn login_wrong_password_is_invalid_credentials() {
    let stored = hash_password("right password").expect("hashing succeeds");
    let r = login_check(Some((USER_ID, stored)), "wrong password", &config(), NOW);
    assert_eq!(r.unwrap_err(), ServiceError::InvalidCredentials);
}

#[test]
fn login_issues_verifiable_token_for_the_user() {
    let cfg = config();
    let stored = hash_password("right password").expect("hashing succeeds");
    let token = login_check(Some((USER_ID, stored)), "right password", &cfg, NOW)
        .expect("correct password logs in");
    let claims = verify_token(&token, &cfg.key, NOW, 60).expect("issued token verifies");
    assert_eq!(claims.iat, NOW);
    assert_eq!(claims.exp, NOW + cfg.expiry_secs);
    let subject = parse_subject(&claims.sub).expect("subject is the user's id");
    assert_eq!(subject, USER_ID);
}

#[test]
fn register_existing_mail_is_user_exists() {
    let r = register_user("a@b.c".to_string(), "password", 1);
    assert_eq!(r.unwrap_err(), ServiceError::UserExists);
}

#[test]
fn register_stores_verifiable_hash() {
    let u = register_user("a@b.c".to_string(), "password", 0).expect("registration succeeds");
    assert_eq!(u.mail, "a@b.c");
    assert_ne!(u.password, "password");
    assert!(verify_password("password", &u.password));
    assert!(!verify_password("other", &u.password));
}

#[test]
fn find_user_decision_maps_absence_to_not_found() {
    let u = User { id: 5, mail: "a@b.c".to_string(), password: "h".to_string() };
    assert!(find_user_decision(Some(u)).is_ok());
    assert_eq!(find_user_decision(None).unwrap_err(), ServiceError::NotFound);
}

fn board() -> Board {
    Board { id: 1, owner: USER_ID, name: "board".to_string(), description: None }
}

fn list() -> List {
    List { id: 2, board: 1, name: "list".to_string() }
}

fn card() -> Card {
    Card { id: 3, list: 2, content: None, labels: None }
}

#[test]
fn new_list_requires_ownership() {
    let b = board();
    let r = new_list_decision(0xBB, Some(&b), "new list".to_string());
    assert_eq!(r.unwrap_err(), ServiceError::Forbidden);
    let r = new_list_decision(USER_ID, None, "new list".to_string());
    assert_eq!(r.unwrap_err(), ServiceError::NotFound);
    let l = new_list_decision(USER_ID, Some(&b), "new list".to_string()).expect("owner may add");
    assert_eq!(l.board, b.id);
    assert_eq!(l.name, "new list");
}

#[test]
fn new_card_requires_resolved_owned_chain() {
    let (b, l) = (board(), list());
    let c = new_card_decision(USER_ID, Some(&b), Some(&l), Some("text".to_string()), None)
        .expect("owner may add");
    assert_eq!(c.list, l.id);
    assert_eq!(c.content.as_deref(), Some("text"));
    let r = new_card_decision(0xBB, Some(&b), Some(&l), None, None);
    assert_eq!(r.unwrap_err(), ServiceError::Forbidden);
    let foreign = List { id: 2, board: 9, name: "x".to_string() };
    let r = new_card_decision(USER_ID, Some(&b), Some(&foreign), None, None);
    assert_eq!(r.unwrap_err(), ServiceError::NotFound);
    let r = new_card_decision(USER_ID, Some(&b), None, None, None);
    assert_eq!(r.unwrap_err(), ServiceError::NotFound);
}

#[test]
fn patch_board_rejects_empty_update_first() {
    let b = board();
    let empty = BoardUpdate { id: 0, name: None, description: None };
    let r = patch_board_decision(0xBB, Some(&b), empty);
    assert_eq!(r.unwrap_err(), ServiceError::EmptyUpdate);
}

#[test]
fn patch_board_authorizes_and_addresses_update() {
    let b = board();
    let data = BoardUpdate { id: 0, name: Some("renamed".to_string()), description: None };
    let d = patch_board_decision(USER_ID, Some(&b), data).expect("owner may patch");
    assert_eq!(d.id, b.id);
    assert_eq!(d.name.as_deref(), Some("renamed"));
    assert_eq!(d.description, None);
    let data = BoardUpdate { id: 0, name: Some("renamed".to_string()), description: None };
    let r = patch_board_decision(0xBB, Some(&b), data);
    assert_eq!(r.unwrap_err(), ServiceError::Forbidden);
    let data = BoardUpdate { id: 0, name: Some("renamed".to_string()), description: None };
    let r = patch_board_decision(USER_ID, None, data);
    assert_eq!(r.unwrap_err(), ServiceError::NotFound);
}

#[test]
fn patch_list_walks_the_chain() {
    let (b, l) = (board(), list());
    let data = ListUpdate { id: 0, name: Some("renamed".to_string()) };
    let d = patch_list_decision(USER_ID, Some(&b), Some(&l), data).expect("owner may patch");
    assert_eq!(d.id, l.id);
    assert_eq!(d.name.as_deref(), Some("renamed"));
    let empty = ListUpdate { id: 0, name: None };
    let r = patch_list_decision(USER_ID, Some(&b), Some(&l), empty);
    assert_eq!(r.unwrap_err(), ServiceError::EmptyUpdate);
    let data = ListUpdate { id: 0, name: Some("renamed".to_string()) };
    let r = patch_list_decision(USER_ID, Some(&b), None, data);
    assert_eq!(r.unwrap_err(), ServiceError::NotFound);
}

#[test]
fn patch_card_walks_the_chain() {
    let (b, l, c) = (board(), list(), card());
    let data = CardUpdate { id: 0, content: Some("new text".to_string()), labels: None };
    let d = patch_card_decision(USER_ID, Some(&b), Some(&l), Some(&c), data)
        .expect("owner may patch");
    assert_eq!(d.id, c.id);
    assert_eq!(d.content.as_deref(), Some("new text"));
    let mislinked = Card { id: 3, list: 42, content: None, labels: None };
    let data = CardUpdate { id: 0, content: Some("new text".to_string()), labels: None };
    let r = patch_card_decision(USER_ID, Some(&b), Some(&l), Some(&mislinked), data);
    assert_eq!(r.unwrap_err(), ServiceError::NotFound);
    let data = CardUpdate { id: 0, content: Some("new text".to_string()), labels: None };
    let r = patch_card_decision(0xBB, Some(&b), Some(&l), Some(&c), data);
    assert_eq!(r.unwrap_err(), ServiceError::Forbidden);
}

#[test]
fn patch_me_addresses_the_principal() {
    let u = User { id: 5, mail: "old@b.c".to_string(), password: "h".to_string() };
    let data = UserUpdate { id: 0, mail: Some("new@b.c".to_string()) };
    let d = patch_me_decision(&u, data).expect("non-empty update accepted");
    assert_eq!(d.id, u.id);
    assert_eq!(d.mail.as_deref(), Some("new@b.c"));
    let empty = UserUpdate { id: 0, mail: None };
    let r = patch_me_decision(&u, empty);
    assert_eq!(r.unwrap_err(), ServiceError::EmptyUpdate);
}
