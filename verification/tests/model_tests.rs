use backend::{
    Board, BoardUpdate, Card, CardUpdate, Claims, List, ListUpdate, ServiceError, User, UserUpdate,
};

#[test]
fn status_codes_follow_the_error_taxonomy() {
    assert_eq!(ServiceError::InternalServerError.status_code(), 500);
    assert_eq!(ServiceError::UserExists.status_code(), 403);
    assert_eq!(ServiceError::EmptyUpdate.status_code(), 400);
    assert_eq!(ServiceError::MissingToken.status_code(), 401);
    assert_eq!(ServiceError::InvalidToken.status_code(), 401);
    assert_eq!(ServiceError::ExpiredToken.status_code(), 401);
    assert_eq!(ServiceError::InvalidCredentials.status_code(), 401);
    assert_eq!(ServiceError::Forbidden.status_code(), 403);
    assert_eq!(ServiceError::NotFound.status_code(), 404);
}

#[test]
fn auth_errors_carry_bearer_challenge() {
    for e in [
        ServiceError::MissingToken,
        ServiceError::InvalidToken,
        ServiceError::ExpiredToken,
        ServiceError::InvalidCredentials,
    ] {
        let hs = e.headers().expect("auth errors carry a challenge");
        assert_eq!(hs, vec![("WWW-Authenticate", "Bearer")]);
    }
    for e in [
        ServiceError::InternalServerError,
        ServiceError::UserExists,
        ServiceError::EmptyUpdate,
        ServiceError::Forbidden,
        ServiceError::NotFound,
    ] {
        assert!(e.headers().is_none());
    }
}

#[test]
fn messages_are_stable_and_user_safe() {
    assert_eq!(ServiceError::InternalServerError.message(), "Internal server error");
    assert_eq!(ServiceError::UserExists.message(), "User with this email already exists");
    assert_eq!(ServiceError::MissingToken.message(), "Missing access token");
    assert_eq!(ServiceError::InvalidToken.message(), "Invalid access token");
    assert_eq!(ServiceError::ExpiredToken.message(), "Expired access token");
    assert_eq!(ServiceError::InvalidCredentials.message(), "Invalid user credentials");
}

#[test]
fn update_emptiness_per_resource() {
    assert!(BoardUpdate { id: 0, name: None, description: None }.is_empty());
    assert!(!BoardUpdate { id: 0, name: Some("n".to_string()), description: None }.is_empty());
    assert!(!BoardUpdate { id: 0, name: None, description: Some("d".to_string()) }.is_empty());
    assert!(ListUpdate { id: 0, name: None }.is_empty());
    assert!(!ListUpdate { id: 0, name: Some("n".to_string()) }.is_empty());
    assert!(CardUpdate { id: 0, content: None, labels: None }.is_empty());
    assert!(!CardUpdate { id: 0, content: Some("c".to_string()), labels: None }.is_empty());
    assert!(!CardUpdate { id: 0, content: None, labels: Some(vec!["l".to_string()]) }.is_empty());
    assert!(UserUpdate { id: 0, mail: None }.is_empty());
    assert!(!UserUpdate { id: 0, mail: Some("m".to_string()) }.is_empty());
}

#[test]
fn constructors_link_children_to_their_parent() {
    let u = User::new("a@b.c".to_string(), "hash".to_string());
    assert_eq!(u.mail, "a@b.c");
    assert_eq!(u.password, "hash");
    let b = Board::new(&u, "board".to_string(), Some("desc".to_string()));
    assert_eq!(b.owner, u.id);
    assert_eq!(b.name, "board");
    assert_eq!(b.description.as_deref(), Some("desc"));
    let l = List::new(&b, "list".to_string());
    assert_eq!(l.board, b.id);
    assert_eq!(l.name, "list");
    let c = Card::new(&l, Some("text".to_string()), Some(vec!["urgent".to_string()]));
    assert_eq!(c.list, l.id);
    assert_eq!(c.content.as_deref(), Some("text"));
    assert_eq!(c.labels, Some(vec!["urgent".to_string()]));
}

#[test]
fn fresh_ids_differ_between_constructions() {
    let u = User::new("a@b.c".to_string(), "h".to_string());
    let b1 = Board::new(&u, "one".to_string(), None);
    let b2 = Board::new(&u, "two".to_string(), None);
    assert_ne!(b1.id, b2.id);
}

#[test]
fn claims_are_time_bounded() {
    let c = Claims::new("sub".to_string(), 100, 50);
    assert_eq!(c.iat, 100);
    assert_eq!(c.exp, 150);
}
