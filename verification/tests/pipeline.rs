use backend::api::{Mutation, Query};
use backend::entity::{CreatePostInput, Post, UpdatePostInput, User};
use backend::errors::ApiError;
use backend::filters::{IntFilter, PostFilters, UserFilters};
use backend::values::Value;

fn sample_user(id: i32) -> User {
    User {
        id,
        name: Some(String::from("Ann")),
        age: Some(34),
        email: None,
        phone: None,
        created_at: Some(1_700_000_000_000_000),
        updated_at: None,
    }
}

fn sample_post(id: i32, user_id: Option<i32>) -> Post {
    Post {
        id,
        user_id,
        title: Some(String::from("hello")),
        content: None,
        created_at: None,
        updated_at: None,
    }
}

#[test]
fn list_users_unconstrained() {
    let s = Query.users(&UserFilters::none());
    assert_eq!(s.sql, "SELECT * FROM users");
    assert!(s.params.is_empty());
}

#[test]
fn list_posts_with_filter() {
    let f = PostFilters {
        id: None,
        user_id: Some(IntFilter { equals: Some(7), gt: None, lt: None, gte: None, lte: None }),
        title: None,
        content: None,
    };
    let s = Query.posts(&f);
    assert_eq!(s.sql, "SELECT * FROM posts WHERE user_id = $1");
    assert_eq!(s.params, vec![Value::Int(7)]);
}

#[test]
fn get_post_by_id() {
    let s = Query.post(5);
    assert_eq!(s.sql, "SELECT * FROM posts WHERE id = $1");
    assert_eq!(s.params, vec![Value::Int(5)]);
}

#[test]
fn equals_filter_round_trips_with_get_by_id() {
    let f = PostFilters {
        id: Some(IntFilter { equals: Some(5), gt: None, lt: None, gte: None, lte: None }),
        user_id: None,
        title: None,
        content: None,
    };
    let by_filter = Query.posts(&f);
    let by_id = Query.post(5);
    assert_eq!(by_filter.sql, by_id.sql);
    assert_eq!(by_filter.params, by_id.params);
}

#[test]
fn create_post_checks_parent_first() {
    let input = CreatePostInput {
        user_id: 11,
        title: String::from("T"),
        content: Some(String::from("C")),
    };
    let probe = Mutation.create_post_check(&input);
    assert_eq!(probe.sql, "SELECT EXISTS(SELECT 1 FROM users WHERE id = $1)");
    assert_eq!(probe.params, vec![Value::Int(11)]);
}

#[test]
fn create_post_with_missing_parent_is_reference_error() {
    let input = CreatePostInput { user_id: 11, title: String::from("T"), content: None };
    let r = Mutation.create_post_apply(&input, false);
    match r {
        Err(ApiError::Reference) => {}
        _ => panic!("expected a reference failure"),
    }
    assert_eq!(Mutation.create_post_apply(&input, false).unwrap_err().message(), "User not found");
}

#[test]
fn create_post_with_existing_parent_inserts() {
    let input = CreatePostInput {
        user_id: 11,
        title: String::from("T"),
        content: Some(String::from("C")),
    };
    let s = Mutation.create_post_apply(&input, true).unwrap();
    assert_eq!(
        s.sql,
        "INSERT INTO posts (user_id, title, content) VALUES ($1, $2, $3) RETURNING *"
    );
    assert_eq!(
        s.params,
        vec![
            Value::Int(11),
            Value::Text(String::from("T")),
            Value::Text(String::from("C")),
        ]
    );
}

#[test]
fn create_post_without_content_binds_null() {
    let input = CreatePostInput { user_id: 2, title: String::from("T"), content: None };
    let s = Mutation.create_post_apply(&input, true).unwrap();
    assert_eq!(s.params, vec![Value::Int(2), Value::Text(String::from("T")), Value::Null]);
}

#[test]
fn update_post_checks_child_first() {
    let input = UpdatePostInput { id: 4, title: None, content: None };
    let probe = Mutation.update_post_check(&input);
    assert_eq!(probe.sql, "SELECT EXISTS(SELECT 1 FROM posts WHERE id = $1)");
    assert_eq!(probe.params, vec![Value::Int(4)]);
}

#[test]
fn update_missing_post_is_not_found() {
    let input = UpdatePostInput { id: 4, title: Some(String::from("X")), content: None };
    let r = Mutation.update_post_apply(&input, false);
    match r {
        Err(ApiError::NotFound) => {}
        _ => panic!("expected a not-found failure"),
    }
    assert_eq!(Mutation.update_post_apply(&input, false).unwrap_err().message(), "Post not found");
}

#[test]
fn update_with_no_fields_refetches_unchanged() {
    let input = UpdatePostInput { id: 4, title: None, content: None };
    let s = Mutation.update_post_apply(&input, true).unwrap();
    assert_eq!(s.sql, "SELECT * FROM posts WHERE id = $1");
    assert_eq!(s.params, vec![Value::Int(4)]);
}

#[test]
fn update_title_touches_only_title_and_timestamp() {
    let input = UpdatePostInput { id: 4, title: Some(String::from("X")), content: None };
    let s = Mutation.update_post_apply(&input, true).unwrap();
    assert_eq!(
        s.sql,
        "UPDATE posts SET title = $1, updated_at = CURRENT_TIMESTAMP WHERE id = $2 RETURNING *"
    );
    assert!(!s.sql.contains("content"));
    assert_eq!(s.params, vec![Value::Text(String::from("X")), Value::Int(4)]);
}

#[test]
fn update_content_only() {
    let input = UpdatePostInput { id: 4, title: None, content: Some(String::from("B")) };
    let s = Mutation.update_post_apply(&input, true).unwrap();
    assert_eq!(
        s.sql,
        "UPDATE posts SET content = $1, updated_at = CURRENT_TIMESTAMP WHERE id = $2 RETURNING *"
    );
    assert_eq!(s.params, vec![Value::Text(String::from("B")), Value::Int(4)]);
}

#[test]
fn update_both_fields() {
    let input = UpdatePostInput {
        id: 4,
        title: Some(String::from("X")),
        content: Some(String::from("B")),
    };
    let s = Mutation.update_post_apply(&input, true).unwrap();
    assert_eq!(
        s.sql,
        "UPDATE posts SET title = $1, content = $2, updated_at = CURRENT_TIMESTAMP WHERE id = $3 RETURNING *"
    );
    assert_eq!(
        s.params,
        vec![
            Value::Text(String::from("X")),
            Value::Text(String::from("B")),
            Value::Int(4),
        ]
    );
}

#[test]
fn delete_post_statement_and_outcome() {
    let s = Mutation.delete_post(7);
    assert_eq!(s.sql, "DELETE FROM posts WHERE id = $1");
    assert_eq!(s.params, vec![Value::Int(7)]);
    assert!(!Mutation.delete_post_result(0));
    assert!(Mutation.delete_post_result(1));
    assert!(Mutation.delete_post_result(12));
}

#[test]
fn child_parent_traversal_skips_dangling_key() {
    let orphan = sample_post(1, None);
    assert!(orphan.user_query().is_none());

    let owned = sample_post(2, Some(42));
    let s = owned.user_query().unwrap();
    assert_eq!(s.sql, "SELECT * FROM users WHERE id = $1");
    assert_eq!(s.params, vec![Value::Int(42)]);
}

#[test]
fn parent_children_traversal_orders_by_id() {
    let u = sample_user(42);
    let s = u.posts_query();
    assert_eq!(s.sql, "SELECT * FROM posts WHERE user_id = $1 ORDER BY id");
    assert_eq!(s.params, vec![Value::Int(42)]);
}

#[test]
fn storage_error_keeps_cause() {
    let e = ApiError::Storage(String::from("connection refused"));
    assert_eq!(e.message(), "connection refused");
}

#[test]
fn entity_accessors_return_fields() {
    let u = sample_user(8);
    assert_eq!(u.id(), 8);
    assert_eq!(u.name().as_deref(), Some("Ann"));
    assert_eq!(*u.age(), Some(34));
    assert_eq!(*u.email(), None);
    assert_eq!(*u.created_at(), Some(1_700_000_000_000_000));

    let p = sample_post(3, Some(8));
    assert_eq!(p.id(), 3);
    assert_eq!(*p.user_id(), Some(8));
    assert_eq!(p.title().as_deref(), Some("hello"));
    assert_eq!(*p.content(), None);
    assert_eq!(*p.updated_at(), None);
}
