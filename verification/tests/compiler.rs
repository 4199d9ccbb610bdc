use backend::filters::{IntFilter, PostFilters, StringFilter, UserFilters};
use backend::values::Value;

fn int_none() -> IntFilter {
    IntFilter { equals: None, gt: None, lt: None, gte: None, lte: None }
}

fn string_none() -> StringFilter {
    StringFilter { equals: None, contains: None, starts_with: None, ends_with: None }
}

#[test]
fn empty_user_filter_compiles_empty() {
    let p = UserFilters::none().compile();
    assert_eq!(p.where_clause(), "");
    assert!(p.params.is_empty());
    assert!(p.conditions.is_empty());
}

#[test]
fn empty_post_filter_compiles_empty() {
    let p = PostFilters::none().compile();
    assert_eq!(p.where_clause(), "");
    assert!(p.params.is_empty());
}

#[test]
fn all_absent_members_compile_empty() {
    let f = UserFilters {
        id: Some(int_none()),
        name: Some(string_none()),
        age: Some(int_none()),
        email: Some(string_none()),
        phone: Some(string_none()),
    };
    let p = f.compile();
    assert_eq!(p.where_clause(), "");
    assert!(p.params.is_empty());
}

#[test]
fn placeholder_count_matches_params() {
    let f = UserFilters {
        id: Some(IntFilter { equals: None, gt: None, lt: None, gte: Some(18), lte: Some(65) }),
        name: Some(StringFilter {
            equals: None,
            contains: Some(String::from("ann")),
            starts_with: None,
            ends_with: None,
        }),
        age: None,
        email: None,
        phone: None,
    };
    let p = f.compile();
    assert_eq!(p.conditions.len(), p.params.len());
    assert_eq!(
        p.where_clause(),
        " WHERE id >= $1 AND id <= $2 AND name LIKE $3 ESCAPE '\\'"
    );
    assert_eq!(
        p.params,
        vec![
            Value::Int(18),
            Value::Int(65),
            Value::Text(String::from("%ann%")),
        ]
    );
}

#[test]
fn placeholders_are_sequential_past_nine() {
    let f = UserFilters {
        id: Some(IntFilter {
            equals: Some(1),
            gt: Some(2),
            lt: Some(3),
            gte: Some(4),
            lte: Some(5),
        }),
        name: Some(StringFilter {
            equals: Some(String::from("x")),
            contains: Some(String::from("c")),
            starts_with: Some(String::from("s")),
            ends_with: Some(String::from("e")),
        }),
        age: Some(IntFilter {
            equals: Some(6),
            gt: Some(7),
            lt: Some(8),
            gte: Some(9),
            lte: Some(10),
        }),
        email: None,
        phone: None,
    };
    let p = f.compile();
    assert_eq!(p.conditions.len(), 14);
    assert_eq!(p.params.len(), 14);
    assert_eq!(
        p.where_clause(),
        " WHERE id = $1 AND id > $2 AND id < $3 AND id >= $4 AND id <= $5 \
AND name = $6 AND name LIKE $7 ESCAPE '\\' AND name LIKE $8 ESCAPE '\\' \
AND name LIKE $9 ESCAPE '\\' AND age = $10 AND age > $11 AND age < $12 \
AND age >= $13 AND age <= $14"
    );
    assert_eq!(
        p.params,
        vec![
            Value::Int(1),
            Value::Int(2),
            Value::Int(3),
            Value::Int(4),
            Value::Int(5),
            Value::Text(String::from("x")),
            Value::Text(String::from("%c%")),
            Value::Text(String::from("s%")),
            Value::Text(String::from("%e")),
            Value::Int(6),
            Value::Int(7),
            Value::Int(8),
            Value::Int(9),
            Value::Int(10),
        ]
    );
}

#[test]
fn contains_operand_stays_out_of_sql() {
    let f = PostFilters {
        id: None,
        user_id: None,
        title: Some(StringFilter {
            equals: None,
            contains: Some(String::from("O'Brien")),
            starts_with: None,
            ends_with: None,
        }),
        content: None,
    };
    let p = f.compile();
    assert_eq!(p.where_clause(), " WHERE title LIKE $1 ESCAPE '\\'");
    assert_eq!(p.params, vec![Value::Text(String::from("%O'Brien%"))]);
}

#[test]
fn sql_text_is_operand_independent() {
    let mk = |needle: &str| PostFilters {
        id: None,
        user_id: None,
        title: Some(StringFilter {
            equals: None,
            contains: Some(String::from(needle)),
            starts_with: None,
            ends_with: None,
        }),
        content: None,
    };
    let benign = mk("abc").compile();
    let hostile = mk("'; DROP TABLE posts; --").compile();
    assert_eq!(benign.where_clause(), hostile.where_clause());
    assert_eq!(
        hostile.params,
        vec![Value::Text(String::from("%'; DROP TABLE posts; --%"))]
    );
}

#[test]
fn like_metacharacters_are_escaped() {
    let mk = |needle: &str| StringFilter {
        equals: None,
        contains: Some(String::from(needle)),
        starts_with: None,
        ends_with: None,
    };
    let f = PostFilters { id: None, user_id: None, title: Some(mk("100%")), content: None };
    assert_eq!(f.compile().params, vec![Value::Text(String::from("%100\\%%"))]);

    let f = PostFilters { id: None, user_id: None, title: Some(mk("a_b")), content: None };
    assert_eq!(f.compile().params, vec![Value::Text(String::from("%a\\_b%"))]);

    let f = PostFilters { id: None, user_id: None, title: Some(mk("a\\b")), content: None };
    assert_eq!(f.compile().params, vec![Value::Text(String::from("%a\\\\b%"))]);
}

#[test]
fn prefix_and_suffix_patterns() {
    let f = PostFilters {
        id: None,
        user_id: None,
        title: Some(StringFilter {
            equals: None,
            contains: None,
            starts_with: Some(String::from("ab")),
            ends_with: None,
        }),
        content: Some(StringFilter {
            equals: None,
            contains: None,
            starts_with: None,
            ends_with: Some(String::from("xy")),
        }),
    };
    let p = f.compile();
    assert_eq!(
        p.where_clause(),
        " WHERE title LIKE $1 ESCAPE '\\' AND content LIKE $2 ESCAPE '\\'"
    );
    assert_eq!(
        p.params,
        vec![
            Value::Text(String::from("ab%")),
            Value::Text(String::from("%xy")),
        ]
    );
}

#[test]
fn post_filter_field_order_is_declared_order() {
    let f = PostFilters {
        id: Some(IntFilter { equals: Some(3), gt: None, lt: None, gte: None, lte: None }),
        user_id: Some(IntFilter { equals: Some(9), gt: None, lt: None, gte: None, lte: None }),
        title: Some(StringFilter {
            equals: Some(String::from("t")),
            contains: None,
            starts_with: None,
            ends_with: None,
        }),
        content: None,
    };
    let p = f.compile();
    assert_eq!(p.where_clause(), " WHERE id = $1 AND user_id = $2 AND title = $3");
    assert_eq!(
        p.params,
        vec![
            Value::Int(3),
            Value::Int(9),
            Value::Text(String::from("t")),
        ]
    );
}
