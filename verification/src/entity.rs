use vstd::prelude::*;

verus! {

/// A Parent row materialized from the store. Timestamps are carried as
/// microseconds since the Unix epoch; the transport converts.
#[derive(Clone, Debug)]
pub struct User {
    pub id: i32,
    pub name: Option<String>,
    pub age: Option<i32>,
    pub email: Option<String>,
    pub phone: Option<String>,
    pub created_at: Option<i64>,
    pub updated_at: Option<i64>,
}

/// A Child row materialized from the store. `user_id` is the nullable
/// foreign key to its Parent; it may dangle. `created_at` is set once,
/// `updated_at` refreshed on every mutating write; both carried as
/// microseconds since the Unix epoch.
#[derive(Clone, Debug)]
pub struct Post {
    pub id: i32,
    pub user_id: Option<i32>,
    pub title: Option<String>,
    pub content: Option<String>,
    pub created_at: Option<i64>,
    pub updated_at: Option<i64>,
}

/// Fields of a Child creation request.
#[derive(Clone, Debug)]
pub struct CreatePostInput {
    pub user_id: i32,
    pub title: String,
    pub content: Option<String>,
}

/// Fields of a Child update request; absent fields stay untouched.
#[derive(Clone, Debug)]
pub struct UpdatePostInput {
    pub id: i32,
    pub title: Option<String>,
    pub content: Option<String>,
}

impl User {
    /// The unique, immutable identifier.
    pub fn id(&self) -> (r: i32)
        ensures
            r == self.id,
    {
        self.id
    }

    pub fn name(&self) -> (r: &Option<String>)
        ensures
            r == &self.name,
    {
        &self.name
    }

    pub fn age(&self) -> (r: &Option<i32>)
        ensures
            r == &self.age,
    {
        &self.age
    }

    pub fn email(&self) -> (r: &Option<String>)
        ensures
            r == &self.email,
    {
        &self.email
    }

    pub fn phone(&self) -> (r: &Option<String>)
        ensures
            r == &self.phone,
    {
        &self.phone
    }

    pub fn created_at(&self) -> (r: &Option<i64>)
        ensures
            r == &self.created_at,
    {
        &self.created_at
    }

    pub fn updated_at(&self) -> (r: &Option<i64>)
        ensures
            r == &self.updated_at,
    {
        &self.updated_at
    }
}

impl Post {
    /// The unique, immutable identifier.
    pub fn id(&self) -> (r: i32)
        ensures
            r == self.id,
    {
        self.id
    }

    /// The nullable foreign key referencing a Parent.
    pub fn user_id(&self) -> (r: &Option<i32>)
        ensures
            r == &self.user_id,
    {
        &self.user_id
    }

    pub fn title(&self) -> (r: &Option<String>)
        ensures
            r == &self.title,
    {
        &self.title
    }

    pub fn content(&self) -> (r: &Option<String>)
        ensures
            r == &self.content,
    {
        &self.content
    }

    pub fn created_at(&self) -> (r: &Option<i64>)
        ensures
            r == &self.created_at,
    {
        &self.created_at
    }

    pub fn updated_at(&self) -> (r: &Option<i64>)
        ensures
            r == &self.updated_at,
    {
        &self.updated_at
    }
}

} // verus!
