use vstd::prelude::*;

verus! {

/// A post row. Identifiers are the 128-bit values of their UUIDs; timestamps
/// are microseconds since the Unix epoch.
#[derive(Clone, Debug)]
pub struct Post {
    pub id: u128,
    pub author_id: u128,
    pub slug: String,
    pub title: String,
    pub description: String,
    pub body: String,
    pub created_at: i64,
    pub updated_at: i64,
}

impl Post {
    /// A field-for-field copy.
    pub fn duplicate(&self) -> (r: Post)
        ensures
            r == *self,
    {
        Post {
            id: self.id,
            author_id: self.author_id,
            slug: self.slug.clone(),
            title: self.title.clone(),
            description: self.description.clone(),
            body: self.body.clone(),
            created_at: self.created_at,
            updated_at: self.updated_at,
        }
    }
}

/// A copy of each post, in order.
pub fn duplicate_posts(posts: &Vec<Post>) -> (r: Vec<Post>)
    ensures
        r@ == posts@,
{
    let mut r: Vec<Post> = Vec::new();
    let mut i: usize = 0;
    while i < posts.len()
        invariant
            i <= posts@.len(),
            r@ == posts@.subrange(0, i as int),
        decreases posts@.len() - i,
    {
        r.push(posts[i].duplicate());
        i = i + 1;
    }
    assert(r@ =~= posts@);
    r
}

/// The input of a post insert; without a slug one is generated.
#[derive(Clone, Debug)]
pub struct CreatePost {
    pub author_id: u128,
    pub slug: Option<String>,
    pub title: String,
    pub description: String,
    pub body: String,
}

/// A user row, with the same conventions as `Post`.
#[derive(Clone, Debug)]
pub struct User {
    pub id: u128,
    pub username: String,
    pub email: String,
    pub password: String,
    pub bio: Option<String>,
    pub image: Option<String>,
    pub created_at: i64,
    pub updated_at: i64,
}

impl User {
    pub fn id(&self) -> (r: u128)
        ensures
            r == self.id,
    {
        self.id
    }

    pub fn username(&self) -> (r: &str)
        ensures
            r@ == self.username@,
    {
        self.username.as_str()
    }

    pub fn email(&self) -> (r: &str)
        ensures
            r@ == self.email@,
    {
        self.email.as_str()
    }

    pub fn bio(&self) -> (r: Option<&str>)
        ensures
            r is Some <==> self.bio is Some,
            r is Some ==> r->Some_0@ == self.bio->Some_0@,
    {
        match &self.bio {
            Some(b) => Some(b.as_str()),
            None => None,
        }
    }

    pub fn image(&self) -> (r: Option<&str>)
        ensures
            r is Some <==> self.image is Some,
            r is Some ==> r->Some_0@ == self.image->Some_0@,
    {
        match &self.image {
            Some(b) => Some(b.as_str()),
            None => None,
        }
    }

    pub fn created_at(&self) -> (r: i64)
        ensures
            r == self.created_at,
    {
        self.created_at
    }

    pub fn updated_at(&self) -> (r: i64)
        ensures
            r == self.updated_at,
    {
        self.updated_at
    }
}

/// The input of a user insert; the password is hashed before it is stored.
#[derive(Clone, Debug)]
pub struct CreateUser {
    pub username: String,
    pub email: String,
    pub password: String,
    pub bio: Option<String>,
    pub image: Option<String>,
}

/// A comment row, with the same conventions as `Post`.
#[derive(Clone, Debug)]
pub struct Comment {
    pub id: u128,
    pub author_id: u128,
    pub post_id: u128,
    pub body: String,
    pub created_at: i64,
    pub updated_at: i64,
}

} // verus!
