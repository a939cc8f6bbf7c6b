use vstd::prelude::*;

verus! {

/// Where the server listens and the key that password hashes are bound to.
#[derive(Clone, Debug)]
pub struct ServerConfig {
    pub host: String,
    pub port: i32,
    pub url: String,
    pub secret_key: String,
}

impl ServerConfig {
    /// The hashing service keyed with this server's secret.
    pub fn hashing_service(&self) -> (r: HashingService)
        ensures
            r.secret_key() == self.secret_key@,
    {
        HashingService::new(self.secret_key.clone())
    }
}

/// Holds the secret key that password hashes are made with.
#[derive(Clone, Debug)]
pub struct HashingService {
    secret_key: String,
}

impl HashingService {
    pub closed spec fn secret_key(&self) -> Seq<char> {
        self.secret_key@
    }

    pub fn new(secret_key: String) -> (r: HashingService)
        ensures
            r.secret_key() == secret_key@,
    {
        HashingService { secret_key }
    }

    /// The key, for the hasher.
    pub fn key(&self) -> (r: &str)
        ensures
            r@ == self.secret_key(),
    {
        self.secret_key.as_str()
    }
}

} // verus!
