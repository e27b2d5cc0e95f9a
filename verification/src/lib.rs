//! Core of a blog-platform backend: the request authentication gate and the
//! reaction ledger, together with the document model they operate on.
//!
//! The surrounding HTTP server, the real document store, object storage and
//! email dispatch are plumbing kept outside this library; everything here is
//! plain data and verified logic, with narrow trusted wrappers around the
//! password-hashing and token-signing crates.

pub mod crypto;
pub mod errors;
pub mod flows;
pub mod gate;
pub mod ids;
pub mod jwt;
pub mod models;
pub mod reactions;
pub mod store;
pub mod users;

use vstd::prelude::*;
use vstd::string::StringExecFns;

verus! {

/// A file received by upload, spooled to the local scratch directory before
/// it is relayed to object storage.
#[derive(Debug)]
pub struct Tmpfile {
    pub name: String,
    pub tmp_path: String,
}

impl Tmpfile {
    /// Place a received file under the scratch directory.
    pub fn new(filename: &str) -> (t: Tmpfile)
        ensures
            t.name@ == filename@,
            t.tmp_path@ == "./tmp/"@ + filename@,
    {
        let mut path: String = "./tmp/".to_owned();
        path.append(filename);
        Tmpfile { name: filename.to_owned(), tmp_path: path }
    }
}

/// The credentials the mail dispatcher sends with: read from the
/// environment by the caller and passed in once.
#[derive(Debug)]
pub struct Emailer {
    pub email: String,
    pub password: String,
}

impl Emailer {
    pub fn new(email: String, password: String) -> (m: Emailer)
        ensures
            m.email == email,
            m.password == password,
    {
        Emailer { email, password }
    }
}

/// Per-request identity slot: filled at most once by the authentication gate,
/// read-only afterwards for the lifetime of the request.
#[derive(Debug)]
pub struct AppData {
    pub user_id: Option<String>,
}

impl AppData {
    /// A fresh request context: nobody is identified yet.
    pub fn new() -> (d: AppData)
        ensures
            d.user_id is None,
    {
        AppData { user_id: None }
    }

    /// Publish the authenticated subject into the slot. The slot is
    /// write-once: it must still be empty.
    pub fn publish(&mut self, sub: String)
        requires
            old(self).user_id is None,
        ensures
            final(self).user_id == Some(sub),
    {
        self.user_id = Some(sub);
    }
}

/// Process-wide configuration, constructed once at start-up from values the
/// caller read out of its environment.
#[derive(Debug)]
pub struct Config {
    pub host: String,
    pub port: String,
    pub mongodb_uri: String,
    pub db_name: String,
    pub email: String,
    pub password: String,
}

impl Config {
    pub fn new(
        host: String,
        port: String,
        mongodb_uri: String,
        db_name: String,
        email: String,
        password: String,
    ) -> (c: Config)
        ensures
            c.host == host,
            c.port == port,
            c.mongodb_uri == mongodb_uri,
            c.db_name == db_name,
            c.email == email,
            c.password == password,
    {
        Config { host, port, mongodb_uri, db_name, email, password }
    }

    /// The credential service; it is stateless, so there is nothing to
    /// configure.
    pub fn crypto_services(&self) -> crate::crypto::CryptoService {
        crate::crypto::CryptoService
    }
}

} // verus!
