//! Settings of the account service.
use vstd::prelude::*;

verus! {

/// All settings of the account service.
#[derive(Debug)]
pub struct Config {
    pub server: Server,
    pub db: Db,
    pub service: Service,
}

/// Where the service listens.
#[derive(Debug)]
pub struct Server {
    pub listen_ip: String,
    pub listen_port: u16,
}

/// The MySQL database the service uses.
#[derive(Debug)]
pub struct Db {
    pub url: String,
    pub max_connections: u32,
}

/// Behaviour of the service.
#[derive(Debug)]
pub struct Service {
    /// Seconds a session lives after it was last used.
    pub session_expired_time: i32,
}

impl Config {
    /// The settings in force before the command line is read.
    pub fn initial() -> (c: Config)
        ensures
            c.server.listen_ip@ == "127.0.0.1"@,
            c.server.listen_port == 27001,
            c.db.url@ == ""@,
            c.db.max_connections == 5,
            c.service.session_expired_time == 300,
    {
        Config {
            server: Server { listen_ip: "127.0.0.1".to_owned(), listen_port: 27001 },
            db: Db { url: "".to_owned(), max_connections: 5 },
            service: Service { session_expired_time: 300 },
        }
    }
}

} // verus!
