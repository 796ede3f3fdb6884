//! Connection settings from the parts of a connection URL.

use vstd::prelude::*;
use crate::decimal::{parse_u64, parse_u64_spec};
use crate::driver::{DriverView, MySQLStreamDriver, StreamCheckpointer, StreamFilter};
use crate::error::{ErrorKind, StreamError};
use crate::text::concat;

verus! {

/// The parts of a parsed connection URL.
#[derive(Clone, Debug, PartialEq)]
pub struct UrlParts {
    pub scheme: String,
    pub host: Option<String>,
    pub port: Option<u16>,
    /// Empty where the URL names no user.
    pub username: String,
    pub password: Option<String>,
    /// The query's key and value pairs, decoded, in order.
    pub query: Vec<(String, String)>,
}

pub const DEFAULT_PORT: u16 = 3306;

/// The replica id that `value` gives: a decimal `u32`, or none.
pub open spec fn server_id_of(value: Seq<char>) -> Option<u32> {
    match parse_u64_spec(value) {
        Ok(n) => if n <= u32::MAX {
            Some(n as u32)
        } else {
            None
        },
        Err(_) => None,
    }
}

/// The replica id that the first `server_id` pair of `query` gives, if any.
pub open spec fn query_server_id(query: Seq<(String, String)>) -> Option<u32>
    decreases query.len(),
{
    if query.len() == 0 {
        None
    } else if query[0].0@ == "server_id"@ {
        server_id_of(query[0].1@)
    } else {
        query_server_id(query.drop_first())
    }
}

fn parse_server_id(value: &String) -> (r: Option<u32>)
    ensures
        r == server_id_of(value@),
{
    match parse_u64(value.as_str()) {
        Ok(n) => if n <= u32::MAX as u64 {
            Some(n as u32)
        } else {
            None
        },
        Err(_) => None,
    }
}

fn find_server_id(query: &Vec<(String, String)>) -> (r: Option<u32>)
    ensures
        r == query_server_id(query@),
{
    let key = String::from_str("server_id");
    let n = query.len();
    let mut i: usize = 0;
    proof {
        reveal_strlit("server_id");
        assert(query@.subrange(0, n as int) =~= query@);
    }
    while i < n
        invariant
            n == query@.len(),
            i <= n,
            key@ == "server_id"@,
            query_server_id(query@) == query_server_id(query@.subrange(i as int, n as int)),
        decreases n - i,
    {
        proof {
            assert(query@.subrange(i as int, n as int).drop_first() =~= query@.subrange(
                i + 1,
                n as int,
            ));
        }
        if query[i].0 == key {
            return parse_server_id(&query[i].1);
        }
        i = i + 1;
    }
    proof {
        assert(query@.subrange(n as int, n as int).len() == 0);
    }
    None
}

/// A disconnected engine for the source that `url` names: the scheme must
/// be `mysql`; the host defaults to `localhost`, the port to 3306, the user
/// to `root` and the password to none; a `server_id` query pair sets the
/// replica id where it is a decimal `u32`.
pub fn create_driver<C: StreamCheckpointer, F: StreamFilter>(url: &UrlParts) -> (r: Result<
    MySQLStreamDriver<C, F>,
    StreamError,
>)
    ensures
        match r {
            Ok(d) => url.scheme@ == "mysql"@ && d.wf() && d@ == (DriverView {
                host: match url.host {
                    Some(h) => h@,
                    None => "localhost"@,
                },
                port: match url.port {
                    Some(p) => p,
                    None => DEFAULT_PORT,
                },
                user: if url.username@.len() == 0 {
                    "root"@
                } else {
                    url.username@
                },
                password: match url.password {
                    Some(p) => p@,
                    None => Seq::empty(),
                },
                server_id: query_server_id(url.query@),
                connected: false,
                started: false,
                position: 0,
                is_mariadb: false,
                use_gtid: false,
                gtid: None,
                file: None,
                offset: None,
                session_file: None,
                current: None,
                pending: Seq::empty(),
                tables: Map::empty(),
                has_checkpointer: false,
                has_filter: false,
            }),
            Err(e) => url.scheme@ != "mysql"@ && e.kind == ErrorKind::Connection && e.message@
                == "Unsupported protocol: "@ + url.scheme@,
        },
{
    let mysql = String::from_str("mysql");
    if url.scheme != mysql {
        return Err(
            StreamError::new(
                ErrorKind::Connection,
                concat("Unsupported protocol: ", url.scheme.as_str()),
            ),
        );
    }
    let host = match &url.host {
        Some(h) => h.clone(),
        None => String::from_str("localhost"),
    };
    let port = match url.port {
        Some(p) => p,
        None => DEFAULT_PORT,
    };
    let user = if url.username.as_str().unicode_len() == 0 {
        String::from_str("root")
    } else {
        url.username.clone()
    };
    let password = match &url.password {
        Some(p) => p.clone(),
        None => String::new(),
    };
    let server_id = find_server_id(&url.query);
    Ok(MySQLStreamDriver::new(host, port, user, password, server_id))
}

/// The first replica id a process hands out where none is configured: the
/// low 16 bits of the time in seconds plus a random 16-bit number.
pub fn initial_server_id(unix_secs: u64, random: u16) -> (r: u32)
    ensures
        r == unix_secs % 65536 + random,
{
    (unix_secs % 65536) as u32 + random as u32
}

} // verus!
