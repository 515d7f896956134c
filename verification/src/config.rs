//! The engine's configuration: fee rates (parts per million), logging and
//! listening settings, push sinks, and plugin search paths. Parsing the
//! on-disk form is left to the host program; this is the validated shape the
//! engine works with.
use vstd::prelude::*;

use crate::consts::Kind;

verus! {

/// The default TCP port the engine accepts account spawn requests on.
pub const DEFAULT_LISTEN_PORT: i32 = 9527;

/// Fee rates in parts per million: broker commission, transfer fee, stamp
/// tax.
#[derive(Clone, Copy, Debug, PartialEq, Eq, Structural)]
pub struct Fee {
    pub broker: u32,
    pub transfer: u32,
    pub tax: u32,
}

impl Default for Fee {
    /// The standard schedule: 0.025% commission, 0.002% transfer, 0.1% tax.
    fn default() -> (r: Self)
        ensures
            r == (Fee { broker: 250u32, transfer: 20u32, tax: 1000u32 }),
    {
        Fee { broker: 250, transfer: 20, tax: 1000 }
    }
}

/// Where and how verbosely to log.
#[derive(Debug)]
pub struct Log {
    pub level: String,
    pub path: String,
}

impl Default for Log {
    fn default() -> (r: Self)
        ensures
            r.level@ == "info"@,
            r.path@ == Seq::<char>::empty(),
    {
        Log { level: "info".to_owned(), path: String::new() }
    }
}

/// The accept port for new account spawn requests.
#[derive(Clone, Copy, Debug, PartialEq, Eq, Structural)]
pub struct Listen {
    pub port: i32,
}

impl Default for Listen {
    fn default() -> (r: Self)
        ensures
            r.port == DEFAULT_LISTEN_PORT,
    {
        Listen { port: DEFAULT_LISTEN_PORT }
    }
}

/// An email notification sink.
#[derive(Debug)]
pub struct Email {
    pub smtp_host: String,
    pub smtp_port: i32,
    pub user: String,
    pub token: String,
    pub notify: String,
}

impl Default for Email {
    fn default() -> (r: Self)
        ensures
            r.smtp_host@ == Seq::<char>::empty(),
            r.smtp_port == 0,
            r.user@ == Seq::<char>::empty(),
            r.token@ == Seq::<char>::empty(),
            r.notify@ == Seq::<char>::empty(),
    {
        Email {
            smtp_host: String::new(),
            smtp_port: 0,
            user: String::new(),
            token: String::new(),
            notify: String::new(),
        }
    }
}

/// A wechat notification sink.
#[derive(Debug)]
pub struct Wechat {
    pub token: String,
}

impl Default for Wechat {
    fn default() -> (r: Self)
        ensures
            r.token@ == Seq::<char>::empty(),
    {
        Wechat { token: String::new() }
    }
}

/// The notification sinks, each optional.
#[derive(Debug)]
pub struct Push {
    pub email: Option<Email>,
    pub wechat: Option<Wechat>,
}

impl Default for Push {
    fn default() -> (r: Self)
        ensures
            r.email is None,
            r.wechat is None,
    {
        Push { email: None, wechat: None }
    }
}

/// Search paths for strategy, broker and risk plugins.
#[derive(Debug)]
pub struct Strategy {
    pub strategy: Vec<String>,
    pub broker: Vec<String>,
    pub risk: Vec<String>,
}

impl Default for Strategy {
    fn default() -> (r: Self)
        ensures
            r.strategy@.len() == 0,
            r.broker@.len() == 0,
            r.risk@.len() == 0,
    {
        Strategy { strategy: Vec::new(), broker: Vec::new(), risk: Vec::new() }
    }
}

/// The whole configuration; `init_cash` is in fixed-point money units.
#[derive(Debug)]
pub struct Config {
    pub init_cash: i128,
    pub data_path: String,
    pub mongodb: Option<String>,
    pub kind: Kind,
    pub fee: Fee,
    pub log: Log,
    pub listen: Listen,
    pub push: Push,
    pub strategy: Strategy,
}

impl Default for Config {
    fn default() -> (r: Self)
        ensures
            r.init_cash == 0,
            r.data_path@ == Seq::<char>::empty(),
            r.mongodb is None,
            r.kind is Stock,
            r.fee == (Fee { broker: 250u32, transfer: 20u32, tax: 1000u32 }),
            r.listen.port == DEFAULT_LISTEN_PORT,
            r.push.email is None,
            r.push.wechat is None,
    {
        Config {
            init_cash: 0,
            data_path: String::new(),
            mongodb: None,
            kind: Kind::Stock,
            fee: Fee { broker: 250, transfer: 20, tax: 1000 },
            log: Log { level: "info".to_owned(), path: String::new() },
            listen: Listen { port: DEFAULT_LISTEN_PORT },
            push: Push { email: None, wechat: None },
            strategy: Strategy { strategy: Vec::new(), broker: Vec::new(), risk: Vec::new() },
        }
    }
}

} // verus!
