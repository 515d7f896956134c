//! The dashboard's persisted state: which module is open, the settings pane,
//! the data-sync pane, and the trading pane with its strategy tree.
use vstd::prelude::*;

use crate::account::Account;

verus! {

/// The dashboard's traded kind, read from a label.
#[derive(Clone, Copy, Debug, PartialEq, Eq, Structural)]
pub enum Kind {
    Stock,
    Fund,
}

impl Default for Kind {
    fn default() -> (r: Self)
        ensures
            r is Stock,
    {
        Kind::Stock
    }
}

/// The lower-case form of a string, as `str::to_lowercase` computes it.
pub uninterp spec fn lower_of(s: Seq<char>) -> Seq<char>;

/// Relies on `str::to_lowercase`: the result depends on the characters alone.
#[verifier::external_body]
fn lowercase(s: &str) -> (r: String)
    ensures
        r@ == lower_of(s@),
{
    s.to_lowercase()
}

impl Kind {
    /// Reads a kind from its label, ignoring case: anything but `fund` is
    /// `Stock`.
    pub fn from_label(s: &str) -> (r: Self)
        ensures
            r is Fund <==> lower_of(s@) == "fund"@,
    {
        let ls = lowercase(s);
        if crate::strutil::str_eq_str(ls.as_str(), "fund") {
            Kind::Fund
        } else {
            Kind::Stock
        }
    }
}

/// Which dashboard module is open.
#[derive(Clone, Copy, Debug, PartialEq, Eq, Structural)]
pub enum Module {
    Data,
    Analyse,
    Backtest,
    Trade,
    Setting,
}

impl Default for Module {
    fn default() -> (r: Self)
        ensures
            r is Data,
    {
        Module::Data
    }
}

/// The email push settings shown in the settings pane.
#[derive(Debug)]
pub struct EmailPush {
    pub smtp_host: String,
    pub user: String,
    pub secret: String,
    pub notify: String,
}

/// The wechat push settings shown in the settings pane.
#[derive(Debug)]
pub struct WechatPush {
    pub token: String,
}

/// The settings pane's state, including the set of open windows.
#[derive(Debug)]
pub struct Settings {
    pub show: bool,
    pub open_windows: Vec<String>,
    pub db_url: String,
    pub db_is_testing: bool,
    pub db_is_valid: bool,
    pub email_push: EmailPush,
    pub wechat_push: WechatPush,
    pub broker_path: Vec<String>,
    pub strategy_path: Vec<String>,
    pub risk_path: Vec<String>,
}

/// One node of the strategy directory tree.
#[derive(Debug)]
pub struct TreePath {
    pub name: String,
    pub sub_path: Vec<TreePath>,
}

impl TreePath {
    pub fn new(name: &str) -> (r: Self)
        ensures
            r.name@ == name@,
            r.sub_path@.len() == 0,
    {
        TreePath { name: name.to_owned(), sub_path: Vec::new() }
    }
}

/// The trading pane's state.
#[derive(Debug)]
pub struct Trade {
    pub strategy_show: bool,
    pub strategy_is_build: bool,
    pub strategy: TreePath,
    pub strategy_running: Vec<(String, String)>,
    pub strategy_selected: String,
    pub account: Account,
}

/// One synchronized collection's status in the data pane.
#[derive(Debug)]
pub struct CollInfo {
    pub coll_name: String,
    pub last_sync: String,
    pub is_latest: bool,
}

/// The data pane's state.
#[derive(Debug)]
pub struct DataStore {
    pub stock_coll: Vec<CollInfo>,
    pub stock_auto_sync: String,
    pub stock_log: Vec<String>,
    pub stock_log_show: bool,
    pub fund_coll: Vec<CollInfo>,
    pub fund_auto_sync: String,
    pub fund_log: Vec<String>,
    pub fund_log_show: bool,
}

/// The whole dashboard state.
#[derive(Debug)]
pub struct Store {
    pub module: Module,
    pub settings: Settings,
    pub data: DataStore,
    pub trade: Trade,
    pub backtest: Trade,
}

} // verus!
