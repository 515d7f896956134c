//! The data model's smaller pieces: time values, labels, defaults, the index
//! table, the protocol header, and the dashboard state.
use bbq::clock::Ts;
use bbq::config::{Config, Fee, Listen};
use bbq::consts::{AcctStatus, AcctType, ActionType, Kind};
use bbq::entrust::{EntrustStatus, EntrustType};
use bbq::fetch::is_index;
use bbq::ids::get_id;
use bbq::fetch::{Level, Quot};
use bbq::proto::{Header, Push, PROTO_VERSION};
use bbq::signal::SignalType;
use bbq::store::{Module, TreePath};
use bbq::account::Account;
use bbq::money::{madd, msub, mul_price_vol, rate_ppm_exec, MONEY_MAX};
use bbq::store::Kind as StoreKind;
use bbq::store::{CollInfo, DataStore, EmailPush, Settings, Store, Trade, WechatPush};
use bbq::hub::{accept_backoff, on_interrupt, BACKOFF_MAX_RETRIES};
use bbq::ui::{set_window_open, AccountView, DataView, EntrustView, PositionView, SettingView, SubTree, TradeView, Tree};

#[test]
fn test_ts_from_unix() {
    let t = Ts::from_unix(19052 * 86400 + 34200).unwrap();
    assert_eq!(t.days, 19052);
    assert_eq!(t.secs, 34200);
    assert!(Ts::from_unix(-1).is_none());
    let zero = Ts::from_unix(0).unwrap();
    assert_eq!((zero.days, zero.secs), (0, 0));
}

#[test]
fn test_now_ts() {
    let t = bbq::clock::now_ts().unwrap();
    assert!(t.secs < 86400);
    assert!(t.days > 19000);
}

#[test]
fn test_labels_and_defaults() {
    assert!(matches!(Kind::default(), Kind::Stock));
    assert!(matches!(AcctType::default(), AcctType::Backtest));
    assert!(matches!(AcctStatus::default(), AcctStatus::Stop));
    assert!(matches!(ActionType::default(), ActionType::Sell));
    assert!(matches!(SignalType::default(), SignalType::Cancel));
    assert!(matches!(EntrustStatus::default(), EntrustStatus::Init));
    assert!(matches!(EntrustType::default(), EntrustType::Cancel));
    assert_eq!(Kind::Fund.label(), "fund");
    assert_eq!(AcctType::Simulation.label(), "simulation");
    assert_eq!(AcctStatus::Running.label(), "running");
    assert_eq!(ActionType::Buy.label(), "buy");
    assert_eq!(EntrustStatus::PartDeal.label(), "part_deal");
    assert_eq!(EntrustType::Sell.label(), "sell");
    assert_eq!(SignalType::Buy.label(), "buy");
}

#[test]
fn test_is_index() {
    assert!(is_index("sh000001"));
    assert!(is_index("sz399006"));
    assert!(!is_index("sh600063"));
    assert!(!is_index(""));
}

#[test]
fn test_get_id_shape() {
    let a = get_id();
    let b = get_id();
    assert_eq!(a.len(), 32);
    assert_eq!(b.len(), 32);
    assert_ne!(a, b);
}

#[test]
fn test_config_defaults() {
    let c = Config::default();
    assert_eq!(c.init_cash, 0);
    assert_eq!(c.fee, Fee { broker: 250, transfer: 20, tax: 1000 });
    assert_eq!(c.listen, Listen { port: 9527 });
    assert_eq!(c.log.level, "info");
    assert!(c.mongodb.is_none());
    assert!(matches!(c.kind, Kind::Stock));
}

#[test]
fn test_proto() {
    assert_eq!(PROTO_VERSION, 1);
    let h = Header { version: PROTO_VERSION, sid: [7u8; 32], body_len: 123 };
    assert_eq!(h.sid.len(), 32);
    assert_eq!(h.body_len, 123);

    let t = Ts { days: 19052, secs: 36000 };
    let tick = Quot {
        code: "sh600063".to_string(),
        name: String::new(),
        open: 100000,
        pre_close: 100000,
        now: 110000,
        high: 120000,
        low: 95000,
        buy: 110000,
        sell: 110000,
        vol: 1000,
        amount: 0,
        bid: [Level { vol: 0, price: 0 }; 5],
        ask: [Level { vol: 0, price: 0 }; 5],
        date: t.days,
        time: t,
    };
    let push = Push::Quot(vec![tick]);
    match push {
        Push::Quot(round) => {
            assert_eq!(round.len(), 1);
            assert_eq!(round[0].code, "sh600063");
            assert_eq!(round[0].now, 110000);
        }
    }
}

#[test]
fn test_store_kind_from_label() {
    assert!(matches!(StoreKind::from_label("FUND"), StoreKind::Fund));
    assert!(matches!(StoreKind::from_label("fund"), StoreKind::Fund));
    assert!(matches!(StoreKind::from_label("stock"), StoreKind::Stock));
    assert!(matches!(StoreKind::from_label("anything"), StoreKind::Stock));
    assert!(matches!(Module::default(), Module::Data));
}

#[test]
fn test_set_window_open() {
    let mut windows: Vec<String> = Vec::new();
    set_window_open(&mut windows, "positions", true);
    assert_eq!(windows, vec!["positions".to_string()]);
    // opening again is idempotent
    set_window_open(&mut windows, "positions", true);
    assert_eq!(windows, vec!["positions".to_string()]);
    set_window_open(&mut windows, "entrusts", true);
    assert_eq!(windows.len(), 2);
    set_window_open(&mut windows, "positions", false);
    assert_eq!(windows, vec!["entrusts".to_string()]);
    // closing an absent window does nothing
    set_window_open(&mut windows, "positions", false);
    assert_eq!(windows, vec!["entrusts".to_string()]);
}

#[test]
fn test_tree_state() {
    let mut tree = Tree::new("root");
    assert_eq!(tree.name, "root");
    assert_eq!(tree.selected, "");
    tree.sub_tree.push(SubTree::new("root/a"));
    tree.reset("other");
    assert_eq!(tree.name, "other");
    assert_eq!(tree.sub_tree.len(), 0);

    let tp = TreePath::new("strategy");
    assert_eq!(tp.name, "strategy");
    assert!(tp.sub_path.is_empty());
}

#[test]
fn test_views() {
    let _ = AccountView::new();
    let _ = DataView::new();
    let e = EntrustView::new();
    assert_eq!(e.columns.len(), 10);
    let p = PositionView::new();
    assert_eq!(p.columns.len(), 14);
    let s = SettingView::new();
    assert_eq!(s.setting_widget, "setting.widget");
    assert_eq!(s.orig_db_url, "");
}

#[test]
fn test_trade_view_build() {
    let mut tv = TradeView::new(Module::Trade);
    assert!(matches!(tv.module, Module::Trade));
    let mut root = TreePath::new("s");
    let mut a = TreePath::new("s/a");
    a.sub_path.push(TreePath::new("s/a/x.py"));
    root.sub_path.push(a);
    root.sub_path.push(TreePath::new("s/b"));

    let mut subs = Vec::new();
    tv.strategy_path_build(&root.sub_path, &mut subs);
    assert_eq!(subs.len(), 2);
    assert_eq!(subs[0].name, "s/a");
    assert_eq!(subs[0].sub_tree.len(), 1);
    assert_eq!(subs[0].sub_tree[0].name, "s/a/x.py");
    assert_eq!(subs[1].name, "s/b");
}

#[test]
fn test_strategy_rebuild() {
    let mut tv = TradeView::new(Module::Trade);
    let mut strategy = TreePath::new("root");
    strategy.sub_path.push(TreePath::new("root/one"));
    let trade = Trade {
        strategy_show: false,
        strategy_is_build: false,
        strategy,
        strategy_running: Vec::new(),
        strategy_selected: String::new(),
        account: Account::new("ui".to_string()),
    };
    let store = Store {
        module: Module::Trade,
        settings: Settings {
            show: false,
            open_windows: Vec::new(),
            db_url: String::new(),
            db_is_testing: false,
            db_is_valid: false,
            email_push: EmailPush {
                smtp_host: String::new(),
                user: String::new(),
                secret: String::new(),
                notify: String::new(),
            },
            wechat_push: WechatPush { token: String::new() },
            broker_path: Vec::new(),
            strategy_path: Vec::new(),
            risk_path: Vec::new(),
        },
        data: DataStore {
            stock_coll: vec![CollInfo {
                coll_name: "stock_daily".to_string(),
                last_sync: String::new(),
                is_latest: false,
            }],
            stock_auto_sync: String::new(),
            stock_log: Vec::new(),
            stock_log_show: false,
            fund_coll: Vec::new(),
            fund_auto_sync: String::new(),
            fund_log: Vec::new(),
            fund_log_show: false,
        },
        trade,
        backtest: Trade {
            strategy_show: false,
            strategy_is_build: false,
            strategy: TreePath::new("bt"),
            strategy_running: Vec::new(),
            strategy_selected: String::new(),
            account: Account::new("bt".to_string()),
        },
    };
    tv.strategy_rebuild(&store);
    assert_eq!(tv.strategy.sub_tree.len(), 1);
    assert_eq!(tv.strategy.sub_tree[0].name, "root/one");
}

#[test]
fn test_control_policies() {
    assert_eq!(accept_backoff(0, 0), Some(1));
    assert_eq!(accept_backoff(1, 1), Some(2));
    assert_eq!(accept_backoff(64, 5), Some(100));
    assert_eq!(accept_backoff(100, 5), Some(100));
    assert_eq!(accept_backoff(100, BACKOFF_MAX_RETRIES), None);

    let t0 = Ts { days: 19052, secs: 36000 };
    let (stop, remembered) = on_interrupt(None, t0);
    assert!(!stop);
    assert_eq!(remembered, Some(t0));
    let t1 = Ts { days: 19052, secs: 36002 };
    let (stop, _) = on_interrupt(Some(t0), t1);
    assert!(stop);
    let t2 = Ts { days: 19052, secs: 36010 };
    let (stop, _) = on_interrupt(Some(t0), t2);
    assert!(!stop);
}

#[test]
fn test_money_helpers() {
    assert_eq!(madd(2, 3), 5);
    assert_eq!(msub(2, 3), -1);
    assert_eq!(madd(MONEY_MAX, 1), MONEY_MAX);
    assert_eq!(msub(-MONEY_MAX, 1), -MONEY_MAX);
    assert_eq!(mul_price_vol(110000, 100), 11_000_000);
    assert_eq!(rate_ppm_exec(50, 100), 500_000);
    assert_eq!(rate_ppm_exec(-50, 100), -500_000);
    assert_eq!(rate_ppm_exec(50, 0), 0);
}
