//! The dashboard's pure view state: per-pane widgets, selection trees, and
//! the set of open windows. Rendering belongs to the host program; what is
//! selected, open and listed is decided here.
use vstd::prelude::*;

use crate::store::{Module, Store, TreePath};
use crate::strutil::str_eq_str;

verus! {

/// Whether the window set has the key.
pub open spec fn window_open(s: Seq<String>, key: Seq<char>) -> bool {
    exists|i: int| 0 <= i < s.len() && (#[trigger] s[i])@ == key
}

/// The window set holds each key at most once; opening and closing keep it
/// that way.
pub open spec fn windows_distinct(s: Seq<String>) -> bool {
    forall|i: int, j: int| 0 <= i < j < s.len() ==> (#[trigger] s[i])@ != (#[trigger] s[j])@
}

/// The first index of the key in the window set, if any.
pub open spec fn spec_find_window(s: Seq<String>, key: Seq<char>) -> Option<int>
    decreases s.len(),
{
    if s.len() == 0 {
        None
    } else if s[0]@ == key {
        Some(0int)
    } else {
        match spec_find_window(s.drop_first(), key) {
            Some(i) => Some(i + 1),
            None => None,
        }
    }
}

/// Opens or closes one window: opening inserts the key unless it is already
/// present, closing removes its first occurrence.
pub fn set_window_open(tree: &mut Vec<String>, key: &str, is_open: bool)
    ensures
        is_open && window_open(old(tree)@, key@) ==> final(tree)@ == old(tree)@,
        is_open && !window_open(old(tree)@, key@) ==> final(tree)@.len() == old(tree)@.len() + 1
            && final(tree)@.drop_last() == old(tree)@ && final(tree)@.last()@ == key@,
        !is_open ==> final(tree)@ == match spec_find_window(old(tree)@, key@) {
            Some(i) => old(tree)@.remove(i),
            None => old(tree)@,
        },
        is_open ==> window_open(final(tree)@, key@),
        windows_distinct(old(tree)@) ==> windows_distinct(final(tree)@),
        !is_open && windows_distinct(old(tree)@) ==> !window_open(final(tree)@, key@),
{
    let found = find_window(tree, key);
    if is_open {
        match found {
            Some(_) => {
                proof {
                    lemma_find_window_some_contains(tree@, key@);
                }
            },
            None => {
                proof {
                    lemma_find_window_none_absent(tree@, key@);
                }
                tree.push(key.to_owned());
                proof {
                    assert(final(tree)@.drop_last() =~= old(tree)@);
                    if windows_distinct(old(tree)@) {
                        assert forall|x: int, y: int|
                            0 <= x < y < tree@.len() implies (#[trigger] tree@[x])@ != (
                        #[trigger] tree@[y])@ by {
                            if y == tree@.len() - 1 {
                                assert(tree@[x] == old(tree)@[x]);
                            }
                        }
                    }
                }
            },
        }
    } else {
        match found {
            Some(i) => {
                proof {
                    lemma_find_window_index(tree@, key@, i as int);
                }
                tree.remove(i);
                proof {
                    if windows_distinct(old(tree)@) {
                        assert forall|x: int, y: int|
                            0 <= x < y < tree@.len() implies (#[trigger] tree@[x])@ != (
                        #[trigger] tree@[y])@ by {
                            let x0: int = if x < i { x } else { x + 1 };
                            let y0: int = if y < i { y } else { y + 1 };
                            assert(tree@[x] == old(tree)@[x0]);
                            assert(tree@[y] == old(tree)@[y0]);
                        }
                        assert forall|x: int| 0 <= x < tree@.len() implies (#[trigger] tree@[x])@
                            != key@ by {
                            let x0: int = if x < i { x } else { x + 1 };
                            assert(tree@[x] == old(tree)@[x0]);
                            assert(old(tree)@[i as int]@ == key@);
                        }
                    }
                }
            },
            None => {
                proof {
                    lemma_find_window_none_absent(tree@, key@);
                }
            },
        }
    }
}

/// A found index holds the key.
proof fn lemma_find_window_index(s: Seq<String>, key: Seq<char>, i: int)
    requires
        spec_find_window(s, key) == Some(i),
    ensures
        0 <= i < s.len(),
        s[i]@ == key,
    decreases s.len(),
{
    if s.len() > 0 && s[0]@ != key {
        lemma_find_window_index(s.drop_first(), key, i - 1);
        assert(s.drop_first()[i - 1] == s[i]);
    }
}

/// A found index means the key is in the set.
proof fn lemma_find_window_some_contains(s: Seq<String>, key: Seq<char>)
    requires
        spec_find_window(s, key) is Some,
    ensures
        window_open(s, key),
    decreases s.len(),
{
    if s.len() > 0 && s[0]@ != key {
        lemma_find_window_some_contains(s.drop_first(), key);
        let i = choose|i: int|
            0 <= i < s.drop_first().len() && (#[trigger] s.drop_first()[i])@ == key;
        assert(s[i + 1]@ == key);
    }
}

/// No found index means the key is absent.
proof fn lemma_find_window_none_absent(s: Seq<String>, key: Seq<char>)
    requires
        spec_find_window(s, key) is None,
    ensures
        !window_open(s, key),
    decreases s.len(),
{
    if s.len() > 0 {
        lemma_find_window_none_absent(s.drop_first(), key);
        assert forall|i: int| 0 <= i < s.len() implies (#[trigger] s[i])@ != key by {
            if i > 0 {
                assert(s.drop_first()[i - 1] == s[i]);
            }
        }
    }
}

/// The first index of the key, matching `spec_find_window`.
fn find_window(tree: &Vec<String>, key: &str) -> (r: Option<usize>)
    ensures
        match r {
            Some(i) => i < tree@.len() && spec_find_window(tree@, key@) == Some(i as int),
            None => spec_find_window(tree@, key@) is None,
        },
{
    let n = tree.len();
    let mut i: usize = 0;
    while i < n
        invariant
            0 <= i <= n,
            n == tree@.len(),
            forall|j: int| 0 <= j < i ==> (#[trigger] tree@[j])@ != key@,
        decreases n - i,
    {
        if str_eq_str(tree[i].as_str(), key) {
            proof {
                lemma_find_window_prefix(tree@, key@, i as int);
            }
            return Some(i);
        }
        i = i + 1;
    }
    proof {
        lemma_find_window_absent(tree@, key@);
    }
    None
}

proof fn lemma_find_window_prefix(s: Seq<String>, key: Seq<char>, i: int)
    requires
        0 <= i < s.len(),
        s[i]@ == key,
        forall|j: int| 0 <= j < i ==> (#[trigger] s[j])@ != key,
    ensures
        spec_find_window(s, key) == Some(i),
    decreases i,
{
    if i > 0 {
        assert(s.drop_first()[i - 1] == s[i]);
        assert(forall|j: int|
            0 <= j < i - 1 ==> (#[trigger] s.drop_first()[j])@ != key && s.drop_first()[j] == s[j
                + 1]);
        lemma_find_window_prefix(s.drop_first(), key, i - 1);
    }
}

proof fn lemma_find_window_absent(s: Seq<String>, key: Seq<char>)
    requires
        forall|j: int| 0 <= j < s.len() ==> (#[trigger] s[j])@ != key,
    ensures
        spec_find_window(s, key) is None,
    decreases s.len(),
{
    if s.len() > 0 {
        assert(forall|j: int|
            0 <= j < s.drop_first().len() ==> (#[trigger] s.drop_first()[j]) == s[j + 1]);
        lemma_find_window_absent(s.drop_first(), key);
    }
}

/// A selection tree shown in a side panel.
#[derive(Debug)]
pub struct Tree {
    pub name: String,
    pub selected: String,
    pub sub_tree: Vec<SubTree>,
}

impl Tree {
    pub fn new(name: &str) -> (r: Self)
        ensures
            r.name@ == name@,
            r.selected@ == Seq::<char>::empty(),
            r.sub_tree@.len() == 0,
    {
        Tree { name: name.to_owned(), selected: String::new(), sub_tree: Vec::new() }
    }

    /// Renames the tree and clears its selection and children.
    pub fn reset(&mut self, name: &str)
        ensures
            final(self).name@ == name@,
            final(self).selected@ == Seq::<char>::empty(),
            final(self).sub_tree@.len() == 0,
    {
        self.name = name.to_owned();
        self.selected = String::new();
        self.sub_tree = Vec::new();
    }
}

/// One node of a selection tree; `data` is the selectable payload.
#[derive(Debug)]
pub struct SubTree {
    pub name: String,
    pub data: Option<String>,
    pub sub_tree: Vec<SubTree>,
}

impl SubTree {
    pub fn new(name: &str) -> (r: Self)
        ensures
            r.name@ == name@,
            r.data is None,
            r.sub_tree@.len() == 0,
    {
        SubTree { name: name.to_owned(), data: None, sub_tree: Vec::new() }
    }
}

/// The account pane.
#[derive(Debug)]
pub struct AccountView {
}

impl AccountView {
    pub fn new() -> (r: Self)
        ensures
            r == (AccountView {  }),
    {
        AccountView {  }
    }
}

/// The data pane.
#[derive(Debug)]
pub struct DataView {
}

impl DataView {
    pub fn new() -> (r: Self)
        ensures
            r == (DataView {  }),
    {
        DataView {  }
    }
}

/// The entrust table pane with its column headers.
#[derive(Debug)]
pub struct EntrustView {
    pub columns: Vec<String>,
}

impl EntrustView {
    pub fn new() -> (r: Self)
        ensures
            r.columns@.len() == 10,
    {
        let mut columns: Vec<String> = Vec::new();
        columns.push("code".to_owned());
        columns.push("name".to_owned());
        columns.push("time".to_owned());
        columns.push("type".to_owned());
        columns.push("status".to_owned());
        columns.push("price".to_owned());
        columns.push("volume".to_owned());
        columns.push("volume_deal".to_owned());
        columns.push("volume_cancel".to_owned());
        columns.push("desc".to_owned());
        EntrustView { columns }
    }
}

/// The position table pane with its column headers.
#[derive(Debug)]
pub struct PositionView {
    pub columns: Vec<String>,
}

impl PositionView {
    pub fn new() -> (r: Self)
        ensures
            r.columns@.len() == 14,
    {
        let mut columns: Vec<String> = Vec::new();
        columns.push("code".to_owned());
        columns.push("name".to_owned());
        columns.push("time".to_owned());
        columns.push("volume".to_owned());
        columns.push("volume_available".to_owned());
        columns.push("volume_frozen".to_owned());
        columns.push("fee".to_owned());
        columns.push("price".to_owned());
        columns.push("now_price".to_owned());
        columns.push("max_price".to_owned());
        columns.push("min_price".to_owned());
        columns.push("profit_rate".to_owned());
        columns.push("max_profit_rate".to_owned());
        columns.push("min_profit_rate".to_owned());
        PositionView { columns }
    }
}

/// The settings pane.
#[derive(Debug)]
pub struct SettingView {
    pub setting_widget: String,
    pub orig_db_url: String,
}

impl SettingView {
    pub fn new() -> (r: Self)
        ensures
            r.setting_widget@ == "setting.widget"@,
            r.orig_db_url@ == Seq::<char>::empty(),
    {
        SettingView { setting_widget: "setting.widget".to_owned(), orig_db_url: String::new() }
    }
}

/// The trading pane: the strategy trees, the plugin path under edit, the open
/// module, and the child panes.
#[derive(Debug)]
pub struct TradeView {
    pub strategy: Tree,
    pub strategy_running: Tree,
    pub path: String,
    pub module: Module,
    pub position_view: PositionView,
    pub entrust_view: EntrustView,
    pub account_view: AccountView,
}

impl TradeView {
    pub fn new(module: Module) -> (r: Self)
        ensures
            r.module == module,
            r.strategy.name@ == "strategy"@,
            r.strategy_running.name@ == "running"@,
            r.path@ == Seq::<char>::empty(),
    {
        TradeView {
            strategy: Tree::new("strategy"),
            strategy_running: Tree::new("running"),
            path: String::new(),
            module,
            position_view: PositionView::new(),
            entrust_view: EntrustView::new(),
            account_view: AccountView::new(),
        }
    }

    /// Builds one selection level from the strategy directory: one node per
    /// path, by name and in order, each carrying its subdirectories one level
    /// down by name as well.
    pub fn strategy_path_build(&mut self, tree_path: &Vec<TreePath>, sub_tree: &mut Vec<SubTree>)
        ensures
            *final(self) == *old(self),
            final(sub_tree)@.len() == old(sub_tree)@.len() + tree_path@.len(),
            forall|j: int|
                0 <= j < old(sub_tree)@.len() ==> final(sub_tree)@[j] == old(sub_tree)@[j],
            forall|k: int|
                0 <= k < tree_path@.len() ==> (#[trigger] final(sub_tree)@[old(sub_tree)@.len()
                    + k]).name@ == tree_path@[k].name@ && final(sub_tree)@[old(sub_tree)@.len()
                    + k].sub_tree@.len() == tree_path@[k].sub_path@.len(),
    {
        let n = tree_path.len();
        let mut i: usize = 0;
        while i < n
            invariant
                0 <= i <= n,
                n == tree_path@.len(),
                *self == *old(self),
                sub_tree@.len() == old(sub_tree)@.len() + i,
                forall|j: int|
                    0 <= j < old(sub_tree)@.len() ==> sub_tree@[j] == old(sub_tree)@[j],
                forall|k: int|
                    0 <= k < i ==> (#[trigger] sub_tree@[old(sub_tree)@.len() + k]).name@
                        == tree_path@[k].name@ && sub_tree@[old(sub_tree)@.len() + k].sub_tree@.len()
                        == tree_path@[k].sub_path@.len(),
            decreases n - i,
        {
            let path = &tree_path[i];
            let mut t = SubTree::new(path.name.as_str());
            let m = path.sub_path.len();
            let mut j: usize = 0;
            while j < m
                invariant
                    0 <= j <= m,
                    m == path.sub_path@.len(),
                    t.name@ == path.name@,
                    t.sub_tree@.len() == j,
                decreases m - j,
            {
                t.sub_tree.push(SubTree::new(path.sub_path[j].name.as_str()));
                j = j + 1;
            }
            sub_tree.push(t);
            i = i + 1;
        }
    }

    /// Rebuilds the strategy tree from the store's directory listing when the
    /// store marks it stale.
    pub fn strategy_rebuild(&mut self, store: &Store)
        ensures
            store.trade.strategy_is_build ==> *final(self) == *old(self),
            !store.trade.strategy_is_build ==> {
                &&& final(self).strategy.name@ == old(self).strategy.name@
                &&& final(self).strategy.selected@ == Seq::<char>::empty()
                &&& final(self).strategy.sub_tree@.len() == store.trade.strategy.sub_path@.len()
                &&& (forall|k: int|
                    0 <= k < store.trade.strategy.sub_path@.len()
                        ==> (#[trigger] final(self).strategy.sub_tree@[k]).name@
                        == store.trade.strategy.sub_path@[k].name@)
            },
    {
        if !store.trade.strategy_is_build {
            let name_keep = self.strategy.name.clone();
            let mut sub_tree: Vec<SubTree> = Vec::new();
            self.strategy_path_build(&store.trade.strategy.sub_path, &mut sub_tree);
            proof {
                assert forall|k: int|
                    0 <= k < store.trade.strategy.sub_path@.len() implies (#[trigger] sub_tree@[k]).name@
                    == store.trade.strategy.sub_path@[k].name@ by {
                    assert(sub_tree@[0 + k].name@ == store.trade.strategy.sub_path@[k].name@);
                }
            }
            self.strategy = Tree { name: name_keep, selected: String::new(), sub_tree };
        }
    }
}

} // verus!
