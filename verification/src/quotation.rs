//! The quotation engines. A shared session state machine turns a clock and a
//! trading-calendar answer into the four daily phase events, each emitted
//! exactly once per trade date and in order; the live engine aggregates ticks
//! into frequency bars, and the backtest engine replays a sorted index of
//! historical bars. Every engine carries a ghost trace of what it has
//! emitted, and every reachable trace is a run of a small automaton whose
//! runs are provably well ordered.
use vstd::prelude::*;

use crate::clock::Ts;
use crate::quot::{QuotBar, QuotData, QuotOpts, QuotStatus};

verus! {

/// Second-of-day of the morning open (09:30).
pub const MORNING_OPEN_SEC: u32 = 34200;

/// Second-of-day of the morning close (11:30).
pub const MORNING_CLOSE_SEC: u32 = 41400;

/// Second-of-day of the noon open (13:00).
pub const NOON_OPEN_SEC: u32 = 46800;

/// Second-of-day of the noon close (15:00).
pub const NOON_CLOSE_SEC: u32 = 54000;

/// One emitted event, reduced to what the ordering contract speaks of.
pub enum Emit {
    Start,
    Phase { date: u32, idx: u32 },
    Bar { date: u32 },
    End,
}

/// The automaton state a trace folds to: whether the stream has started and
/// ended, the date whose phases are being emitted with how many are out, and
/// the last date that emitted a phase.
pub struct QuotAb {
    pub started: bool,
    pub ended: bool,
    pub cur: Option<(u32, u32)>,
    pub last_date: Option<u32>,
}

pub open spec fn ab_init() -> QuotAb {
    QuotAb { started: false, ended: false, cur: None, last_date: None }
}

/// No date is mid-emission: either none ever was, or its four phases are out.
pub open spec fn cur_complete(cur: Option<(u32, u32)>) -> bool {
    match cur {
        None => true,
        Some(c) => c.1 == 4,
    }
}

/// `d` comes after every date seen so far.
pub open spec fn date_after_opt(last: Option<u32>, d: u32) -> bool {
    match last {
        None => true,
        Some(l) => d > l,
    }
}

/// Which events the automaton accepts in a state: the start only first; phase
/// `idx` of a date only as that date's next phase, and a new date only once
/// the previous one is complete and only moving forward; bars only for the
/// current date after its first phase; the end only once, with no date left
/// mid-emission, and nothing after it.
pub open spec fn ab_allows(ab: QuotAb, e: Emit) -> bool {
    match e {
        Emit::Start => !ab.started,
        Emit::Phase { date, idx } => {
            &&& ab.started
            &&& !ab.ended
            &&& idx < 4
            &&& ((ab.cur matches Some(c) && c.0 == date && c.1 == idx) || (cur_complete(ab.cur)
                && date_after_opt(ab.last_date, date) && idx == 0))
        },
        Emit::Bar { date } => {
            &&& ab.started
            &&& !ab.ended
            &&& ab.cur matches Some(c) && c.0 == date && c.1 >= 1
        },
        Emit::End => ab.started && !ab.ended && cur_complete(ab.cur),
    }
}

pub open spec fn ab_step(ab: QuotAb, e: Emit) -> QuotAb {
    match e {
        Emit::Start => QuotAb { started: true, ..ab },
        Emit::Phase { date, idx } => QuotAb {
            cur: Some((date, (idx + 1) as u32)),
            last_date: Some(date),
            ..ab
        },
        Emit::Bar { .. } => ab,
        Emit::End => QuotAb { ended: true, ..ab },
    }
}

/// The automaton state after a trace.
pub open spec fn ab_run(s: Seq<Emit>) -> QuotAb
    decreases s.len(),
{
    if s.len() == 0 {
        ab_init()
    } else {
        ab_step(ab_run(s.drop_last()), s.last())
    }
}

/// The trace is a run of the automaton: every event was accepted in turn.
pub open spec fn valid_run(s: Seq<Emit>) -> bool
    decreases s.len(),
{
    if s.len() == 0 {
        true
    } else {
        valid_run(s.drop_last()) && ab_allows(ab_run(s.drop_last()), s.last())
    }
}

/// Phase `a` comes strictly before phase `b`: on an earlier date, or earlier
/// in the same date's session.
pub open spec fn phase_lt(a: Emit, b: Emit) -> bool
    recommends
        a is Phase,
        b is Phase,
{
    a->Phase_date < b->Phase_date || (a->Phase_date == b->Phase_date && a->Phase_idx
        < b->Phase_idx)
}

/// The emission ordering contract: the start is exactly the first event;
/// nothing follows the end; phases come in strictly ascending order (by date,
/// then by session index), so each is emitted at most once per date; and a
/// bar batch comes only after the morning open of its date.
pub open spec fn trace_ordered(s: Seq<Emit>) -> bool {
    &&& (forall|i: int| 0 <= i < s.len() ==> (((#[trigger] s[i]) is Start) <==> i == 0))
    &&& (forall|i: int| 0 <= i < s.len() && (#[trigger] s[i]) is End ==> i == s.len() - 1)
    &&& (forall|i: int, j: int|
        0 <= i < j < s.len() && (#[trigger] s[i]) is Phase && (#[trigger] s[j]) is Phase
            ==> phase_lt(s[i], s[j]))
    &&& (forall|i: int|
        0 <= i < s.len() && (#[trigger] s[i]) is Bar ==> exists|k: int|
            0 <= k < i && s[k] == (Emit::Phase { date: s[i]->Bar_date, idx: 0u32 }))
}

/// The strengthening that carries the induction: the folded state summarizes
/// the trace's content.
pub open spec fn run_aux(s: Seq<Emit>) -> bool {
    let ab = ab_run(s);
    &&& ab.started == (s.len() > 0)
    &&& ab.ended == (s.len() > 0 && s.last() is End)
    &&& match ab.cur {
        None => (forall|i: int|
            0 <= i < s.len() ==> !((#[trigger] s[i]) is Phase) && !(s[i] is Bar))
            && ab.last_date is None,
        Some(c) => {
            &&& 1 <= c.1 <= 4
            &&& ab.last_date == Some(c.0)
            &&& (exists|k: int|
                0 <= k < s.len() && s[k] == (Emit::Phase { date: c.0, idx: 0u32 }))
            &&& (forall|i: int|
                0 <= i < s.len() && (#[trigger] s[i]) is Phase ==> phase_lt(
                    s[i],
                    Emit::Phase { date: c.0, idx: c.1 },
                ))
        },
    }
}

/// Every run of the automaton is well ordered: this is the ordering law for
/// both quotation engines, whose histories are always runs.
pub proof fn lemma_emission_ordered(s: Seq<Emit>)
    requires
        valid_run(s),
    ensures
        trace_ordered(s),
    decreases s.len(),
{
    if s.len() == 0 {
    } else {
        let t = s.drop_last();
        let e = s.last();
        let ab = ab_run(t);
        lemma_emission_ordered(t);
        lemma_run_aux(t);
        assert(forall|i: int| 0 <= i < t.len() ==> s[i] == t[i]);
        match e {
            Emit::Start => {
                assert(t.len() == 0);
            },
            Emit::Phase { date, idx } => {
                assert(t.len() > 0 && !(t.last() is End));
                assert forall|i: int| 0 <= i < t.len() && (#[trigger] s[i]) is Phase implies
                    phase_lt(s[i], e) by {
                    match ab.cur {
                        Some(c) => {
                            if c.0 == date && c.1 == idx {
                                assert(phase_lt(t[i], Emit::Phase { date: c.0, idx: c.1 }));
                            } else {
                                assert(cur_complete(ab.cur) && date_after_opt(ab.last_date, date)
                                    && idx == 0);
                                assert(phase_lt(t[i], Emit::Phase { date: c.0, idx: c.1 }));
                                assert(t[i]->Phase_date <= c.0);
                            }
                        },
                        None => {},
                    }
                }
            },
            Emit::Bar { date } => {
                assert(t.len() > 0 && !(t.last() is End));
                let c = ab.cur->0;
                assert(c.0 == date && c.1 >= 1);
                assert(exists|k: int|
                    0 <= k < t.len() && t[k] == (Emit::Phase { date: c.0, idx: 0u32 }));
                let k = choose|k: int|
                    0 <= k < t.len() && t[k] == (Emit::Phase { date: c.0, idx: 0u32 });
                assert(s[k] == (Emit::Phase { date: s[s.len() - 1]->Bar_date, idx: 0u32 }));
            },
            Emit::End => {
                assert(t.len() > 0 && !(t.last() is End));
            },
        }
    }
}

/// The folded state summarizes the trace's content, for every run.
pub proof fn lemma_run_aux(s: Seq<Emit>)
    requires
        valid_run(s),
    ensures
        run_aux(s),
    decreases s.len(),
{
    if s.len() == 0 {
    } else {
        let t = s.drop_last();
        let e = s.last();
        let ab = ab_run(t);
        lemma_run_aux(t);
        assert(forall|i: int| 0 <= i < t.len() ==> s[i] == t[i]);
        match e {
            Emit::Start => {
                assert(t.len() == 0);
            },
            Emit::Phase { date, idx } => {
                let ab2 = ab_run(s);
                assert(ab2.cur == Some((date, (idx + 1) as u32)));
                if idx == 0 {
                    assert(s[s.len() - 1] == (Emit::Phase { date, idx: 0u32 }));
                } else {
                    assert(ab.cur matches Some(c) && c.0 == date && c.1 == idx);
                    let k = choose|k: int|
                        0 <= k < t.len() && t[k] == (Emit::Phase { date, idx: 0u32 });
                    assert(s[k] == (Emit::Phase { date, idx: 0u32 }));
                }
                assert forall|i: int| 0 <= i < s.len() && (#[trigger] s[i]) is Phase implies
                    phase_lt(s[i], Emit::Phase { date, idx: (idx + 1) as u32 }) by {
                    if i < s.len() - 1 {
                        match ab.cur {
                            Some(c) => {
                                assert(phase_lt(t[i], Emit::Phase { date: c.0, idx: c.1 }));
                                if !(c.0 == date && c.1 == idx) {
                                    assert(date_after_opt(ab.last_date, date));
                                }
                            },
                            None => {},
                        }
                    }
                }
            },
            Emit::Bar { date } => {
                assert(ab_run(s) == ab);
            },
            Emit::End => {},
        }
    }
}

/// The trace event a delivered value stands for: phases carry their date in
/// the event time.
pub open spec fn emit_matches(q: QuotData, e: Emit) -> bool {
    match q {
        QuotData::QuotStart(_) => e is Start,
        QuotData::MorningStart(st) => e == (Emit::Phase { date: st.time.days, idx: 0u32 }),
        QuotData::MorningEnd(st) => e == (Emit::Phase { date: st.time.days, idx: 1u32 }),
        QuotData::NoonStart(st) => e == (Emit::Phase { date: st.time.days, idx: 2u32 }),
        QuotData::NoonEnd(st) => e == (Emit::Phase { date: st.time.days, idx: 3u32 }),
        QuotData::Quot(_) => e is Bar,
        QuotData::QuotEnd(_) => e is End,
    }
}

/// The canonical second-of-day of phase `idx`: the morning open and close,
/// the noon open and close.
pub open spec fn phase_sec(idx: u32) -> u32 {
    if idx == 0 {
        34200
    } else if idx == 1 {
        41400
    } else if idx == 2 {
        46800
    } else {
        54000
    }
}

/// The phase the clock's second-of-day has reached: the morning session, the
/// lunch break, the noon session, and everything else the day's close.
pub open spec fn clock_phase_idx(secs: u32) -> u32 {
    if 34200 < secs <= 41400 {
        0
    } else if 41400 < secs <= 46800 {
        1
    } else if 46800 < secs <= 54000 {
        2
    } else {
        3
    }
}

/// The status payload of a non-bar event.
pub open spec fn status_of(q: QuotData) -> QuotStatus
    recommends
        !(q is Quot),
{
    match q {
        QuotData::Quot(_) => vstd::pervasive::arbitrary(),
        QuotData::QuotStart(st) => st,
        QuotData::MorningStart(st) => st,
        QuotData::MorningEnd(st) => st,
        QuotData::NoonStart(st) => st,
        QuotData::NoonEnd(st) => st,
        QuotData::QuotEnd(st) => st,
    }
}

/// The clock is on the machine's current trade date.
pub open spec fn same_trade_date(m: MyQuotation, n: Ts) -> bool {
    m.trade_date matches Some(d) && d == n.days
}

/// The phase event the session machine owes at clock `n`, given the
/// calendar's answer for `n`'s date: its date, its index, and its event time.
/// A previous date still missing phases is finished first at canonical times;
/// on the current date the next phase is due once the clock reaches it; a
/// fresh forward date on a trading day owes its morning open. `None` when no
/// phase is due.
pub open spec fn spec_base_event(m: MyQuotation, n: Ts, is_trade: bool) -> Option<(u32, u32, Ts)> {
    match m.trade_date {
        Some(d) => {
            if n.days != d && m.nsent < 4 {
                Some((d, m.nsent as u32, Ts { days: d, secs: phase_sec(m.nsent as u32) }))
            } else if n.days == d {
                if m.nsent <= clock_phase_idx(n.secs) && m.nsent < 4 {
                    Some((d, m.nsent as u32, n))
                } else {
                    None
                }
            } else {
                spec_fresh_event(m, n, is_trade)
            }
        },
        None => spec_fresh_event(m, n, is_trade),
    }
}

/// The morning open of a fresh trade date, owed only moving forward in time
/// and only on a trading day.
pub open spec fn spec_fresh_event(m: MyQuotation, n: Ts, is_trade: bool) -> Option<(u32, u32, Ts)> {
    if date_after_opt(m.last_date, n.days) && is_trade {
        Some((n.days, 0u32, n))
    } else {
        None
    }
}

/// `base` with `x` appended unless an equal code is already present.
pub open spec fn merge_step(base: Seq<String>, x: String) -> Seq<String> {
    if exists|j: int| 0 <= j < base.len() && (#[trigger] base[j])@ == x@ {
        base
    } else {
        base.push(x)
    }
}

/// `base` extended with every code of `adds` not already present, in order.
pub open spec fn merge_codes(base: Seq<String>, adds: Seq<String>) -> Seq<String>
    decreases adds.len(),
{
    if adds.len() == 0 {
        base
    } else {
        merge_codes(merge_step(base, adds[0]), adds.drop_first())
    }
}

/// Merging one more code is one more merge step.
pub proof fn lemma_merge_codes_snoc(base: Seq<String>, adds: Seq<String>, x: String)
    ensures
        merge_codes(base, adds.push(x)) == merge_step(merge_codes(base, adds), x),
    decreases adds.len(),
{
    if adds.len() == 0 {
        assert(adds.push(x)[0] == x);
        assert(adds.push(x).drop_first() =~= Seq::<String>::empty());
        assert(merge_codes(base, adds.push(x)) == merge_codes(
            merge_step(base, x),
            Seq::<String>::empty(),
        ));
        assert(merge_codes(merge_step(base, x), Seq::<String>::empty()) == merge_step(base, x));
        assert(merge_codes(base, adds) == base);
    } else {
        assert(adds.push(x)[0] == adds[0]);
        assert(adds.push(x).drop_first() =~= adds.drop_first().push(x));
        assert(merge_codes(base, adds.push(x)) == merge_codes(
            merge_step(base, adds[0]),
            adds.drop_first().push(x),
        ));
        lemma_merge_codes_snoc(merge_step(base, adds[0]), adds.drop_first(), x);
        assert(merge_codes(base, adds) == merge_codes(merge_step(base, adds[0]), adds.drop_first()));
    }
}

/// The session state machine both engines share: the subscription, the
/// start/end latches, the trade date under emission with its count of emitted
/// phases, the last trade date accepted, and the ghost trace.
pub struct MyQuotation {
    pub opts: QuotOpts,
    pub is_start: bool,
    pub is_end: bool,
    pub trade_date: Option<u32>,
    pub nsent: u8,
    pub last_date: Option<u32>,
    pub hist: Ghost<Seq<Emit>>,
}

impl MyQuotation {
    /// The trace so far.
    pub open spec fn history(self) -> Seq<Emit> {
        self.hist@
    }

    /// The engine state corresponds to its trace, and the trace is a run of
    /// the automaton.
    pub open spec fn inv(self) -> bool {
        let ab = ab_run(self.hist@);
        &&& self.nsent <= 4
        &&& valid_run(self.hist@)
        &&& ab.started == self.is_start
        &&& ab.ended == self.is_end
        &&& match self.trade_date {
            Some(d) => self.last_date == Some(d) && (if self.nsent == 0 {
                cur_complete(ab.cur) && date_after_opt(ab.last_date, d)
            } else {
                ab.cur == Some((d, self.nsent as u32))
            }),
            None => cur_complete(ab.cur) && self.nsent == 0,
        }
        &&& match ab.last_date {
            None => true,
            Some(l) => self.last_date matches Some(m) && l <= m,
        }
    }

    pub fn new(opts: QuotOpts) -> (r: Self)
        ensures
            r.opts == opts,
            !r.is_start,
            !r.is_end,
            r.trade_date is None,
            r.nsent == 0,
            r.last_date is None,
            r.history() == Seq::<Emit>::empty(),
            r.inv(),
    {
        let r = MyQuotation {
            opts,
            is_start: false,
            is_end: false,
            trade_date: None,
            nsent: 0,
            last_date: None,
            hist: Ghost(Seq::empty()),
        };
        proof {
            assert(r.hist@.len() == 0);
        }
        r
    }

    /// The engine is inside a trading session: a trade date is current and
    /// exactly the morning open, or the morning open through the noon open,
    /// has been emitted — the count form of `(phase 0 and not phase 1) or
    /// (phase 2 and not phase 3)` for phases emitted in order.
    pub fn is_trading(&self) -> (r: bool)
        ensures
            r == (self.trade_date is Some && (self.nsent == 1 || self.nsent == 3)),
    {
        self.trade_date.is_some() && (self.nsent == 1 || self.nsent == 3)
    }

    /// Adds codes to the subscription; duplicates are ignored.
    pub fn add_quot_codes(&mut self, codes: &Vec<String>)
        ensures
            *final(self) == (MyQuotation { opts: final(self).opts, ..*old(self) }),
            final(self).opts == (QuotOpts { codes: final(self).opts.codes, ..old(self).opts }),
            final(self).opts.codes@ == merge_codes(old(self).opts.codes@, codes@),
    {
        let n = codes.len();
        let mut i: usize = 0;
        proof {
            assert(codes@.take(0) =~= Seq::<String>::empty());
        }
        while i < n
            invariant
                0 <= i <= n,
                n == codes@.len(),
                *self == (MyQuotation { opts: self.opts, ..*old(self) }),
                self.opts == (QuotOpts { codes: self.opts.codes, ..old(self).opts }),
                self.opts.codes@ == merge_codes(old(self).opts.codes@, codes@.take(i as int)),
            decreases n - i,
        {
            let ghost pre = self.opts.codes@;
            let code = &codes[i];
            if !contains_code(&self.opts.codes, code) {
                self.opts.codes.push(code.clone());
            }
            proof {
                assert(codes@.take(i + 1) =~= codes@.take(i as int).push(codes@[i as int]));
                lemma_merge_codes_snoc(old(self).opts.codes@, codes@.take(i as int), codes@[i as int]);
                assert(self.opts.codes@ =~= merge_step(pre, codes@[i as int]));
            }
            i = i + 1;
        }
        proof {
            assert(codes@.take(n as int) =~= codes@);
        }
    }

    /// Emits the next due phase event, if any: first any phase still missing
    /// for a previous trade date (at that date's canonical times), then — on
    /// a trade date, moving forward in time — the phases due by the clock's
    /// position in the session, one per call.
    pub fn get_base_event(&mut self, n: Ts, is_trade: bool) -> (r: Option<QuotData>)
        requires
            old(self).inv(),
            old(self).is_start,
            !old(self).is_end,
            n.wf(),
        ensures
            final(self).inv(),
            final(self).opts == old(self).opts,
            final(self).is_start == old(self).is_start,
            final(self).is_end == old(self).is_end,
            match r {
                None => final(self).history() == old(self).history(),
                Some(q) => {
                    &&& final(self).history() == old(self).history().push(
                        final(self).history().last(),
                    )
                    &&& emit_matches(q, final(self).history().last())
                    &&& (q matches QuotData::MorningStart(_) || q
                        matches QuotData::MorningEnd(_) || q matches QuotData::NoonStart(_) || q
                        matches QuotData::NoonEnd(_))
                },
            },
            match spec_base_event(*old(self), n, is_trade) {
                Some(e) => {
                    &&& r matches Some(q)
                    &&& emit_matches(q, Emit::Phase { date: e.0, idx: e.1 })
                    &&& status_of(q).time == e.2
                    &&& status_of(q).opts.eqv(old(self).opts)
                    &&& final(self).trade_date == Some(e.0)
                    &&& final(self).nsent == e.1 + 1
                    &&& final(self).last_date == Some(e.0)
                },
                None => {
                    &&& r is None
                    &&& final(self).trade_date == if same_trade_date(*old(self), n) {
                        old(self).trade_date
                    } else {
                        Option::<u32>::None
                    }
                    &&& final(self).nsent == if same_trade_date(*old(self), n) {
                        old(self).nsent as int
                    } else {
                        0int
                    }
                    &&& final(self).last_date == old(self).last_date
                },
            },
    {
        // finish a previous date first, one phase per call, at canonical times
        if let Some(d) = self.trade_date {
            if n.days != d && self.nsent < 4 {
                let i = self.nsent;
                self.nsent = i + 1;
                let sec: u32 = if i == 0 {
                    MORNING_OPEN_SEC
                } else if i == 1 {
                    MORNING_CLOSE_SEC
                } else if i == 2 {
                    NOON_OPEN_SEC
                } else {
                    NOON_CLOSE_SEC
                };
                let t = Ts { days: d, secs: sec };
                return Some(self.emit_phase(i, t));
            }
        }
        // date bookkeeping: start a new trade date or idle
        let same_date = match self.trade_date {
            Some(d) => n.days == d,
            None => false,
        };
        if !same_date {
            self.trade_date = None;
            self.nsent = 0;
            let forward = match self.last_date {
                Some(l) => n.days > l,
                None => true,
            };
            if !forward {
                return None;
            }
            if !is_trade {
                return None;
            }
            self.trade_date = Some(n.days);
            self.last_date = Some(n.days);
        }
        // emit the next phase due by the clock, one per call
        let idx: u8 = if n.secs > MORNING_OPEN_SEC && n.secs <= MORNING_CLOSE_SEC {
            0
        } else if n.secs > MORNING_CLOSE_SEC && n.secs <= NOON_OPEN_SEC {
            1
        } else if n.secs > NOON_OPEN_SEC && n.secs <= NOON_CLOSE_SEC {
            2
        } else {
            3
        };
        if self.nsent <= idx && self.nsent < 4 {
            let i = self.nsent;
            self.nsent = i + 1;
            return Some(self.emit_phase(i, n));
        }
        None
    }

    /// Builds and records phase event `i` of the current trade date with the
    /// given event time.
    fn emit_phase(&mut self, i: u8, t: Ts) -> (r: QuotData)
        requires
            old(self).inv_except_phase(),
            i < 4,
            old(self).trade_date == Some(t.days),
            old(self).nsent == i + 1,
        ensures
            final(self).inv(),
            final(self).opts == old(self).opts,
            final(self).is_start == old(self).is_start,
            final(self).is_end == old(self).is_end,
            final(self).trade_date == old(self).trade_date,
            final(self).nsent == old(self).nsent,
            final(self).last_date == old(self).last_date,
            final(self).history() == old(self).history().push(
                Emit::Phase { date: t.days, idx: i as u32 },
            ),
            emit_matches(r, Emit::Phase { date: t.days, idx: i as u32 }),
            status_of(r).time == t,
            status_of(r).opts.eqv(old(self).opts),
            (r matches QuotData::MorningStart(_) || r matches QuotData::MorningEnd(_) || r
                matches QuotData::NoonStart(_) || r matches QuotData::NoonEnd(_)),
    {
        let st = QuotStatus { opts: self.opts.clone(), time: t };
        let ghost e = Emit::Phase { date: t.days, idx: i as u32 };
        proof {
            self.hist@ = self.hist@.push(e);
            assert(self.hist@.drop_last() =~= old(self).hist@);
        }
        if i == 0 {
            QuotData::MorningStart(st)
        } else if i == 1 {
            QuotData::MorningEnd(st)
        } else if i == 2 {
            QuotData::NoonStart(st)
        } else {
            QuotData::NoonEnd(st)
        }
    }

    /// The invariant of a state that has just claimed phase `nsent - 1` but
    /// not yet recorded it on the trace.
    pub open spec fn inv_except_phase(self) -> bool {
        let ab = ab_run(self.hist@);
        let prev = (self.nsent - 1) as u32;
        &&& 1 <= self.nsent <= 4
        &&& valid_run(self.hist@)
        &&& ab.started == self.is_start
        &&& ab.ended == self.is_end
        &&& self.is_start
        &&& !self.is_end
        &&& self.trade_date matches Some(d) && self.last_date == Some(d) && (if prev == 0 {
            cur_complete(ab.cur) && date_after_opt(ab.last_date, d)
        } else {
            ab.cur == Some((d, prev))
        })
        &&& match ab.last_date {
            None => true,
            Some(l) => self.last_date matches Some(m) && l <= m,
        }
    }
}

/// What a live poll asks of its driver: deliver an event, fetch ticks for the
/// subscribed codes (the engine is inside a session), or do nothing this
/// round.
pub enum PollStep {
    Emit(QuotData),
    Fetch,
    Idle,
}

/// Every open or emitted bar batch: coherent prices, one bar per code.
pub open spec fn bars_wf(bars: Seq<QuotBar>) -> bool {
    &&& forall|i: int| 0 <= i < bars.len() ==> (#[trigger] bars[i]).ohlc_wf()
    &&& crate::quot::codes_unique(bars)
}

/// The index of the open bar for a code, if one exists.
pub open spec fn spec_bar_idx(bars: Seq<QuotBar>, code: Seq<char>) -> Option<int>
    decreases bars.len(),
{
    if bars.len() == 0 {
        None
    } else if bars[0].quot.code@ == code {
        Some(0int)
    } else {
        match spec_bar_idx(bars.drop_first(), code) {
            Some(i) => Some(i + 1),
            None => None,
        }
    }
}

/// One tick folded into its bar: the high and low widen to the tick's price,
/// the close and the snapshot become the tick, the window end moves to the
/// tick's time; the open and the window start stay.
pub open spec fn spec_tick_into(b: QuotBar, q: crate::fetch::Quot) -> QuotBar {
    QuotBar {
        high: if b.high < q.now {
            q.now
        } else {
            b.high
        },
        low: if b.low > q.now {
            q.now
        } else {
            b.low
        },
        close: q.now,
        end: q.time,
        quot: q,
        ..b
    }
}

/// The bar a first tick opens: all four prices at the tick's price, the
/// window starting at the poll clock and ending at the tick's time.
pub open spec fn spec_new_bar(q: crate::fetch::Quot, n: Ts, freq: u32) -> QuotBar {
    QuotBar {
        frequency: freq,
        open: q.now,
        high: q.now,
        low: q.now,
        close: q.now,
        start: n,
        end: q.time,
        quot: q,
    }
}

/// One tick folded into the open-bar table: into its code's bar if one is
/// open, as a fresh bar otherwise.
pub open spec fn spec_upsert_tick(
    bars: Seq<QuotBar>,
    q: crate::fetch::Quot,
    n: Ts,
    freq: u32,
) -> Seq<QuotBar> {
    match spec_bar_idx(bars, q.code@) {
        Some(j) => bars.update(j, spec_tick_into(bars[j], q)),
        None => bars.push(spec_new_bar(q, n, freq)),
    }
}

/// A whole round of ticks folded into the table, in order.
pub open spec fn spec_aggregate(
    bars: Seq<QuotBar>,
    ticks: Seq<crate::fetch::Quot>,
    n: Ts,
    freq: u32,
) -> Seq<QuotBar>
    decreases ticks.len(),
{
    if ticks.len() == 0 {
        bars
    } else {
        spec_aggregate(spec_upsert_tick(bars, ticks[0], n, freq), ticks.drop_first(), n, freq)
    }
}

/// Folding one more tick is one more upsert.
proof fn lemma_aggregate_snoc(
    bars: Seq<QuotBar>,
    ticks: Seq<crate::fetch::Quot>,
    q: crate::fetch::Quot,
    n: Ts,
    freq: u32,
)
    ensures
        spec_aggregate(bars, ticks.push(q), n, freq) == spec_upsert_tick(
            spec_aggregate(bars, ticks, n, freq),
            q,
            n,
            freq,
        ),
    decreases ticks.len(),
{
    if ticks.len() == 0 {
        assert(ticks.push(q)[0] == q);
        assert(ticks.push(q).drop_first() =~= Seq::<crate::fetch::Quot>::empty());
        assert(spec_aggregate(bars, ticks.push(q), n, freq) == spec_aggregate(
            spec_upsert_tick(bars, q, n, freq),
            Seq::<crate::fetch::Quot>::empty(),
            n,
            freq,
        ));
    } else {
        assert(ticks.push(q)[0] == ticks[0]);
        assert(ticks.push(q).drop_first() =~= ticks.drop_first().push(q));
        assert(spec_aggregate(bars, ticks.push(q), n, freq) == spec_aggregate(
            spec_upsert_tick(bars, ticks[0], n, freq),
            ticks.drop_first().push(q),
            n,
            freq,
        ));
        lemma_aggregate_snoc(spec_upsert_tick(bars, ticks[0], n, freq), ticks.drop_first(), q, n, freq);
    }
}

/// The batch is due: the first tick's window, measured from its bar's start
/// (or from the poll clock when the tick opens a fresh bar), spans the
/// frequency.
pub open spec fn spec_ready(
    bars: Seq<QuotBar>,
    t0: crate::fetch::Quot,
    n: Ts,
    freq: u32,
) -> bool {
    (match spec_bar_idx(bars, t0.code@) {
        Some(j) => n.stamp() - bars[j].start.stamp(),
        None => 0int,
    }) >= freq
}

/// The open bars an engine holds between emissions.
pub open spec fn open_bars(e: RtQuotation) -> Seq<QuotBar> {
    match e.bar {
        Some(b) => b@,
        None => Seq::<QuotBar>::empty(),
    }
}

/// With one bar per code, a match is the first match.
proof fn lemma_bar_idx_found(bars: Seq<QuotBar>, code: Seq<char>, i: int)
    requires
        0 <= i < bars.len(),
        bars[i].quot.code@ == code,
        forall|j: int| 0 <= j < i ==> (#[trigger] bars[j]).quot.code@ != code,
    ensures
        spec_bar_idx(bars, code) == Some(i),
    decreases i,
{
    if i > 0 {
        assert(bars.drop_first()[i - 1] == bars[i]);
        assert(forall|j: int|
            0 <= j < i - 1 ==> (#[trigger] bars.drop_first()[j]).quot.code@ != code
                && bars.drop_first()[j] == bars[j + 1]);
        lemma_bar_idx_found(bars.drop_first(), code, i - 1);
    }
}

/// With no match there is no first match.
proof fn lemma_bar_idx_none(bars: Seq<QuotBar>, code: Seq<char>)
    requires
        forall|j: int| 0 <= j < bars.len() ==> (#[trigger] bars[j]).quot.code@ != code,
    ensures
        spec_bar_idx(bars, code) is None,
    decreases bars.len(),
{
    if bars.len() > 0 {
        assert(forall|j: int|
            0 <= j < bars.drop_first().len() ==> (#[trigger] bars.drop_first()[j]) == bars[j + 1]);
        lemma_bar_idx_none(bars.drop_first(), code);
    }
}

/// The live engine: the session machine plus the table of bars being
/// aggregated for the current window.
pub struct RtQuotation {
    pub quotation: MyQuotation,
    pub bar: Option<Vec<QuotBar>>,
}

impl RtQuotation {
    pub open spec fn inv(self) -> bool {
        &&& self.quotation.inv()
        &&& !self.quotation.is_end
        &&& match self.bar {
            Some(b) => bars_wf(b@),
            None => true,
        }
    }

    /// The trace so far.
    pub open spec fn history(self) -> Seq<Emit> {
        self.quotation.history()
    }

    pub fn new(opts: QuotOpts) -> (r: Self)
        ensures
            r.quotation.opts == opts,
            r.history() == Seq::<Emit>::empty(),
            r.inv(),
    {
        RtQuotation { quotation: MyQuotation::new(opts), bar: None }
    }

    /// Extends the subscription; duplicates are ignored and nothing else is
    /// touched.
    pub fn add_codes(&mut self, codes: &Vec<String>)
        requires
            old(self).inv(),
        ensures
            final(self).inv(),
            final(self).history() == old(self).history(),
            final(self).quotation.opts.codes@ == merge_codes(
                old(self).quotation.opts.codes@,
                codes@,
            ),
            *final(self) == (RtQuotation { quotation: final(self).quotation, ..*old(self) }),
            final(self).quotation == (MyQuotation {
                opts: final(self).quotation.opts,
                ..old(self).quotation
            }),
            final(self).quotation.opts == (QuotOpts {
                codes: final(self).quotation.opts.codes,
                ..old(self).quotation.opts
            }),
    {
        self.quotation.add_quot_codes(codes);
    }

    /// One poll at clock `n` on a day the calendar marks with `is_trade`:
    /// emits the stream start first, then any due phase event, and otherwise
    /// asks for ticks exactly when a session is open and codes are
    /// subscribed.
    pub fn poll(&mut self, n: Ts, is_trade: bool) -> (r: PollStep)
        requires
            old(self).inv(),
            n.wf(),
        ensures
            final(self).inv(),
            final(self).quotation.opts == old(self).quotation.opts,
            match r {
                PollStep::Emit(q) => {
                    &&& final(self).history() == old(self).history().push(
                        final(self).history().last(),
                    )
                    &&& emit_matches(q, final(self).history().last())
                    &&& !(q matches QuotData::Quot(_))
                    &&& !(q matches QuotData::QuotEnd(_))
                },
                PollStep::Fetch => {
                    &&& final(self).history() == old(self).history()
                    &&& final(self).quotation.trade_date is Some
                    &&& (final(self).quotation.nsent == 1 || final(self).quotation.nsent == 3)
                    &&& final(self).quotation.opts.codes@.len() > 0
                },
                PollStep::Idle => final(self).history() == old(self).history(),
            },
            // the stream start is owed at the first poll, carrying the
            // subscription and the clock; it changes nothing but the start
            // latch and the trace
            !old(self).quotation.is_start ==> (r matches PollStep::Emit(q)
                && q matches QuotData::QuotStart(st) && st.opts.eqv(old(self).quotation.opts)
                && st.time == n && final(self).quotation.is_start && *final(self) == (RtQuotation {
                quotation: final(self).quotation,
                ..*old(self)
            }) && final(self).quotation == (MyQuotation {
                is_start: true,
                hist: final(self).quotation.hist,
                ..old(self).quotation
            })),
            // afterwards, the due phase is owed; with none due, a fetch is
            // owed exactly inside an open session with codes subscribed
            old(self).quotation.is_start ==> match spec_base_event(
                old(self).quotation,
                n,
                is_trade,
            ) {
                Some(e) => {
                    &&& r matches PollStep::Emit(q)
                    &&& emit_matches(q, Emit::Phase { date: e.0, idx: e.1 })
                    &&& status_of(q).time == e.2
                    &&& status_of(q).opts.eqv(old(self).quotation.opts)
                    &&& final(self).quotation.nsent == e.1 + 1
                },
                None => {
                    &&& final(self).quotation.trade_date == if same_trade_date(
                        old(self).quotation,
                        n,
                    ) {
                        old(self).quotation.trade_date
                    } else {
                        Option::<u32>::None
                    }
                    &&& final(self).quotation.nsent == if same_trade_date(
                        old(self).quotation,
                        n,
                    ) {
                        old(self).quotation.nsent as int
                    } else {
                        0int
                    }
                    &&& if same_trade_date(old(self).quotation, n) && (old(
                        self,
                    ).quotation.nsent == 1 || old(self).quotation.nsent == 3) && old(
                        self,
                    ).quotation.opts.codes@.len() > 0 {
                        r is Fetch
                    } else {
                        r is Idle
                    }
                },
            },
    {
        if !self.quotation.is_start {
            self.quotation.is_start = true;
            let st = QuotStatus { opts: self.quotation.opts.clone(), time: n };
            proof {
                self.quotation.hist@ = self.quotation.hist@.push(Emit::Start);
                assert(self.quotation.hist@.drop_last() =~= old(self).quotation.hist@);
            }
            return PollStep::Emit(QuotData::QuotStart(st));
        }
        let be = self.quotation.get_base_event(n, is_trade);
        match be {
            Some(q) => PollStep::Emit(q),
            None => {
                if !self.quotation.is_trading() || self.quotation.opts.codes.len() == 0 {
                    PollStep::Idle
                } else {
                    PollStep::Fetch
                }
            },
        }
    }

    /// Aggregates one round of fetched ticks into the open bars and emits the
    /// whole batch once the first tick's window has spanned the subscription
    /// frequency. Ticks arriving outside a session are dropped. Every emitted
    /// bar keeps the open-high-low-close relation, one bar per code, and the
    /// batch covers every tick's code.
    pub fn on_ticks(&mut self, n: Ts, ticks: &Vec<crate::fetch::Quot>) -> (r: Option<QuotData>)
        requires
            old(self).inv(),
            n.wf(),
        ensures
            final(self).inv(),
            final(self).quotation.opts == old(self).quotation.opts,
            r is Some ==> old(self).quotation.trade_date is Some && (old(self).quotation.nsent == 1
                || old(self).quotation.nsent == 3),
            match r {
                None => final(self).history() == old(self).history(),
                Some(q) => {
                    &&& final(self).history() == old(self).history().push(
                        final(self).history().last(),
                    )
                    &&& emit_matches(q, final(self).history().last())
                    &&& q matches QuotData::Quot(bars) && bars_wf(bars@) && (forall|i: int|
                        0 <= i < ticks@.len() ==> crate::quot::has_code(
                            bars@,
                            (#[trigger] ticks@[i]).code@,
                        ))
                },
            },
            // ticks outside an open session, or without a subscription, are
            // dropped whole
            (!(old(self).quotation.trade_date is Some && (old(self).quotation.nsent == 1 || old(
                self,
            ).quotation.nsent == 3)) || old(self).quotation.opts.codes@.len() == 0) ==> (r is None
                && *final(self) == *old(self)),
            // inside a session the round is folded into the open bars, and
            // the whole table is emitted exactly when the first tick's
            // window has spanned the frequency
            ((old(self).quotation.trade_date is Some && (old(self).quotation.nsent == 1 || old(
                self,
            ).quotation.nsent == 3)) && old(self).quotation.opts.codes@.len() > 0) ==> ({
                let base = open_bars(*old(self));
                let freq = old(self).quotation.opts.frequency;
                let agg = spec_aggregate(base, ticks@, n, freq);
                if ticks@.len() > 0 && spec_ready(base, ticks@[0], n, freq) {
                    r matches Some(q) && q matches QuotData::Quot(bars) && bars@ == agg
                        && final(self).bar is None
                } else {
                    r is None && (final(self).bar matches Some(b) && b@ == agg)
                }
            }),
    {
        if !self.quotation.is_trading() || self.quotation.opts.codes.len() == 0 {
            return None;
        }
        if self.bar.is_none() {
            self.bar = Some(Vec::new());
        }
        let mut bars = self.bar.take().unwrap();
        let ghost base = bars@;
        let freq = self.quotation.opts.frequency;
        let mut ready = false;
        let nticks = ticks.len();
        let mut i: usize = 0;
        proof {
            assert(ticks@.take(0) =~= Seq::<crate::fetch::Quot>::empty());
        }
        while i < nticks
            invariant
                0 <= i <= nticks,
                nticks == ticks@.len(),
                n.wf(),
                bars_wf(bars@),
                forall|k: int|
                    0 <= k < i ==> crate::quot::has_code(bars@, (#[trigger] ticks@[k]).code@),
                bars@ == spec_aggregate(base, ticks@.take(i as int), n, freq),
                ready == (i > 0 && spec_ready(base, ticks@[0], n, freq)),
            decreases nticks - i,
        {
            let q = &ticks[i];
            let ghost before = bars@;
            let found = find_bar_idx(&bars, &q.code);
            let at: usize = match found {
                Some(j) => j,
                None => {
                    let qb = QuotBar {
                        frequency: freq,
                        open: q.now,
                        high: q.now,
                        low: q.now,
                        close: q.now,
                        start: n,
                        end: n,
                        quot: q.clone(),
                    };
                    bars.push(qb);
                    proof {
                        assert(forall|k: int|
                            0 <= k < before.len() ==> bars@[k] == before[k]);
                    }
                    bars.len() - 1
                },
            };
            let ghost mid = bars@;
            let mut qb = bars[at].clone();
            if qb.high < q.now {
                qb.high = q.now;
            }
            if qb.low > q.now {
                qb.low = q.now;
            }
            qb.close = q.now;
            qb.end = q.time;
            qb.quot = q.clone();
            bars.set(at, qb);
            proof {
                assert(bars@[at as int].quot.code@ == q.code@);
                assert(forall|k: int|
                    0 <= k < bars@.len() && k != at ==> bars@[k] == mid[k]);
                // the iteration is exactly one spec-level upsert
                match found {
                    Some(_) => {
                        assert(bars@[at as int] == spec_tick_into(before[at as int], *q));
                        assert(bars@ =~= spec_upsert_tick(before, *q, n, freq));
                    },
                    None => {
                        assert(bars@[at as int] == spec_new_bar(*q, n, freq));
                        assert(bars@ =~= spec_upsert_tick(before, *q, n, freq));
                    },
                }
                assert(ticks@.take(i + 1) =~= ticks@.take(i as int).push(ticks@[i as int]));
                lemma_aggregate_snoc(base, ticks@.take(i as int), ticks@[i as int], n, freq);
            }
            if i == 0 {
                let start_stamp = ts_stamp(&bars[at].start);
                let now_stamp = ts_stamp(&n);
                proof {
                    match found {
                        Some(_) => {
                            assert(bars@[at as int].start == base[at as int].start);
                        },
                        None => {
                            assert(bars@[at as int].start == n);
                            assert(n.stamp() - n.stamp() == 0);
                        },
                    }
                }
                if now_stamp - start_stamp >= freq as i64 {
                    ready = true;
                }
                proof {
                    assert(ready == spec_ready(base, ticks@[0], n, freq));
                }
            }
            i = i + 1;
        }
        proof {
            assert(ticks@.take(nticks as int) =~= ticks@);
        }
        if ready {
            let d = match self.quotation.trade_date {
                Some(d) => d,
                None => 0,
            };
            proof {
                self.quotation.hist@ = self.quotation.hist@.push(Emit::Bar { date: d });
                assert(self.quotation.hist@.drop_last() =~= old(self).quotation.hist@);
            }
            Some(QuotData::Quot(bars))
        } else {
            self.bar = Some(bars);
            None
        }
    }
}

/// What can go wrong when bars are handed to the replay index.
#[derive(Clone, Copy, Debug, PartialEq, Eq, Structural)]
pub enum ReplayError {
    BadBar,
}

/// One replay slot: every loaded bar ending at time `t`, one per code.
#[derive(Debug)]
pub struct ReplayEntry {
    pub t: Ts,
    pub bars: Vec<QuotBar>,
}

impl ReplayEntry {
    /// A coherent slot: a well-formed time with day headroom, and at least
    /// one bar; every bar is well formed, ends exactly at `t`, and names a
    /// distinct code.
    pub open spec fn wf(self) -> bool {
        &&& self.t.wf()
        &&& self.t.days < u32::MAX
        &&& self.bars@.len() > 0
        &&& forall|j: int|
            0 <= j < self.bars@.len() ==> (#[trigger] self.bars@[j]).wf() && self.bars@[j].end
                == self.t
        &&& crate::quot::codes_unique(self.bars@)
    }
}

/// The slot has some bar for `code`.
pub open spec fn entry_has_code(e: ReplayEntry, code: Seq<char>) -> bool {
    exists|j: int| 0 <= j < e.bars@.len() && (#[trigger] e.bars@[j]).quot.code@ == code
}

/// Some slot at `sb.time` holds a bar for `code` with exactly `sb`'s prices.
pub open spec fn has_bar(list: Seq<ReplayEntry>, code: Seq<char>, sb: crate::fetch::StockBar) -> bool {
    exists|i: int, j: int|
        #![trigger list[i].bars@[j]]
        {
            &&& 0 <= i < list.len()
            &&& 0 <= j < list[i].bars@.len()
            &&& list[i].t == sb.time
            &&& list[i].bars@[j].quot.code@ == code
            &&& list[i].bars@[j].open == sb.open
            &&& list[i].bars@[j].high == sb.high
            &&& list[i].bars@[j].low == sb.low
            &&& list[i].bars@[j].close == sb.close
        }
}

/// Every code in the index is one of the loaded codes.
pub open spec fn codes_loaded(list: Seq<ReplayEntry>, loaded: Seq<String>) -> bool {
    forall|i: int, j: int|
        #![trigger list[i].bars@[j]]
        0 <= i < list.len() && 0 <= j < list[i].bars@.len() ==> exists|l: int|
            0 <= l < loaded.len() && (#[trigger] loaded[l])@ == list[i].bars@[j].quot.code@
}

/// The bar a replay row loads for a code: the row's prices, ending at the
/// row's time.
pub open spec fn replay_bar_matches(b: QuotBar, code: Seq<char>, row: crate::fetch::StockBar) -> bool {
    &&& b.quot.code@ == code
    &&& b.open == row.open
    &&& b.high == row.high
    &&& b.low == row.low
    &&& b.close == row.close
    &&& b.end == row.time
}

/// The bar was in the index `l0` already, or it carries one of the given
/// rows for `code`.
pub open spec fn bar_accounted(
    l0: Seq<ReplayEntry>,
    b: QuotBar,
    code: Seq<char>,
    rows: Seq<crate::fetch::StockBar>,
) -> bool {
    ||| exists|i0: int, j0: int|
        0 <= i0 < l0.len() && 0 <= j0 < l0[i0].bars@.len() && #[trigger] l0[i0].bars@[j0] == b
    ||| exists|k: int| 0 <= k < rows.len() && replay_bar_matches(b, code, #[trigger] rows[k])
}

/// A bar present in the index is accounted for.
proof fn lemma_bar_in_index(
    l0: Seq<ReplayEntry>,
    i0: int,
    j0: int,
    b: QuotBar,
    code: Seq<char>,
    rows: Seq<crate::fetch::StockBar>,
)
    requires
        0 <= i0 < l0.len(),
        0 <= j0 < l0[i0].bars@.len(),
        l0[i0].bars@[j0] == b,
    ensures
        bar_accounted(l0, b, code, rows),
{
}

/// A bar carrying one of the rows is accounted for.
proof fn lemma_bar_from_row(
    l0: Seq<ReplayEntry>,
    b: QuotBar,
    code: Seq<char>,
    rows: Seq<crate::fetch::StockBar>,
    k: int,
)
    requires
        0 <= k < rows.len(),
        replay_bar_matches(b, code, rows[k]),
    ensures
        bar_accounted(l0, b, code, rows),
{
}

/// Every bar of `l1` was in `l0` already or carries one of the given rows
/// for `code`: loading adds nothing else to the index.
pub open spec fn bars_only_from(
    l0: Seq<ReplayEntry>,
    l1: Seq<ReplayEntry>,
    code: Seq<char>,
    rows: Seq<crate::fetch::StockBar>,
) -> bool {
    forall|i: int, j: int|
        #![trigger l1[i].bars@[j]]
        0 <= i < l1.len() && 0 <= j < l1[i].bars@.len() ==> bar_accounted(
            l0,
            l1[i].bars@[j],
            code,
            rows,
        )
}

/// A coherent replay index: strictly ascending slot times, coherent slots.
pub open spec fn replay_wf(list: Seq<ReplayEntry>) -> bool {
    &&& forall|i: int, j: int|
        0 <= i < j < list.len() ==> (#[trigger] list[i]).t.stamp() < (#[trigger] list[j]).t.stamp()
    &&& forall|i: int| 0 <= i < list.len() ==> (#[trigger] list[i]).wf()
}

/// An input bar the replay accepts: coherent prices and a well-formed end
/// time with day headroom.
pub open spec fn stock_bar_ok(b: crate::fetch::StockBar) -> bool {
    &&& b.low <= b.open <= b.high
    &&& b.low <= b.close <= b.high
    &&& b.time.wf()
    &&& b.time.days < u32::MAX
}

/// The bar frequencies the replay serves.
pub open spec fn freq_supported(f: u32) -> bool {
    f == 60 || f == 300 || f == 900 || f == 1800 || f == 3600 || f == 86400
}

/// Two well-formed times with the same stamp are the same time.
pub proof fn lemma_ts_stamp_inj(a: Ts, b: Ts)
    requires
        a.wf(),
        b.wf(),
        a.stamp() == b.stamp(),
    ensures
        a == b,
{
    assert(a.days == b.days && a.secs == b.secs) by (nonlinear_arith)
        requires
            a.secs < 86400,
            b.secs < 86400,
            a.days * 86400 + a.secs == b.days * 86400 + b.secs,
    ;
}

/// The backtest engine: the session machine, the replay index, and the
/// cursor; `loaded` lists the codes whose history is already merged.
pub struct BacktestQuotation {
    pub quotation: MyQuotation,
    pub bar_list: Vec<ReplayEntry>,
    pub index: usize,
    pub loaded: Vec<String>,
}

impl BacktestQuotation {
    pub open spec fn inv(self) -> bool {
        &&& self.quotation.inv()
        &&& replay_wf(self.bar_list@)
        &&& self.index <= self.bar_list@.len()
        &&& codes_loaded(self.bar_list@, self.loaded@)
    }

    /// The trace so far.
    pub open spec fn history(self) -> Seq<Emit> {
        self.quotation.history()
    }

    pub fn new(opts: QuotOpts) -> (r: Self)
        ensures
            r.quotation.opts == opts,
            r.history() == Seq::<Emit>::empty(),
            r.bar_list@.len() == 0,
            r.loaded@.len() == 0,
            r.index == 0,
            !r.quotation.is_start,
            !r.quotation.is_end,
            r.quotation.trade_date is None,
            r.inv(),
    {
        BacktestQuotation {
            quotation: MyQuotation::new(opts),
            bar_list: Vec::new(),
            index: 0,
            loaded: Vec::new(),
        }
    }

    /// Merges one code's history into the replay index: the code joins the
    /// subscription, and — unless it was already loaded or the frequency is
    /// not a bar frequency — every bar lands in the slot of its end time.
    /// A malformed bar (broken price relation, bad time, or times not
    /// strictly ascending) rejects the whole call and changes nothing.
    #[verifier::rlimit(100)]
    pub fn add_codes(&mut self, code: &String, bars: &Vec<crate::fetch::StockBar>) -> (r: Result<
        (),
        ReplayError,
    >)
        requires
            old(self).inv(),
        ensures
            final(self).inv(),
            final(self).history() == old(self).history(),
            final(self).index == old(self).index,
            final(self).quotation.opts.frequency == old(self).quotation.opts.frequency,
            r is Err ==> *final(self) == *old(self),
            r is Err <==> freq_supported(old(self).quotation.opts.frequency) && !(forall|k: int|
                0 <= k < bars@.len() ==> stock_bar_ok(#[trigger] bars@[k]) && (k > 0 ==> bars@[k
                    - 1].time.stamp() < bars@[k].time.stamp())),
            !freq_supported(old(self).quotation.opts.frequency) ==> *final(self) == *old(self),
            r is Ok && freq_supported(old(self).quotation.opts.frequency)
                ==> final(self).quotation.opts.codes@ == merge_step(
                old(self).quotation.opts.codes@,
                *code,
            ),
            r is Ok && freq_supported(old(self).quotation.opts.frequency) && !(exists|l: int|
                0 <= l < old(self).loaded@.len() && (#[trigger] old(self).loaded@[l])@ == code@)
                ==> forall|k: int|
                0 <= k < bars@.len() ==> has_bar(final(self).bar_list@, code@, #[trigger] bars@[k]),
            // nothing enters the index but the given rows: every bar there
            // afterwards was there before or carries one of the rows
            r is Ok ==> bars_only_from(old(self).bar_list@, final(self).bar_list@, code@, bars@),
            // an already-loaded code only refreshes the subscription list
            r is Ok && (exists|l: int|
                0 <= l < old(self).loaded@.len() && (#[trigger] old(self).loaded@[l])@ == code@)
                ==> final(self).bar_list@ == old(self).bar_list@ && final(self).loaded@ == old(
                self,
            ).loaded@,
            // nothing but the subscription, the loaded set and the index moves
            final(self).quotation == (MyQuotation {
                opts: final(self).quotation.opts,
                ..old(self).quotation
            }),
            final(self).quotation.opts == (QuotOpts {
                codes: final(self).quotation.opts.codes,
                ..old(self).quotation.opts
            }),
    {
        let freq = self.quotation.opts.frequency;
        if !(freq == 60 || freq == 300 || freq == 900 || freq == 1800 || freq == 3600 || freq
            == 86400) {
        proof {
            lemma_replay_bars_identity(old(self).bar_list@, self.bar_list@, code@, bars@);
        }
            return Ok(());
        }
        // validate everything before touching any state
        let nbars = bars.len();
        let mut k: usize = 0;
        while k < nbars
            invariant
                0 <= k <= nbars,
                nbars == bars@.len(),
                *self == *old(self),
                old(self).inv(),
                freq == self.quotation.opts.frequency,
                freq == 60 || freq == 300 || freq == 900 || freq == 1800 || freq == 3600 || freq
                    == 86400,
                forall|j: int|
                    0 <= j < k ==> stock_bar_ok(#[trigger] bars@[j]) && (j > 0 ==> bars@[j
                        - 1].time.stamp() < bars@[j].time.stamp()),
            decreases nbars - k,
        {
            let b = &bars[k];
            let ok = b.low <= b.open && b.open <= b.high && b.low <= b.close && b.close <= b.high
                && b.time.secs < 86400 && b.time.days < u32::MAX;
            if !ok {
                return Err(ReplayError::BadBar);
            }
            if k > 0 {
                if ts_stamp(&bars[k - 1].time) >= ts_stamp(&b.time) {
                    return Err(ReplayError::BadBar);
                }
            }
            k = k + 1;
        }
        // subscribe the code
        if !contains_code(&self.quotation.opts.codes, code) {
            self.quotation.opts.codes.push(code.clone());
        }
        if contains_code(&self.loaded, code) {
        proof {
            lemma_replay_bars_identity(old(self).bar_list@, self.bar_list@, code@, bars@);
        }
            return Ok(());
        }
        let ghost pre_loaded = self.loaded@;
        self.loaded.push(code.clone());
        proof {
            assert(self.loaded@[self.loaded@.len() - 1]@ == code@);
            assert(codes_loaded(self.bar_list@, pre_loaded));
            assert forall|i: int, j: int|
                #![trigger self.bar_list@[i].bars@[j]]
                0 <= i < self.bar_list@.len() && 0 <= j
                    < self.bar_list@[i].bars@.len() implies exists|l: int|
                0 <= l < self.loaded@.len() && (#[trigger] self.loaded@[l])@
                    == self.bar_list@[i].bars@[j].quot.code@ by {
                let l0 = choose|l: int|
                    0 <= l < pre_loaded.len() && (#[trigger] pre_loaded[l])@
                        == self.bar_list@[i].bars@[j].quot.code@;
                assert(self.loaded@[l0]@ == self.bar_list@[i].bars@[j].quot.code@);
            }
            assert(codes_loaded(self.bar_list@, self.loaded@));
            assert forall|i: int|
                0 <= i < self.bar_list@.len() implies !entry_has_code(
                #[trigger] self.bar_list@[i],
                code@,
            ) by {
                if entry_has_code(self.bar_list@[i], code@) {
                    let j = choose|j: int|
                        0 <= j < self.bar_list@[i].bars@.len() && (#[trigger] self.bar_list@[i].bars@[j]).quot.code@
                            == code@;
                    let l0 = choose|l: int|
                        0 <= l < pre_loaded.len() && (#[trigger] pre_loaded[l])@
                            == self.bar_list@[i].bars@[j].quot.code@;
                }
            }
        }
        // merge every bar into its slot
        proof {
            lemma_replay_bars_identity(old(self).bar_list@, self.bar_list@, code@, bars@);
        }
        let ghost snap_loaded = self.loaded@;
        let mut k: usize = 0;
        while k < nbars
            invariant
                0 <= k <= nbars,
                nbars == bars@.len(),
                forall|j: int|
                    0 <= j < nbars ==> stock_bar_ok(#[trigger] bars@[j]) && (j > 0 ==> bars@[j
                        - 1].time.stamp() < bars@[j].time.stamp()),
                self.inv(),
                freq == self.quotation.opts.frequency,
                freq == 60 || freq == 300 || freq == 900 || freq == 1800 || freq == 3600 || freq
                    == 86400,
                self.quotation == (MyQuotation { opts: self.quotation.opts, ..old(self).quotation }),
                self.quotation.opts == (QuotOpts {
                    codes: self.quotation.opts.codes,
                    ..old(self).quotation.opts
                }),
                self.quotation.opts.codes@ == merge_step(old(self).quotation.opts.codes@, *code),
                self.loaded@ == snap_loaded,
                self.index == old(self).index,
                forall|j: int|
                    0 <= j < k ==> has_bar(self.bar_list@, code@, #[trigger] bars@[j]),
                bars_only_from(old(self).bar_list@, self.bar_list@, code@, bars@),
                forall|i: int|
                    0 <= i < self.bar_list@.len() && entry_has_code(
                        #[trigger] self.bar_list@[i],
                        code@,
                    ) ==> (k > 0 && self.bar_list@[i].t.stamp() <= bars@[k - 1].time.stamp()),
                snap_loaded.len() >= 1,
                snap_loaded[snap_loaded.len() - 1]@ == code@,
            decreases nbars - k,
        {
            let sb = &bars[k];
            let start = ts_sub_secs(sb.time, freq);
            let tick = crate::fetch::Quot {
                code: code.clone(),
                name: String::new(),
                open: sb.open,
                pre_close: 0,
                now: sb.close,
                high: sb.high,
                low: sb.low,
                buy: sb.close,
                sell: sb.close,
                vol: sb.vol,
                amount: 0,
                bid: [crate::fetch::Level { vol: 0, price: 0 };5],
                ask: [crate::fetch::Level { vol: 0, price: 0 };5],
                date: sb.time.days,
                time: sb.time,
            };
            let qb = QuotBar {
                frequency: freq,
                open: sb.open,
                high: sb.high,
                low: sb.low,
                close: sb.close,
                start,
                end: sb.time,
                quot: tick,
            };
            let ghost pre = self.bar_list@;
            insert_bar(&mut self.bar_list, qb);
            proof {
                assert forall|j: int| 0 <= j < k + 1 implies has_bar(
                    self.bar_list@,
                    code@,
                    #[trigger] bars@[j],
                ) by {
                    if j < k {
                        assert(has_bar(pre, code@, bars@[j]));
                    } else {
                        let (i1, j1) = choose|i1: int, j1: int|
                            #![trigger self.bar_list@[i1].bars@[j1]]
                            {
                                &&& 0 <= i1 < self.bar_list@.len()
                                &&& 0 <= j1 < self.bar_list@[i1].bars@.len()
                                &&& self.bar_list@[i1].t == qb.end
                                &&& self.bar_list@[i1].bars@[j1] == qb
                            };
                        assert(self.bar_list@[i1].bars@[j1].quot.code@ == code@);
                    }
                }
                assert(codes_loaded(pre, self.loaded@));
                assert forall|i1: int, j1: int|
                    #![trigger self.bar_list@[i1].bars@[j1]]
                    0 <= i1 < self.bar_list@.len() && 0 <= j1
                        < self.bar_list@[i1].bars@.len() implies exists|l: int|
                    0 <= l < self.loaded@.len() && (#[trigger] self.loaded@[l])@
                        == self.bar_list@[i1].bars@[j1].quot.code@ by {
                    let b = self.bar_list@[i1].bars@[j1];
                    assert(b == qb || exists|i0: int, j0: int|
                        #![trigger pre[i0].bars@[j0]]
                        0 <= i0 < pre.len() && 0 <= j0 < pre[i0].bars@.len() && pre[i0].bars@[j0]
                            == b);
                    if b == qb {
                        assert(qb.quot.code@ == code@);
                        assert(self.loaded@[snap_loaded.len() - 1]@ == code@);
                    } else {
                        let (i0, j0) = choose|i0: int, j0: int|
                            #![trigger pre[i0].bars@[j0]]
                            {
                                &&& 0 <= i0 < pre.len()
                                &&& 0 <= j0 < pre[i0].bars@.len()
                                &&& pre[i0].bars@[j0] == b
                            };
                        assert(0 <= i0 < pre.len() && 0 <= j0 < pre[i0].bars@.len());
                        let l0 = choose|l: int|
                            0 <= l < self.loaded@.len() && (#[trigger] self.loaded@[l])@
                                == pre[i0].bars@[j0].quot.code@;
                        assert(self.loaded@[l0]@ == b.quot.code@);
                    }
                }
                assert(codes_loaded(self.bar_list@, self.loaded@));
                assert(bars_only_from(old(self).bar_list@, pre, code@, bars@));
                assert forall|i1: int, j1: int|
                    #![trigger self.bar_list@[i1].bars@[j1]]
                    0 <= i1 < self.bar_list@.len() && 0 <= j1
                        < self.bar_list@[i1].bars@.len() implies bar_accounted(
                    old(self).bar_list@,
                    self.bar_list@[i1].bars@[j1],
                    code@,
                    bars@,
                ) by {
                    let b = self.bar_list@[i1].bars@[j1];
                    if b == qb {
                        assert(replay_bar_matches(qb, code@, bars@[k as int]));
                        lemma_bar_from_row(old(self).bar_list@, b, code@, bars@, k as int);
                    } else {
                        let (i0, j0) = choose|i0: int, j0: int|
                            #![trigger pre[i0].bars@[j0]]
                            {
                                &&& 0 <= i0 < pre.len()
                                &&& 0 <= j0 < pre[i0].bars@.len()
                                &&& pre[i0].bars@[j0] == b
                            };
                        assert(0 <= i0 < pre.len() && 0 <= j0 < pre[i0].bars@.len());
                        assert(bar_accounted(old(self).bar_list@, pre[i0].bars@[j0], code@, bars@));
                    }
                }
                assert(bars_only_from(old(self).bar_list@, self.bar_list@, code@, bars@));
                assert forall|i1: int|
                    0 <= i1 < self.bar_list@.len() && entry_has_code(
                    #[trigger] self.bar_list@[i1],
                    code@,
                ) implies self.bar_list@[i1].t.stamp() <= bars@[k as int].time.stamp() by {
                    if self.bar_list@[i1].t.stamp() != qb.end.stamp() {
                        let i0 = choose|i0: int|
                            0 <= i0 < pre.len() && (#[trigger] pre[i0]).t == self.bar_list@[i1].t
                                && entry_has_code(pre[i0], code@);
                        assert(pre[i0].t.stamp() <= bars@[k as int].time.stamp());
                    }
                }
            }
            k = k + 1;
        }
        Ok(())
    }

    /// One replay step: the stream start first; after the index is drained,
    /// any phases still missing for the final date (at canonical times) and
    /// then the stream end, exactly once; otherwise the phases due at the
    /// current slot's synthetic clock (the slot time, moved to the morning
    /// open for daily bars), and then the slot's bars.
    #[verifier::rlimit(60)]
    pub fn get_quot(&mut self, now: Ts) -> (r: Option<QuotData>)
        requires
            old(self).inv(),
            now.wf(),
        ensures
            final(self).inv(),
            old(self).quotation.is_end ==> r is None && *final(self) == *old(self),
            match r {
                None => final(self).history() == old(self).history(),
                Some(q) => {
                    &&& final(self).history() == old(self).history().push(
                        final(self).history().last(),
                    )
                    &&& emit_matches(q, final(self).history().last())
                    &&& (q matches QuotData::Quot(bars) ==> bars_wf(bars@) && old(self).index
                        < old(self).bar_list@.len() && bars@ == old(self).bar_list@[old(
                        self,
                    ).index as int].bars@ && final(self).index == old(self).index + 1)
                    &&& (q matches QuotData::QuotEnd(_) ==> final(self).quotation.is_end)
                },
            },
            // the index, the loaded set and the subscription never move here;
            // the cursor advances exactly when a bar batch is returned
            final(self).bar_list@ == old(self).bar_list@,
            final(self).loaded@ == old(self).loaded@,
            final(self).quotation.opts == old(self).quotation.opts,
            !(r matches Some(QuotData::Quot(_))) ==> final(self).index == old(self).index,
            // the stream start is owed at the first call, and it changes
            // nothing but the start latch and the trace
            (!old(self).quotation.is_start && !old(self).quotation.is_end) ==> (r matches Some(
                q,
            ) && q matches QuotData::QuotStart(st) && st.opts.eqv(old(self).quotation.opts)
                && st.time == now && final(self).quotation.is_start && *final(self) == (
            BacktestQuotation {
                quotation: final(self).quotation,
                ..*old(self)
            }) && final(self).quotation == (MyQuotation {
                is_start: true,
                hist: final(self).quotation.hist,
                ..old(self).quotation
            })),
            // while the index is not drained, the phase due at the slot's
            // synthetic clock is owed, and with none due the slot's bars
            (old(self).quotation.is_start && !old(self).quotation.is_end && old(self).index < old(
                self,
            ).bar_list@.len()) ==> ({
                let tq = if old(self).quotation.opts.frequency == crate::quot::FREQ_1D {
                    spec_ts_plus(old(self).bar_list@[old(self).index as int].t, MORNING_OPEN_SEC)
                } else {
                    old(self).bar_list@[old(self).index as int].t
                };
                match spec_base_event(old(self).quotation, tq, true) {
                    Some(e) => {
                        &&& r matches Some(q)
                        &&& emit_matches(q, Emit::Phase { date: e.0, idx: e.1 })
                        &&& status_of(q).time == e.2
                        &&& final(self).index == old(self).index
                        &&& final(self).quotation.nsent == e.1 + 1
                    },
                    None => {
                        if same_trade_date(old(self).quotation, tq) && old(
                            self,
                        ).quotation.nsent >= 1 {
                            r matches Some(q) && q matches QuotData::Quot(bars) && bars@ == old(
                                self,
                            ).bar_list@[old(self).index as int].bars@ && final(self).index == old(
                                self,
                            ).index + 1
                        } else {
                            r is None
                        }
                    },
                }
            }),
            // once the index is drained, the final date's missing phases are
            // owed at canonical times, and then the stream end, exactly once
            (old(self).quotation.is_start && !old(self).quotation.is_end && old(self).index >= old(
                self,
            ).bar_list@.len()) ==> ({
                if old(self).bar_list@.len() == 0 {
                    r is None && *final(self) == *old(self)
                } else if old(self).quotation.trade_date is Some && old(
                    self,
                ).quotation.nsent < 4 {
                    &&& r matches Some(q)
                    &&& emit_matches(
                        q,
                        Emit::Phase {
                            date: old(self).quotation.trade_date->0,
                            idx: old(self).quotation.nsent as u32,
                        },
                    )
                    &&& status_of(q).time == (Ts {
                        days: old(self).quotation.trade_date->0,
                        secs: phase_sec(old(self).quotation.nsent as u32),
                    })
                    &&& !final(self).quotation.is_end
                } else {
                    &&& r matches Some(q)
                    &&& q matches QuotData::QuotEnd(st)
                    &&& st.opts.eqv(old(self).quotation.opts)
                    &&& st.time == (match old(self).quotation.trade_date {
                        Some(d) => Ts { days: d, secs: NOON_CLOSE_SEC },
                        None => now,
                    })
                    &&& final(self).quotation.is_end
                }
            }),
    {
        if self.quotation.is_end {
            return None;
        }
        if !self.quotation.is_start {
            self.quotation.is_start = true;
            let st = QuotStatus { opts: self.quotation.opts.clone(), time: now };
            proof {
                self.quotation.hist@ = self.quotation.hist@.push(Emit::Start);
                assert(self.quotation.hist@.drop_last() =~= old(self).quotation.hist@);
            }
            return Some(QuotData::QuotStart(st));
        }
        let len = self.bar_list.len();
        if self.index >= len {
            if len == 0 {
                return None;
            }
            // finish the final date's phases, then end the stream
            if let Some(d) = self.quotation.trade_date {
                if self.quotation.nsent < 4 {
                    let i = self.quotation.nsent;
                    self.quotation.nsent = i + 1;
                    let sec: u32 = if i == 0 {
                        MORNING_OPEN_SEC
                    } else if i == 1 {
                        MORNING_CLOSE_SEC
                    } else if i == 2 {
                        NOON_OPEN_SEC
                    } else {
                        NOON_CLOSE_SEC
                    };
                    let t = Ts { days: d, secs: sec };
                    return Some(self.quotation.emit_phase(i, t));
                }
            }
            let et = match self.quotation.trade_date {
                Some(d) => Ts { days: d, secs: NOON_CLOSE_SEC },
                None => now,
            };
            self.quotation.is_end = true;
            let st = QuotStatus { opts: self.quotation.opts.clone(), time: et };
            proof {
                self.quotation.hist@ = self.quotation.hist@.push(Emit::End);
                assert(self.quotation.hist@.drop_last() =~= old(self).quotation.hist@);
            }
            return Some(QuotData::QuotEnd(st));
        }
        let t = self.bar_list[self.index].t;
        let tq = if self.quotation.opts.frequency == crate::quot::FREQ_1D {
            ts_add_secs(t, MORNING_OPEN_SEC)
        } else {
            t
        };
        let be = self.quotation.get_base_event(tq, true);
        if let Some(q) = be {
            return Some(q);
        }
        // the slot's bars, gated so the trace stays a run
        let emit_ok = match self.quotation.trade_date {
            Some(d) => d == tq.days && self.quotation.nsent >= 1,
            None => false,
        };
        if !emit_ok {
            return None;
        }
        let bars = self.bar_list[self.index].bars.clone();
        proof {
            assert forall|i: int| 0 <= i < bars@.len() implies bars@[i]
                == self.bar_list@[self.index as int].bars@[i] by {
                assert(vstd::pervasive::cloned::<QuotBar>(
                    self.bar_list@[self.index as int].bars@[i],
                    bars@[i],
                ));
            }
            assert(bars@ =~= self.bar_list@[self.index as int].bars@);
        }
        self.index = self.index + 1;
        let ghost d = self.quotation.trade_date->0;
        proof {
            self.quotation.hist@ = self.quotation.hist@.push(Emit::Bar { date: d });
            assert(self.quotation.hist@.drop_last() =~= old(self).quotation.hist@);
        }
        Some(QuotData::Quot(bars))
    }
}

/// Every bar of an unchanged index was already there: loading nothing adds
/// nothing.
proof fn lemma_replay_bars_identity(
    l0: Seq<ReplayEntry>,
    l1: Seq<ReplayEntry>,
    code: Seq<char>,
    rows: Seq<crate::fetch::StockBar>,
)
    requires
        l0 == l1,
    ensures
        bars_only_from(l0, l1, code, rows),
{
    assert forall|i1: int, j1: int|
        #![trigger l1[i1].bars@[j1]]
        0 <= i1 < l1.len() && 0 <= j1 < l1[i1].bars@.len() implies bar_accounted(
        l0,
        l1[i1].bars@[j1],
        code,
        rows,
    ) by {
        lemma_bar_in_index(l0, i1, j1, l1[i1].bars@[j1], code, rows);
    }
}

/// Puts one bar into the slot of its end time, keeping the index sorted; the
/// slot is created if missing. Everything already present stays where it is.
#[verifier::rlimit(60)]
fn insert_bar(list: &mut Vec<ReplayEntry>, qb: QuotBar)
    requires
        replay_wf(old(list)@),
        qb.wf(),
        qb.end.days < u32::MAX,
        forall|i: int|
            0 <= i < old(list)@.len() && (#[trigger] old(list)@[i]).t.stamp() == qb.end.stamp()
                ==> !entry_has_code(old(list)@[i], qb.quot.code@),
    ensures
        replay_wf(final(list)@),
        exists|i: int, j: int|
            #![trigger final(list)@[i].bars@[j]]
            0 <= i < final(list)@.len() && 0 <= j < final(list)@[i].bars@.len()
                && final(list)@[i].t == qb.end && final(list)@[i].bars@[j] == qb,
        final(list)@.len() >= old(list)@.len(),
        forall|c: Seq<char>, sb: crate::fetch::StockBar| #[trigger]
            has_bar(old(list)@, c, sb) ==> has_bar(final(list)@, c, sb),
        forall|i: int|
            0 <= i < final(list)@.len() && entry_has_code(#[trigger] final(list)@[i], qb.quot.code@)
                ==> final(list)@[i].t.stamp() == qb.end.stamp() || (exists|i0: int|
                0 <= i0 < old(list)@.len() && (#[trigger] old(list)@[i0]).t == final(list)@[i].t
                    && entry_has_code(old(list)@[i0], qb.quot.code@)),
        forall|i: int, j: int|
            #![trigger final(list)@[i].bars@[j]]
            0 <= i < final(list)@.len() && 0 <= j < final(list)@[i].bars@.len()
                ==> (final(list)@[i].bars@[j] == qb || exists|i0: int, j0: int|
                #![trigger old(list)@[i0].bars@[j0]]
                0 <= i0 < old(list)@.len() && 0 <= j0 < old(list)@[i0].bars@.len()
                    && old(list)@[i0].bars@[j0] == final(list)@[i].bars@[j]),
{
    let n = list.len();
    let target = ts_stamp(&qb.end);
    let mut i: usize = 0;
    while i < n
        invariant
            0 <= i <= n,
            n == list@.len(),
            target == qb.end.stamp(),
            list@ == old(list)@,
            forall|j: int| 0 <= j < i ==> (#[trigger] list@[j]).t.stamp() < target,
        ensures
            0 <= i <= n,
            n == list@.len(),
            list@ == old(list)@,
            forall|j: int| 0 <= j < i ==> (#[trigger] list@[j]).t.stamp() < target,
            i == n || list@[i as int].t.stamp() >= target,
        decreases n - i,
    {
        if ts_stamp(&list[i].t) >= target {
            break ;
        }
        i = i + 1;
    }
    if i < list.len() && ts_stamp(&list[i].t) == target {
        proof {
            lemma_ts_stamp_inj(list@[i as int].t, qb.end);
        }
        let ghost orig = list@;
        let ghost oldbars = list@[i as int].bars@;
        let mut entry = ReplayEntry { t: qb.end, bars: Vec::new() };
        list.set_and_swap(i, &mut entry);
        // entry now holds the slot that was at `i`
        entry.bars.push(qb);
        list.set_and_swap(i, &mut entry);
        proof {
            assert(list@.len() == orig.len());
            assert(forall|x: int| 0 <= x < orig.len() && x != i ==> list@[x] == orig[x]);
            assert(list@[i as int].t == orig[i as int].t);
            assert(list@[i as int].bars@ == oldbars.push(qb));
            assert(list@[i as int].bars@[oldbars.len() as int] == qb);
            assert(forall|j: int| 0 <= j < oldbars.len() ==> list@[i as int].bars@[j] == oldbars[j]);
            assert((#[trigger] list@[i as int]).wf()) by {
                assert(forall|j: int|
                    0 <= j < oldbars.len() ==> (#[trigger] oldbars[j]).quot.code@ != qb.quot.code@);
            }
            assert forall|c: Seq<char>, sb: crate::fetch::StockBar| #[trigger]
                has_bar(orig, c, sb) implies has_bar(list@, c, sb) by {
                let (i0, j0) = choose|i0: int, j0: int|
                    #![trigger orig[i0].bars@[j0]]
                    {
                        &&& 0 <= i0 < orig.len()
                        &&& 0 <= j0 < orig[i0].bars@.len()
                        &&& orig[i0].t == sb.time
                        &&& orig[i0].bars@[j0].quot.code@ == c
                        &&& orig[i0].bars@[j0].open == sb.open
                        &&& orig[i0].bars@[j0].high == sb.high
                        &&& orig[i0].bars@[j0].low == sb.low
                        &&& orig[i0].bars@[j0].close == sb.close
                    };
                assert(list@[i0].bars@[j0] == orig[i0].bars@[j0]);
            }
        }
    } else {
        let t_new = qb.end;
        let mut bars: Vec<QuotBar> = Vec::new();
        bars.push(qb);
        let entry = ReplayEntry { t: t_new, bars };
        proof {
            assert(i < old(list)@.len() ==> old(list)@[i as int].t.stamp() > target);
            assert(entry.bars@[0] == qb);
            assert(entry.wf());
        }
        list.insert(i, entry);
        proof {
            assert(forall|x: int| 0 <= x < i ==> list@[x] == old(list)@[x]);
            assert(forall|x: int|
                i < x < list@.len() ==> list@[x] == old(list)@[x - 1]);
            assert(list@[i as int] == entry);
            assert forall|c: Seq<char>, sb: crate::fetch::StockBar| #[trigger]
                has_bar(old(list)@, c, sb) implies has_bar(list@, c, sb) by {
                let (i0, j0) = choose|i0: int, j0: int|
                    #![trigger old(list)@[i0].bars@[j0]]
                    {
                        &&& 0 <= i0 < old(list)@.len()
                        &&& 0 <= j0 < old(list)@[i0].bars@.len()
                        &&& old(list)@[i0].t == sb.time
                        &&& old(list)@[i0].bars@[j0].quot.code@ == c
                        &&& old(list)@[i0].bars@[j0].open == sb.open
                        &&& old(list)@[i0].bars@[j0].high == sb.high
                        &&& old(list)@[i0].bars@[j0].low == sb.low
                        &&& old(list)@[i0].bars@[j0].close == sb.close
                    };
                let i1: int = if i0 < i { i0 } else { i0 + 1 };
                assert(list@[i1].bars@[j0] == old(list)@[i0].bars@[j0]);
                assert(list@[i1].t == old(list)@[i0].t);
            }
        }
    }
}

/// `t` moved `s` seconds forward.
pub open spec fn spec_ts_plus(t: Ts, s: u32) -> Ts {
    if t.secs + s < 86400 {
        Ts { days: t.days, secs: (t.secs + s) as u32 }
    } else {
        Ts { days: (t.days + 1) as u32, secs: (t.secs + s - 86400) as u32 }
    }
}

fn ts_add_secs(t: Ts, s: u32) -> (r: Ts)
    requires
        t.wf(),
        s < 86400,
        t.days < u32::MAX,
    ensures
        r == spec_ts_plus(t, s),
        r.wf(),
        r.stamp() == t.stamp() + s,
        r.days == t.days || r.days == t.days + 1,
{
    let total = t.secs + s;
    if total < 86400 {
        Ts { days: t.days, secs: total }
    } else {
        Ts { days: t.days + 1, secs: total - 86400 }
    }
}

/// `t` moved `s` seconds back, stopping at the epoch.
fn ts_sub_secs(t: Ts, s: u32) -> (r: Ts)
    requires
        t.wf(),
        s <= 86400,
    ensures
        r.wf(),
        r.stamp() == if t.stamp() >= s {
            t.stamp() - s
        } else {
            0
        },
        r.stamp() <= t.stamp(),
{
    if t.secs >= s {
        Ts { days: t.days, secs: t.secs - s }
    } else if t.days >= 1 {
        Ts { days: t.days - 1, secs: t.secs + 86400 - s }
    } else {
        Ts { days: 0, secs: 0 }
    }
}

/// The clock as one signed count of seconds.
fn ts_stamp(t: &Ts) -> (r: i64)
    ensures
        r == t.stamp(),
{
    (t.days as i64) * 86400 + (t.secs as i64)
}

/// The index of the open bar for `code`, if one exists; the first match.
fn find_bar_idx(bars: &Vec<QuotBar>, code: &String) -> (r: Option<usize>)
    ensures
        match r {
            Some(i) => i < bars@.len() && bars@[i as int].quot.code@ == code@ && spec_bar_idx(
                bars@,
                code@,
            ) == Some(i as int),
            None => (forall|j: int|
                0 <= j < bars@.len() ==> (#[trigger] bars@[j]).quot.code@ != code@)
                && spec_bar_idx(bars@, code@) is None,
        },
{
    let n = bars.len();
    let mut i: usize = 0;
    while i < n
        invariant
            0 <= i <= n,
            n == bars@.len(),
            forall|j: int| 0 <= j < i ==> (#[trigger] bars@[j]).quot.code@ != code@,
        decreases n - i,
    {
        if crate::strutil::str_eq_str(bars[i].quot.code.as_str(), code.as_str()) {
            proof {
                lemma_bar_idx_found(bars@, code@, i as int);
            }
            return Some(i);
        }
        i = i + 1;
    }
    proof {
        lemma_bar_idx_none(bars@, code@);
    }
    None
}

/// Whether the subscription list already has the code.
fn contains_code(codes: &Vec<String>, code: &String) -> (r: bool)
    ensures
        r == exists|j: int| 0 <= j < codes@.len() && (#[trigger] codes@[j])@ == code@,
{
    let n = codes.len();
    let mut i: usize = 0;
    while i < n
        invariant
            0 <= i <= n,
            n == codes@.len(),
            forall|j: int| 0 <= j < i ==> (#[trigger] codes@[j])@ != code@,
        decreases n - i,
    {
        if crate::strutil::str_eq_str(codes[i].as_str(), code.as_str()) {
            return true;
        }
        i = i + 1;
    }
    false
}

} // verus!
