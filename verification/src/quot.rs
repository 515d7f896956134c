//! The quotation stream's vocabulary: aggregated bars, the session-status
//! payload, the tagged events the engine emits, and the subscription options.
use vstd::prelude::*;

use crate::clock::Ts;
use crate::consts::Kind;
use crate::fetch::Quot;

verus! {

pub const FREQ_1M: u32 = 60;

pub const FREQ_5M: u32 = 300;

pub const FREQ_15M: u32 = 900;

pub const FREQ_30M: u32 = 1800;

pub const FREQ_60M: u32 = 3600;

pub const FREQ_1D: u32 = 86400;

/// An aggregated bar over `[start, end]` plus the latest tick snapshot.
#[derive(Debug)]
pub struct QuotBar {
    pub frequency: u32,
    pub open: u64,
    pub high: u64,
    pub low: u64,
    pub close: u64,
    pub start: Ts,
    pub end: Ts,
    pub quot: Quot,
}

impl QuotBar {
    /// The open-high-low-close relation every emitted bar satisfies:
    /// the low bounds open and close from below, the high from above.
    pub open spec fn ohlc_wf(self) -> bool {
        &&& self.low <= self.open <= self.high
        &&& self.low <= self.close <= self.high
    }

    /// A fully well-formed bar: coherent prices and a coherent window.
    pub open spec fn wf(self) -> bool {
        &&& self.ohlc_wf()
        &&& self.start.wf()
        &&& self.end.wf()
        &&& self.start.stamp() <= self.end.stamp()
    }
}

impl Clone for QuotBar {
    fn clone(&self) -> (r: Self)
        ensures
            r == *self,
    {
        QuotBar {
            frequency: self.frequency,
            open: self.open,
            high: self.high,
            low: self.low,
            close: self.close,
            start: self.start,
            end: self.end,
            quot: self.quot.clone(),
        }
    }
}

/// Every bar of an emitted `Quot` names a distinct code.
pub open spec fn codes_unique(bars: Seq<QuotBar>) -> bool {
    forall|i: int, j: int|
        0 <= i < j < bars.len() ==> bars[i].quot.code@ != bars[j].quot.code@
}

/// Whether some bar in the batch is for the given code.
pub open spec fn has_code(bars: Seq<QuotBar>, code: Seq<char>) -> bool {
    exists|i: int| 0 <= i < bars.len() && bars[i].quot.code@ == code
}

/// The payload of every non-bar event: the subscription and the event's time.
#[derive(Debug)]
pub struct QuotStatus {
    pub opts: QuotOpts,
    pub time: Ts,
}

impl QuotStatus {
    /// The two payloads carry the same subscription and time.
    pub open spec fn eqv(self, o: QuotStatus) -> bool {
        self.opts.eqv(o.opts) && self.time == o.time
    }
}

impl Clone for QuotStatus {
    fn clone(&self) -> (r: Self)
        ensures
            self.eqv(r),
    {
        QuotStatus { opts: self.opts.clone(), time: self.time }
    }
}

/// What the quotation channel delivers: a batch of bars (one per code), or a
/// session boundary.
#[derive(Debug)]
pub enum QuotData {
    Quot(Vec<QuotBar>),
    QuotStart(QuotStatus),
    MorningStart(QuotStatus),
    MorningEnd(QuotStatus),
    NoonStart(QuotStatus),
    NoonEnd(QuotStatus),
    QuotEnd(QuotStatus),
}

impl QuotData {
    /// The two events are the same: the same variant, the same bars, and
    /// payloads that agree on subscription and time.
    pub open spec fn eqv(self, o: QuotData) -> bool {
        match (self, o) {
            (QuotData::Quot(a), QuotData::Quot(b)) => a@ == b@,
            (QuotData::QuotStart(a), QuotData::QuotStart(b)) => a.eqv(b),
            (QuotData::MorningStart(a), QuotData::MorningStart(b)) => a.eqv(b),
            (QuotData::MorningEnd(a), QuotData::MorningEnd(b)) => a.eqv(b),
            (QuotData::NoonStart(a), QuotData::NoonStart(b)) => a.eqv(b),
            (QuotData::NoonEnd(a), QuotData::NoonEnd(b)) => a.eqv(b),
            (QuotData::QuotEnd(a), QuotData::QuotEnd(b)) => a.eqv(b),
            _ => false,
        }
    }
}

impl Clone for QuotData {
    fn clone(&self) -> (r: Self)
        ensures
            self.eqv(r),
    {
        match self {
            QuotData::Quot(bars) => {
                let b = bars.clone();
                proof {
                    assert forall|i: int| 0 <= i < b@.len() implies b@[i] == bars@[i] by {
                        assert(vstd::pervasive::cloned::<QuotBar>(bars@[i], b@[i]));
                    }
                    assert(b@ =~= bars@);
                }
                QuotData::Quot(b)
            },
            QuotData::QuotStart(st) => QuotData::QuotStart(st.clone()),
            QuotData::MorningStart(st) => QuotData::MorningStart(st.clone()),
            QuotData::MorningEnd(st) => QuotData::MorningEnd(st.clone()),
            QuotData::NoonStart(st) => QuotData::NoonStart(st.clone()),
            QuotData::NoonEnd(st) => QuotData::NoonEnd(st.clone()),
            QuotData::QuotEnd(st) => QuotData::QuotEnd(st.clone()),
        }
    }
}

/// A subscription: what to watch, at which bar frequency, over which dates.
#[derive(Debug)]
pub struct QuotOpts {
    pub kind: Kind,
    pub frequency: u32,
    pub codes: Vec<String>,
    pub start_date: Option<u32>,
    pub end_date: Option<u32>,
}

impl QuotOpts {
    /// The two subscriptions are the same request: every field agrees, the
    /// code list element for element.
    pub open spec fn eqv(self, o: QuotOpts) -> bool {
        &&& self.kind == o.kind
        &&& self.frequency == o.frequency
        &&& self.codes@ == o.codes@
        &&& self.start_date == o.start_date
        &&& self.end_date == o.end_date
    }
}

impl Clone for QuotOpts {
    fn clone(&self) -> (r: Self)
        ensures
            self.eqv(r),
    {
        let codes = self.codes.clone();
        proof {
            assert forall|i: int| 0 <= i < codes@.len() implies codes@[i] == self.codes@[i] by {
                assert(vstd::pervasive::cloned::<String>(self.codes@[i], codes@[i]));
            }
            assert(codes@ =~= self.codes@);
        }
        QuotOpts {
            kind: self.kind,
            frequency: self.frequency,
            codes,
            start_date: self.start_date,
            end_date: self.end_date,
        }
    }
}

} // verus!
