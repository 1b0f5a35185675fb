//! The CSV sink: one channel file per module, truncated whenever that
//! module becomes active again.
//!
//! The sink itself performs no file work; for each record it plans exactly
//! what the ingestion loop must write, and tracks which module's file is
//! open. The planned rows for a batch of records are proved to go, in input
//! order, each to its own record's module file.

use vstd::prelude::*;
use crate::numfmt::{i64_to_dec, spec_dec_int};
use crate::record::{csv_row, spec_csv_row, TelemetryRecord, TelemetryRecordSpec};

verus! {

/// The channel file name for a module.
pub open spec fn spec_module_filename(m: i64) -> Seq<char> {
    "sharkos_radio_"@ + spec_dec_int(m as int) + ".csv"@
}

/// Computes the channel file name, per `spec_module_filename`.
pub fn module_filename(m: i64) -> (r: String)
    ensures
        r@ == spec_module_filename(m),
{
    let digits = i64_to_dec(m);
    let s = String::from_str("sharkos_radio_").concat(digits.as_str()).concat(".csv");
    proof {
        assert(s@ =~= spec_module_filename(m));
    }
    s
}

/// The sink's state: the module whose channel file is currently open, if
/// any.
pub struct CsvSink {
    pub current_module: Option<i64>,
}

/// The writes owed for one record: when `reopen` holds, close the prior
/// channel file and open/create/truncate the file named `filename`, writing
/// the header row first; then append `row` and flush.
pub struct RowPlan {
    pub reopen: bool,
    pub module: i64,
    pub filename: String,
    pub row: String,
}

impl CsvSink {
    /// A fresh sink: no channel file open.
    pub fn new() -> (s: CsvSink)
        ensures
            s.current_module is None,
    {
        CsvSink { current_module: None }
    }

    /// Plans the writes for one record: a reopen exactly when the record's
    /// module differs from the open file's; afterwards that module's file
    /// is the open one.
    pub fn append(&mut self, rec: &TelemetryRecord) -> (p: RowPlan)
        ensures
            p.reopen == (old(self).current_module != Some(rec.module)),
            p.module == rec.module,
            p.filename@ == spec_module_filename(rec.module),
            p.row@ == spec_csv_row(rec@),
            final(self).current_module == Some(rec.module),
    {
        let reopen = match self.current_module {
            Some(m) => m != rec.module,
            None => true,
        };
        self.current_module = Some(rec.module);
        RowPlan {
            reopen,
            module: rec.module,
            filename: module_filename(rec.module),
            row: csv_row(rec),
        }
    }

    /// Plans the writes for a batch of records, in input order.
    pub fn append_all(&mut self, recs: &Vec<TelemetryRecord>) -> (plans: Vec<RowPlan>)
        ensures
            plans@.len() == recs@.len(),
            forall|i: int|
                0 <= i < recs@.len() ==> (#[trigger] plans@[i]).module == recs@[i].module,
            forall|i: int|
                0 <= i < recs@.len() ==> (#[trigger] plans@[i]).row@ == spec_csv_row(recs@[i]@),
            forall|i: int|
                0 <= i < recs@.len() ==> (#[trigger] plans@[i]).filename@ == spec_module_filename(
                    recs@[i].module,
                ),
            forall|i: int|
                1 <= i < recs@.len() ==> ((#[trigger] plans@[i]).reopen == (recs@[i - 1].module
                    != recs@[i].module)),
            recs@.len() > 0 ==> plans@[0].reopen == (old(self).current_module != Some(
                recs@[0].module,
            )),
            recs@.len() > 0 ==> final(self).current_module == Some(
                recs@[recs@.len() - 1].module,
            ),
            recs@.len() == 0 ==> final(self).current_module == old(self).current_module,
    {
        let mut plans: Vec<RowPlan> = Vec::new();
        let n = recs.len();
        let mut i: usize = 0;
        while i < n
            invariant
                i <= n,
                n == recs@.len(),
                plans@.len() == i,
                forall|j: int| 0 <= j < i ==> (#[trigger] plans@[j]).module == recs@[j].module,
                forall|j: int|
                    0 <= j < i ==> (#[trigger] plans@[j]).row@ == spec_csv_row(recs@[j]@),
                forall|j: int|
                    0 <= j < i ==> (#[trigger] plans@[j]).filename@ == spec_module_filename(
                        recs@[j].module,
                    ),
                forall|j: int|
                    1 <= j < i ==> ((#[trigger] plans@[j]).reopen == (recs@[j - 1].module
                        != recs@[j].module)),
                i > 0 ==> plans@[0].reopen == (old(self).current_module != Some(recs@[0].module)),
                i > 0 ==> self.current_module == Some(recs@[i - 1].module),
                i == 0 ==> self.current_module == old(self).current_module,
            decreases n - i,
        {
            let p = self.append(&recs[i]);
            plans.push(p);
            i = i + 1;
        }
        plans
    }
}

/// One planned write, as mathematical values: the target module, whether
/// that module's file is truncated first, and the row text.
pub struct SinkStepSpec {
    pub module: i64,
    pub fresh: bool,
    pub row: Seq<char>,
}

/// The writes a run of the sink performs for `recs`, starting with the file
/// of `cur` open.
pub open spec fn spec_sink_trace(cur: Option<i64>, recs: Seq<TelemetryRecordSpec>) -> Seq<
    SinkStepSpec,
>
    decreases recs.len(),
{
    if recs.len() == 0 {
        Seq::empty()
    } else {
        seq![
            SinkStepSpec {
                module: recs[0].module,
                fresh: cur != Some(recs[0].module),
                row: spec_csv_row(recs[0]),
            },
        ] + spec_sink_trace(Some(recs[0].module), recs.drop_first())
    }
}

/// Law: however long the run, the sink writes each record's row to the file
/// of that record's own module, in input order — rows of different modules
/// never interleave within one file's writes — and a module's file is
/// truncated exactly when that module takes over from a different one (or
/// from no open file at all).
pub proof fn lemma_sink_trace_targets(cur: Option<i64>, recs: Seq<TelemetryRecordSpec>)
    ensures
        spec_sink_trace(cur, recs).len() == recs.len(),
        forall|i: int|
            0 <= i < recs.len() ==> (#[trigger] spec_sink_trace(cur, recs)[i]).module
                == recs[i].module,
        forall|i: int|
            0 <= i < recs.len() ==> (#[trigger] spec_sink_trace(cur, recs)[i]).row == spec_csv_row(
                recs[i],
            ),
        forall|i: int|
            1 <= i < recs.len() ==> ((#[trigger] spec_sink_trace(cur, recs)[i]).fresh == (recs[i
                - 1].module != recs[i].module)),
        recs.len() > 0 ==> (spec_sink_trace(cur, recs)[0].fresh == (cur != Some(recs[0].module))),
    decreases recs.len(),
{
    if recs.len() > 0 {
        let rest = recs.drop_first();
        lemma_sink_trace_targets(Some(recs[0].module), rest);
        let tr = spec_sink_trace(cur, recs);
        let sub = spec_sink_trace(Some(recs[0].module), rest);
        assert forall|i: int| 1 <= i < recs.len() implies (#[trigger] tr[i]).module
            == recs[i].module && tr[i].row == spec_csv_row(recs[i]) by {
            assert(tr[i] == sub[i - 1]);
            assert(rest[i - 1] == recs[i]);
        }
        assert forall|i: int| 2 <= i < recs.len() implies (#[trigger] tr[i]).fresh == (recs[i
            - 1].module != recs[i].module) by {
            assert(tr[i] == sub[i - 1]);
            assert(rest[i - 2] == recs[i - 1] && rest[i - 1] == recs[i]);
        }
        if recs.len() > 1 {
            assert(tr[1] == sub[0]);
            assert(rest[0] == recs[1]);
        }
    }
}

} // verus!
