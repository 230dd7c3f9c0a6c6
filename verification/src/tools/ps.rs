//! Listing processes.

use vstd::prelude::*;
use crate::mcp::json::{ArrayBuilder, Json, JsonV, ObjectBuilder};
use crate::mcp::protocol::opt_text;
use crate::rpc::{stamp_reads, stamp_text, ProcessInfo};
use crate::tools::start::{put_base, start_base};

verus! {

/// One listed process: its description as in the start answer (id,
/// project, name, PID, status, log file, start time and ports) and its
/// command.
pub open spec fn listed_json(p: ProcessInfo, start: Option<Seq<char>>) -> JsonV {
    JsonV::Object(start_base(p, start) + seq![("cmd"@, JsonV::Str(p.cmd@))])
}

/// The answer of the process-listing tool: the listed processes, in order,
/// as an array under `processes`.
pub open spec fn ps_json(ps: Seq<ProcessInfo>, starts: Seq<Option<Seq<char>>>) -> JsonV {
    JsonV::Object(
        seq![
            (
                "processes"@,
                JsonV::Array(Seq::new(ps.len(), |i: int| listed_json(ps[i], starts[i]))),
            ),
        ],
    )
}

/// Each start text is how the start time of the process at its place reads.
pub open spec fn starts_read(ps: Seq<ProcessInfo>, starts: Seq<Option<Seq<char>>>) -> bool {
    starts.len() == ps.len() && forall|i: int|
        0 <= i < ps.len() ==> stamp_reads(#[trigger] ps[i].start_time, starts[i])
}

/// The JSON of one listed process (see [`listed_json`]).
fn listed_to_json(p: &ProcessInfo) -> (r: (Json, Ghost<Option<Seq<char>>>))
    ensures
        stamp_reads(p.start_time, r.1@),
        r.0@ == listed_json(*p, r.1@),
{
    let start = stamp_text(&p.start_time);
    let ghost start_v = opt_text(start);
    let mut b = ObjectBuilder::new();
    put_base(&mut b, p, start);
    b.put("cmd", Json::Str(p.cmd.clone()));
    let r = b.build();
    assert(r@ == listed_json(*p, start_v)) by {
        assert(b.value() =~= listed_json(*p, start_v)->Object_0);
    }
    (r, Ghost(start_v))
}

/// The answer of the process-listing tool (see [`ps_json`]), start times in
/// RFC 3339.
pub fn ps_response(ps: &Vec<ProcessInfo>) -> (r: Json)
    ensures
        exists|starts: Seq<Option<Seq<char>>>| starts_read(ps@, starts) && r@ == ps_json(ps@, starts),
{
    let mut a = ArrayBuilder::new();
    let ghost mut starts: Seq<Option<Seq<char>>> = Seq::empty();
    let mut i: usize = 0;
    while i < ps.len()
        invariant
            i <= ps.len(),
            starts.len() == i,
            a.value().len() == i,
            forall|k: int| 0 <= k < i ==> stamp_reads(#[trigger] ps@[k].start_time, starts[k]),
            forall|k: int| 0 <= k < i ==> #[trigger] a.value()[k] == listed_json(ps@[k], starts[k]),
        decreases ps.len() - i,
    {
        let (j, Ghost(start)) = listed_to_json(&ps[i]);
        a.push(j);
        proof {
            starts = starts.push(start);
        }
        i = i + 1;
    }
    let ghost items = a.value();
    let arr = a.build();
    let mut b = ObjectBuilder::new();
    b.put("processes", arr);
    let r = b.build();
    assert(items =~= Seq::new(ps@.len(), |k: int| listed_json(ps@[k], starts[k])));
    assert(r@ == ps_json(ps@, starts)) by {
        assert(b.value() =~= ps_json(ps@, starts)->Object_0);
    }
    r
}

} // verus!
