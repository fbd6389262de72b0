//! The collector/reporter: the aggregate report over the values that passed
//! through the completion channel, and the per-site lines over a stream of
//! probe records.
//!
//! Each probe posts its error message — or its absence, on success — to the
//! completion channel. The aggregate report is deliberately a full audit
//! trail: it keeps one line per channel entry, successes included, a success
//! rendering as "Errors: none".

use vstd::prelude::*;
use vstd::string::StringExecFns;

use crate::probe::option_view;
use crate::status::WebsiteStatus;

verus! {

/// The aggregate line for one channel entry.
pub open spec fn spec_error_line(entry: Option<Seq<char>>) -> Seq<char> {
    match entry {
        Option::Some(m) => "Errors: "@ + m,
        Option::None => "Errors: none"@,
    }
}

/// How many of the channel entries carry an error message.
pub open spec fn spec_count_failures(s: Seq<Option<String>>) -> nat
    decreases s.len(),
{
    if s.len() == 0 {
        0
    } else {
        spec_count_failures(s.drop_last()) + (if s.last() is Some {
            1nat
        } else {
            0nat
        })
    }
}

/// Renders the aggregate line for one channel entry.
pub fn error_line(entry: &Option<String>) -> (r: String)
    ensures
        r@ == spec_error_line(option_view(*entry)),
{
    match entry {
        Option::Some(m) => {
            let mut line = String::from_str("Errors: ");
            line.append(m.as_str());
            line
        },
        Option::None => String::from_str("Errors: none"),
    }
}

/// Renders the whole aggregate report: one line per channel entry, in the
/// order the entries arrived.
pub fn error_lines(entries: &Vec<Option<String>>) -> (r: Vec<String>)
    ensures
        r@.len() == entries@.len(),
        forall|j: int|
            0 <= j < entries@.len() ==> r@[j]@ == spec_error_line(option_view(entries@[j])),
{
    let mut out: Vec<String> = Vec::new();
    let mut i: usize = 0;
    while i < entries.len()
        invariant
            i <= entries@.len(),
            out@.len() == i,
            forall|j: int|
                0 <= j < i ==> out@[j]@ == spec_error_line(option_view(entries@[j])),
        decreases entries@.len() - i,
    {
        out.push(error_line(&entries[i]));
        i = i + 1;
    }
    out
}

/// Counts the failures among the channel entries: exactly the entries that
/// carry an error message.
pub fn count_failures(entries: &Vec<Option<String>>) -> (r: usize)
    ensures
        r == spec_count_failures(entries@),
{
    let mut count: usize = 0;
    let mut i: usize = 0;
    while i < entries.len()
        invariant
            i <= entries@.len(),
            count <= i,
            count == spec_count_failures(entries@.take(i as int)),
        decreases entries@.len() - i,
    {
        proof {
            assert(entries@.take(i + 1).drop_last() =~= entries@.take(i as int));
            assert(entries@.take(i + 1).last() == entries@[i as int]);
        }
        if entries[i].is_some() {
            count = count + 1;
        }
        i = i + 1;
    }
    proof {
        assert(entries@.take(entries@.len() as int) =~= entries@);
    }
    count
}

/// Renders the per-site lines for a stream of probe records: exactly one
/// line per record, in the order the records completed.
pub fn display_all(results: &Vec<WebsiteStatus>) -> (r: Vec<String>)
    requires
        forall|j: int| 0 <= j < results@.len() ==> (#[trigger] results@[j]).wf(),
    ensures
        r@.len() == results@.len(),
        forall|j: int| 0 <= j < results@.len() ==> r@[j]@ == results@[j].spec_display_line(),
{
    let mut out: Vec<String> = Vec::new();
    let mut i: usize = 0;
    while i < results.len()
        invariant
            i <= results@.len(),
            out@.len() == i,
            forall|j: int| 0 <= j < results@.len() ==> (#[trigger] results@[j]).wf(),
            forall|j: int| 0 <= j < i ==> out@[j]@ == results@[j].spec_display_line(),
        decreases results@.len() - i,
    {
        out.push(results[i].display());
        i = i + 1;
    }
    out
}

} // verus!
