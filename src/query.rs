//! Rules for presenting query results: which labels of a series are shown,
//! and under which name a series appears.

use vstd::prelude::*;
use vstd::string::StringExecFns;
use crate::lexical::chars_of;

verus! {

/// The label that holds a series' metric name.
pub open spec fn is_name_label(label: Seq<char>) -> bool {
    label == "__name__"@
}

/// Whether `label` is listed among a series' labels: every label but the
/// one that holds the metric name, which is shown as the series' name.
pub fn shown_label(label: &str) -> (r: bool)
    ensures
        r == !is_name_label(label@),
{
    let a = chars_of(label);
    let b = chars_of("__name__");
    if a.len() != b.len() {
        return true;
    }
    let mut i: usize = 0;
    while i < a.len()
        invariant
            a@ == label@,
            b@ == "__name__"@,
            a@.len() == b@.len(),
            i <= a@.len(),
            forall|k: int| 0 <= k < i ==> a@[k] == b@[k],
        decreases a@.len() - i,
    {
        if a[i] != b[i] {
            assert(a@[i as int] != b@[i as int]);
            return true;
        }
        i = i + 1;
    }
    assert(a@ =~= b@);
    false
}

/// The name under which a series appears: its metric name, or `[UNKNOWN]`
/// when it has none.
pub fn series_name(metric: Option<&str>) -> (r: String)
    ensures
        r@ == match metric {
            Some(m) => m@,
            None => "[UNKNOWN]"@,
        },
{
    match metric {
        Some(m) => String::from_str(m),
        None => String::from_str("[UNKNOWN]"),
    }
}

} // verus!
