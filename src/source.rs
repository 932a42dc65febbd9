//! Rules for the connection settings of a metrics source.

use vstd::prelude::*;
use vstd::string::StringExecFns;
use crate::diagnostic::{Diagnostic, DiagnosticLabel, LabelModel, Span, labels_view};
use crate::lexical::chars_of;

verus! {

/// "Have <have>, missing <missing>".
pub open spec fn missing_entry_text(have: Seq<char>, missing: Seq<char>) -> Seq<char> {
    "Have "@ + have + ", missing "@ + missing
}

/// The diagnostic for a client certificate without its key, or a key without its certificate.
pub fn missing_entry(have: &str, missing: &str, span: Span) -> (d: Diagnostic)
    ensures
        d@.title == "Missing TLS item"@,
        d@.labels == seq![LabelModel { span, message: missing_entry_text(have@, missing@) }],
        d@.help is None,
        d@.url is None,
{
    let mut message = String::from_str("Have ");
    message.append(have);
    message.append(", missing ");
    message.append(missing);
    let mut labels: Vec<DiagnosticLabel> = Vec::new();
    labels.push(DiagnosticLabel { span, message });
    assert(labels_view(labels@) =~= seq![LabelModel { span, message: missing_entry_text(have@, missing@) }]);
    Diagnostic { title: String::from_str("Missing TLS item"), labels, help: None, url: None }
}

/// Whether a client identity is to be built from the certificate and key
/// settings, given where each was set: both or neither may be given, and one
/// without the other is reported at the one that was given.
pub fn identity_items(cert: Option<Span>, key: Option<Span>) -> (r: Result<bool, Diagnostic>)
    ensures
        match (cert, key) {
            (None, None) => r == Ok::<bool, Diagnostic>(false),
            (Some(_), Some(_)) => r == Ok::<bool, Diagnostic>(true),
            (None, Some(k)) => r is Err && r->Err_0@.labels == seq![
                LabelModel { span: k, message: missing_entry_text("client key"@, "cert"@) },
            ],
            (Some(c), None) => r is Err && r->Err_0@.labels == seq![
                LabelModel { span: c, message: missing_entry_text("client cert"@, "key"@) },
            ],
        },
        r is Err ==> r->Err_0@.title == "Missing TLS item"@,
{
    match (cert, key) {
        (None, None) => Ok(false),
        (Some(_), Some(_)) => Ok(true),
        (None, Some(k)) => Err(missing_entry("client key", "cert", k)),
        (Some(c), None) => Err(missing_entry("client cert", "key", c)),
    }
}

/// A diagnostic with one label.
pub fn labeled(title: &str, message: &str, span: Span) -> (d: Diagnostic)
    ensures
        d@.title == title@,
        d@.labels == seq![LabelModel { span, message: message@ }],
        d@.help is None,
        d@.url is None,
{
    let mut labels: Vec<DiagnosticLabel> = Vec::new();
    labels.push(DiagnosticLabel { span, message: String::from_str(message) });
    assert(labels_view(labels@) =~= seq![LabelModel { span, message: message@ }]);
    Diagnostic { title: String::from_str(title), labels, help: None, url: None }
}

/// Where a command's metrics server comes from.
#[derive(Clone, Copy, Debug, PartialEq, Eq, Structural)]
pub enum SourceChoice {
    /// The `--url` flag.
    Url,
    /// The configured source at this index.
    Configured(usize),
}

/// Whether `names` holds `name` at `i` and nowhere before.
pub open spec fn first_match(names: Seq<Seq<char>>, name: Seq<char>, i: int) -> bool {
    &&& 0 <= i < names.len()
    &&& names[i] == name
    &&& forall|k: int| 0 <= k < i ==> names[k] != name
}

pub open spec fn names_view(v: Seq<String>) -> Seq<Seq<char>> {
    v.map_values(|s: String| s@)
}

/// Whether two strings hold the same characters.
fn same_text(a: &str, b: &str) -> (r: bool)
    ensures
        r == (a@ == b@),
{
    let x = chars_of(a);
    let y = chars_of(b);
    if x.len() != y.len() {
        return false;
    }
    let mut i: usize = 0;
    while i < x.len()
        invariant
            x@ == a@,
            y@ == b@,
            x@.len() == y@.len(),
            i <= x@.len(),
            forall|k: int| 0 <= k < i ==> x@[k] == y@[k],
        decreases x@.len() - i,
    {
        if x[i] != y[i] {
            assert(x@[i as int] != y@[i as int]);
            return false;
        }
        i = i + 1;
    }
    assert(x@ =~= y@);
    true
}

/// Picks the metrics server of a command from its `--url` flag (whether it
/// was given), its `--source` flag (the name and where it stands), and the
/// names of the configured sources. The two flags exclude each other; a named
/// source must be configured; one of the two must be given.
pub fn choose_source(url: bool, source: Option<(&str, Span)>, configured: &Vec<String>) -> (r: Result<SourceChoice, Diagnostic>)
    ensures
        match (url, source) {
            (true, Some((_, sp))) => r is Err && r->Err_0@.title == "Argument error"@
                && r->Err_0@.labels == seq![
                LabelModel { span: sp, message: "Supply only --source or --url, not both"@ },
            ],
            (true, None) => r == Ok::<SourceChoice, Diagnostic>(SourceChoice::Url),
            (false, Some((n, sp))) => match r {
                Ok(SourceChoice::Configured(i)) => first_match(names_view(configured@), n@, i as int),
                Ok(SourceChoice::Url) => false,
                Err(d) => (forall|k: int| 0 <= k < configured@.len() ==> configured@[k]@ != n@)
                    && d@.title == "Matching source not found"@ && d@.labels == seq![
                    LabelModel { span: sp, message: "this source is not configured"@ },
                ],
            },
            (false, None) => r is Err && r->Err_0@.title == "Prometheus server not specified"@
                && r->Err_0@.labels.len() == 0 && r->Err_0@.help == Some(
                "You must configure an unnamed default source or provide --source or --url"@,
            ),
        },
{
    match source {
        Some((name, span)) => {
            if url {
                return Err(labeled("Argument error", "Supply only --source or --url, not both", span));
            }
            let mut i: usize = 0;
            while i < configured.len()
                invariant
                    !url,
                    source == Some((name, span)),
                    i <= configured@.len(),
                    forall|k: int| 0 <= k < i ==> configured@[k]@ != name@,
                decreases configured@.len() - i,
            {
                if same_text(configured[i].as_str(), name) {
                    proof {
                        assert(first_match(names_view(configured@), name@, i as int));
                    }
                    return Ok(SourceChoice::Configured(i));
                }
                i = i + 1;
            }
            Err(labeled("Matching source not found", "this source is not configured", span))
        },
        None => {
            if url {
                Ok(SourceChoice::Url)
            } else {
                let labels: Vec<DiagnosticLabel> = Vec::new();
                assert(labels_view(labels@) =~= seq![]);
                Err(Diagnostic {
                    title: String::from_str("Prometheus server not specified"),
                    labels,
                    help: Some(String::from_str("You must configure an unnamed default source or provide --source or --url")),
                    url: None,
                })
            }
        },
    }
}

} // verus!
