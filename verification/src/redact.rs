//! Field redaction: the contract every log sink must honor. A field whose
//! key is listed in `redact_keys` has its value replaced by a fixed
//! placeholder before the record is rendered, so the original value is
//! absent from the rendered output whatever the output format.

use vstd::prelude::*;
use crate::strutil::str_eq;

verus! {

/// One key/value field of a structured log record.
#[derive(Clone, Debug)]
pub struct LogField {
    /// Field key.
    pub key: String,
    /// Field value.
    pub value: String,
}

impl View for LogField {
    type V = (Seq<char>, Seq<char>);

    open spec fn view(&self) -> (Seq<char>, Seq<char>) {
        (self.key@, self.value@)
    }
}

/// The views of a sequence of fields.
pub open spec fn spec_fields_view(fields: Seq<LogField>) -> Seq<(Seq<char>, Seq<char>)> {
    fields.map_values(|f: LogField| f@)
}

/// The fixed placeholder that replaces a redacted value.
pub open spec fn spec_placeholder() -> Seq<char> {
    "[REDACTED]"@
}

/// The placeholder string that replaces a redacted value.
pub fn redaction_placeholder() -> (s: &'static str)
    ensures
        s@ == spec_placeholder(),
{
    "[REDACTED]"
}

/// Whether `key` is one of the redaction keys.
pub open spec fn spec_is_redact_key(key: Seq<char>, keys: Seq<Seq<char>>) -> bool {
    exists|i: int| 0 <= i < keys.len() && keys[i] == key
}

fn is_redact_key(key: &str, keys: &Vec<String>) -> (r: bool)
    ensures
        r == spec_is_redact_key(key@, keys.deep_view()),
{
    let n = keys.len();
    let mut i: usize = 0;
    while i < n
        invariant
            n == keys@.len(),
            i <= n,
            forall|j: int| 0 <= j < i ==> keys.deep_view()[j] != key@,
        decreases n - i,
    {
        if str_eq(keys[i].as_str(), key) {
            assert(keys.deep_view()[i as int] == key@);
            return true;
        }
        i = i + 1;
    }
    false
}

/// A record after redaction: redacted values are the placeholder, all
/// other fields are unchanged, keys and order are kept.
pub open spec fn spec_redact(
    fields: Seq<(Seq<char>, Seq<char>)>,
    keys: Seq<Seq<char>>,
) -> Seq<(Seq<char>, Seq<char>)> {
    fields.map_values(
        |f: (Seq<char>, Seq<char>)|
            if spec_is_redact_key(f.0, keys) {
                (f.0, spec_placeholder())
            } else {
                f
            },
    )
}

/// Replaces the value of every field whose key is among `redact_keys` by
/// the fixed placeholder; every other field is kept as it is.
pub fn redact_fields(fields: &Vec<LogField>, redact_keys: &Vec<String>) -> (out: Vec<LogField>)
    ensures
        spec_fields_view(out@) == spec_redact(spec_fields_view(fields@), redact_keys.deep_view()),
{
    let ghost expected = spec_redact(spec_fields_view(fields@), redact_keys.deep_view());
    let n = fields.len();
    let mut out: Vec<LogField> = Vec::new();
    let mut i: usize = 0;
    while i < n
        invariant
            n == fields@.len(),
            i <= n,
            out@.len() == i,
            expected == spec_redact(spec_fields_view(fields@), redact_keys.deep_view()),
            forall|j: int| 0 <= j < i ==> #[trigger] out@[j]@ == expected[j],
        decreases n - i,
    {
        let key = fields[i].key.clone();
        if is_redact_key(key.as_str(), redact_keys) {
            let value = redaction_placeholder().to_owned();
            out.push(LogField { key, value });
        } else {
            out.push(LogField { key, value: fields[i].value.clone() });
        }
        i = i + 1;
    }
    proof {
        assert(spec_fields_view(out@) =~= expected);
    }
    out
}

/// Law: redaction hides the original value. For every field whose key is
/// among the redaction keys, the redacted record holds the fixed
/// placeholder in place of the value — so a sink that renders the redacted
/// record, in text or in JSON, never renders the original value. Fields
/// with other keys are untouched.
pub proof fn lemma_redaction_hides_values(
    fields: Seq<(Seq<char>, Seq<char>)>,
    keys: Seq<Seq<char>>,
    i: int,
)
    requires
        0 <= i < fields.len(),
    ensures
        spec_is_redact_key(fields[i].0, keys) ==> spec_redact(fields, keys)[i]
            == (fields[i].0, spec_placeholder()),
        spec_is_redact_key(fields[i].0, keys) && fields[i].1 != spec_placeholder()
            ==> spec_redact(fields, keys)[i].1 != fields[i].1,
        !spec_is_redact_key(fields[i].0, keys) ==> spec_redact(fields, keys)[i] == fields[i],
{
}

} // verus!
