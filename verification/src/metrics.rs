//! The metrics exposition wire format: one `# HELP`/`# TYPE` block per
//! registered metric, each sample on its own line, and the document
//! terminated by the literal sentinel line `# EOF\n`. The values
//! themselves come from the external metrics registry; this module owns
//! the strict wire format of the document.

use vstd::prelude::*;
use crate::strutil::{dec_str, u64_to_dec};
use vstd::string::StrSliceExecFns;
use vstd::string::StringExecFns;

verus! {

/// One registered metric as the external registry reports it: a name, a
/// help text, and the current sampled value.
#[derive(Clone, Debug)]
pub struct MetricSample {
    /// Metric name.
    pub name: String,
    /// Help text for the `# HELP` line.
    pub help: String,
    /// Current value of the counter.
    pub value: u64,
}

impl View for MetricSample {
    type V = (Seq<char>, Seq<char>, nat);

    open spec fn view(&self) -> (Seq<char>, Seq<char>, nat) {
        (self.name@, self.help@, self.value as nat)
    }
}

/// The views of a sequence of samples.
pub open spec fn spec_samples_view(samples: Seq<MetricSample>) -> Seq<(Seq<char>, Seq<char>, nat)> {
    samples.map_values(|s: MetricSample| s@)
}

/// The exposition block of one sample: its `# HELP` line, its `# TYPE`
/// line, and its sample line.
pub open spec fn spec_sample_block(s: (Seq<char>, Seq<char>, nat)) -> Seq<char> {
    "# HELP "@ + s.0 + " "@ + s.1 + "\n# TYPE "@ + s.0 + " counter\n"@ + s.0 + " "@ + dec_str(s.2)
        + "\n"@
}

/// The concatenation of the blocks of all samples, in order.
pub open spec fn spec_blocks(samples: Seq<(Seq<char>, Seq<char>, nat)>) -> Seq<char>
    decreases samples.len(),
{
    if samples.len() == 0 {
        Seq::empty()
    } else {
        spec_blocks(samples.drop_last()) + spec_sample_block(samples.last())
    }
}

/// The whole exposition document: all blocks followed by the sentinel.
pub open spec fn spec_metrics_document(samples: Seq<(Seq<char>, Seq<char>, nat)>) -> Seq<char> {
    spec_blocks(samples) + "# EOF\n"@
}

/// Renders the metrics exposition document for the given samples.
pub fn render_metrics(samples: &Vec<MetricSample>) -> (doc: String)
    ensures
        doc@ == spec_metrics_document(spec_samples_view(samples@)),
{
    let ghost view = spec_samples_view(samples@);
    let n = samples.len();
    let mut doc = String::new();
    let mut i: usize = 0;
    while i < n
        invariant
            n == samples@.len(),
            i <= n,
            view == spec_samples_view(samples@),
            doc@ == spec_blocks(view.subrange(0, i as int)),
        decreases n - i,
    {
        doc.append("# HELP ");
        doc.append(samples[i].name.as_str());
        doc.append(" ");
        doc.append(samples[i].help.as_str());
        doc.append("\n# TYPE ");
        doc.append(samples[i].name.as_str());
        doc.append(" counter\n");
        doc.append(samples[i].name.as_str());
        doc.append(" ");
        doc.append(u64_to_dec(samples[i].value).as_str());
        doc.append("\n");
        proof {
            assert(view.subrange(0, i + 1).drop_last() =~= view.subrange(0, i as int));
            assert(view.subrange(0, i + 1).last() == view[i as int]);
            assert(doc@ =~= spec_blocks(view.subrange(0, i + 1)));
        }
        i = i + 1;
    }
    proof {
        assert(view.subrange(0, n as int) =~= view);
    }
    doc.append("# EOF\n");
    doc
}

/// The blocks of a non-empty sample list begin with the first sample's
/// block.
proof fn lemma_blocks_start_with_first_block(samples: Seq<(Seq<char>, Seq<char>, nat)>)
    requires
        samples.len() >= 1,
    ensures
        spec_blocks(samples).len() >= spec_sample_block(samples[0]).len(),
        spec_blocks(samples).subrange(0, spec_sample_block(samples[0]).len() as int)
            == spec_sample_block(samples[0]),
    decreases samples.len(),
{
    let b0 = spec_sample_block(samples[0]);
    if samples.len() == 1 {
        assert(spec_blocks(samples.drop_last()).len() == 0);
        assert(spec_blocks(samples) =~= b0);
        assert(spec_blocks(samples).subrange(0, b0.len() as int) =~= b0);
    } else {
        let front = samples.drop_last();
        lemma_blocks_start_with_first_block(front);
        assert(front[0] == samples[0]);
        assert(spec_blocks(samples).subrange(0, b0.len() as int) =~= spec_blocks(front).subrange(
            0,
            b0.len() as int,
        ));
    }
}

/// Law: the wire format of a non-empty metrics document. It begins with a
/// `# HELP ` line for the first metric, and it ends with exactly the
/// sentinel line `# EOF\n`.
pub proof fn lemma_metrics_document_format(samples: Seq<(Seq<char>, Seq<char>, nat)>)
    requires
        samples.len() >= 1,
    ensures
        spec_metrics_document(samples).len() >= 13,
        spec_metrics_document(samples).subrange(0, 7) == "# HELP "@,
        spec_metrics_document(samples).subrange(
            spec_metrics_document(samples).len() - 6,
            spec_metrics_document(samples).len() as int,
        ) == "# EOF\n"@,
{
    reveal_strlit("# HELP ");
    reveal_strlit("# EOF\n");
    let doc = spec_metrics_document(samples);
    let blocks = spec_blocks(samples);
    let b0 = spec_sample_block(samples[0]);
    lemma_blocks_start_with_first_block(samples);
    assert(("# HELP "@).len() == 7);
    assert(("# EOF\n"@).len() == 6);
    assert(b0.len() >= 7);
    assert(b0.subrange(0, 7) =~= "# HELP "@);
    assert(blocks.subrange(0, b0.len() as int).subrange(0, 7) =~= blocks.subrange(0, 7));
    assert(doc.subrange(0, 7) =~= blocks.subrange(0, 7));
    assert(doc.subrange(0, 7) =~= "# HELP "@);
    assert(doc.subrange(doc.len() - 6, doc.len() as int) =~= "# EOF\n"@);
}

} // verus!
