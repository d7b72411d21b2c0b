//! Metric samples: immutable (name, label set, value) triples emitted by the
//! scrapers, together with their mathematical models.

use vstd::prelude::*;

verus! {

/// One metric label: a (name, value) pair of strings.
pub struct Label {
    pub name: String,
    pub value: String,
}

/// Mathematical model of a label.
pub struct LabelModel {
    pub name: Seq<char>,
    pub value: Seq<char>,
}

impl View for Label {
    type V = LabelModel;

    open spec fn view(&self) -> LabelModel {
        LabelModel { name: self.name@, value: self.value@ }
    }
}

/// One emitted metric sample.
pub struct MetricSample {
    pub name: String,
    pub labels: Vec<Label>,
    pub value: u64,
}

/// Mathematical model of a sample; the value is kept as an unbounded integer
/// so that accumulated state can be described without machine limits.
pub struct SampleModel {
    pub name: Seq<char>,
    pub labels: Seq<LabelModel>,
    pub value: int,
}

impl View for MetricSample {
    type V = SampleModel;

    open spec fn view(&self) -> SampleModel {
        SampleModel {
            name: self.name@,
            labels: self.labels@.map_values(|l: Label| l@),
            value: self.value as int,
        }
    }
}

/// Model of a whole emitted sample vector.
pub open spec fn samples_model(ms: Seq<MetricSample>) -> Seq<SampleModel> {
    ms.map_values(|m: MetricSample| m@)
}

/// Model of a label vector.
pub open spec fn labels_model(ls: Seq<Label>) -> Seq<LabelModel> {
    ls.map_values(|l: Label| l@)
}

/// The model of concatenated sample vectors is the concatenation of the
/// models.
pub proof fn lemma_samples_model_distributes(a: Seq<MetricSample>, b: Seq<MetricSample>)
    ensures
        samples_model(a + b) == samples_model(a) + samples_model(b),
{
    assert(samples_model(a + b) =~= samples_model(a) + samples_model(b));
}

/// A sample model without labels.
pub open spec fn plain_sample(name: Seq<char>, value: int) -> SampleModel {
    SampleModel { name: name, labels: seq![], value: value }
}

/// A sample model with a single label.
pub open spec fn labeled_sample(
    name: Seq<char>,
    label_name: Seq<char>,
    label_value: Seq<char>,
    value: int,
) -> SampleModel {
    SampleModel {
        name: name,
        labels: seq![LabelModel { name: label_name, value: label_value }],
        value: value,
    }
}

/// Builds a label from a statically named key and an owned value.
pub fn label(name: &str, value: String) -> (l: Label)
    ensures
        l@ == (LabelModel { name: name@, value: value@ }),
{
    Label { name: name.to_owned(), value }
}

/// Builds a sample without labels.
pub fn new_plain_sample(name: &str, value: u64) -> (s: MetricSample)
    ensures
        s@ == plain_sample(name@, value as int),
{
    let s = MetricSample { name: name.to_owned(), labels: Vec::new(), value };
    proof {
        assert(s@.labels =~= seq![]);
        assert(s@ =~= plain_sample(name@, value as int));
    }
    s
}

/// Builds a sample from a statically named metric and an assembled label
/// vector.
pub fn new_sample(name: &str, labels: Vec<Label>, value: u64) -> (s: MetricSample)
    ensures
        s@ == (SampleModel { name: name@, labels: labels_model(labels@), value: value as int }),
{
    MetricSample { name: name.to_owned(), labels, value }
}

/// Builds a sample with a single label.
pub fn new_labeled_sample(name: &str, label_name: &str, label_value: String, value: u64) -> (s:
    MetricSample)
    ensures
        s@ == labeled_sample(name@, label_name@, label_value@, value as int),
{
    let ghost lv = label_value@;
    let mut labels: Vec<Label> = Vec::new();
    labels.push(label(label_name, label_value));
    let s = MetricSample { name: name.to_owned(), labels, value };
    proof {
        assert(s@.labels =~= seq![LabelModel { name: label_name@, value: lv }]);
        assert(s@ =~= labeled_sample(name@, label_name@, lv, value as int));
    }
    s
}

} // verus!
