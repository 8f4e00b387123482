//! The histogram of the subgraph instance metrics that the harness builds
//! for the indexer.

use vstd::prelude::*;
use prometheus::Histogram;
use crate::histogram::histogram_with_opts;
pub use crate::histogram::{DescribedHistogram, DescriptorNames};

verus! {

#[verifier::external_type_specification]
#[verifier::external_body]
pub struct ExPrometheusError(prometheus::Error);

#[verifier::external_type_specification]
#[verifier::external_body]
pub struct ExHistogram(Histogram);

pub open spec fn is_ascii_letter(c: char) -> bool {
    ('a' <= c && c <= 'z') || ('A' <= c && c <= 'Z')
}

pub open spec fn is_ascii_digit(c: char) -> bool {
    '0' <= c && c <= '9'
}

/// A character that may open a Prometheus metric name: `[a-zA-Z_:]`.
pub open spec fn is_metric_name_start(c: char) -> bool {
    is_ascii_letter(c) || c == '_' || c == ':'
}

/// A Prometheus metric name: `[a-zA-Z_:][a-zA-Z0-9_:]*`.
pub open spec fn is_metric_name(s: Seq<char>) -> bool {
    &&& s.len() > 0
    &&& is_metric_name_start(s[0])
    &&& forall|i: int| 1 <= i < s.len() ==> is_metric_name_start(#[trigger] s[i]) || is_ascii_digit(s[i])
}

/// The fully-qualified name of a metric: the non-empty components among
/// `namespace`, `subsystem` and `name`, joined by `_`; empty when `name` is.
pub open spec fn fq_name(namespace: Seq<char>, subsystem: Seq<char>, name: Seq<char>) -> Seq<char> {
    if name.len() == 0 {
        Seq::empty()
    } else if namespace.len() > 0 && subsystem.len() > 0 {
        namespace + seq!['_'] + subsystem + seq!['_'] + name
    } else if namespace.len() > 0 {
        namespace + seq!['_'] + name
    } else if subsystem.len() > 0 {
        subsystem + seq!['_'] + name
    } else {
        name
    }
}

/// Whether Prometheus accepts the descriptor of a metric without labels:
/// its help text is not empty and its fully-qualified name is a metric name.
pub open spec fn descriptor_accepted(fq: Seq<char>, help: Seq<char>) -> bool {
    help.len() > 0 && is_metric_name(fq)
}

/// Why a metric could not be built. Prometheus checks the help text
/// before the name, so an empty help text is what it reports first.
#[derive(Debug)]
pub enum MetricError {
    /// The help text is empty.
    EmptyHelp,
    /// The help text is not empty, but the fully-qualified name is not a
    /// metric name.
    InvalidMetricName,
}

/// Builds a histogram without labels and with the default buckets, whose
/// descriptor has the fully-qualified name built from `namespace`,
/// `subsystem` and `name`, and the help text `help`. The names of the result
/// are those of its histogram (see [`DescribedHistogram`]).
pub fn new_histogram(namespace: &str, subsystem: &str, name: &str, help: &str) -> (res: Result<DescribedHistogram, MetricError>)
    ensures
        res is Ok <==> descriptor_accepted(fq_name(namespace@, subsystem@, name@), help@),
        res matches Ok(d) ==> d.fq_name_view() == fq_name(namespace@, subsystem@, name@) && d.help_view() == help@,
        res matches Err(e) ==> (e is EmptyHelp <==> help@.len() == 0),
{
    match histogram_with_opts(namespace, subsystem, name, help) {
        Ok(d) => Ok(d),
        Err(_) => {
            if help.unicode_len() == 0 {
                Err(MetricError::EmptyHelp)
            } else {
                Err(MetricError::InvalidMetricName)
            }
        },
    }
}

/// The histogram behind every duration and count of the subgraph instance
/// metrics: the harness leaves all of its options (namespace, subsystem,
/// name and help) empty, and Prometheus refuses an empty help text, so this
/// is always that error.
pub fn subgraph_instance_histogram() -> (res: Result<Histogram, MetricError>)
    ensures
        res matches Err(MetricError::EmptyHelp),
{
    proof {
        reveal_strlit("");
    }
    match new_histogram("", "", "", "") {
        Ok(d) => Ok(d.into_histogram()),
        Err(e) => Err(e),
    }
}

} // verus!
