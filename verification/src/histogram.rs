//! A Prometheus histogram that carries the names of its own descriptor.

use vstd::prelude::*;
use prometheus::{Histogram, HistogramOpts, Opts};
use crate::metrics::{descriptor_accepted, fq_name};

verus! {

/// The fully-qualified name and help text of a metric's descriptor.
pub struct DescriptorNames {
    pub fq_name: String,
    pub help: String,
}

/// A histogram together with the names of its descriptor. Its fields are
/// private to this module, where only [`histogram_with_opts`] makes one, and
/// it does so from the descriptor of the very histogram it holds; nothing
/// can change either part afterwards. So the names that it shows (through
/// `Deref`) are always those of its histogram.
pub struct DescribedHistogram {
    histogram: Histogram,
    names: DescriptorNames,
}

impl DescribedHistogram {
    /// The fully-qualified name of the histogram's descriptor.
    pub closed spec fn fq_name_view(self) -> Seq<char> {
        self.names.fq_name@
    }

    /// The help text of the histogram's descriptor.
    pub closed spec fn help_view(self) -> Seq<char> {
        self.names.help@
    }

    /// The histogram itself.
    pub fn into_histogram(self) -> Histogram {
        self.histogram
    }
}

impl std::ops::Deref for DescribedHistogram {
    type Target = DescriptorNames;

    fn deref(&self) -> (names: &DescriptorNames)
        ensures
            names.fq_name@ == self.fq_name_view(),
            names.help@ == self.help_view(),
    {
        &self.names
    }
}

/// `Histogram::with_opts` of `prometheus`, with the given name components
/// and help, no labels and no explicit buckets (so the default buckets). It
/// succeeds exactly when the descriptor is accepted: the help text is not
/// empty and the fully-qualified name is a metric name. On success the
/// histogram's descriptor, read back through `Collector::desc`, holds the
/// fully-qualified name built from the components and the given help text.
#[verifier::external_body]
pub(crate) fn histogram_with_opts(namespace: &str, subsystem: &str, name: &str, help: &str) -> (res: Result<DescribedHistogram, prometheus::Error>)
    ensures
        res is Ok <==> descriptor_accepted(fq_name(namespace@, subsystem@, name@), help@),
        res matches Ok(d) ==> d.fq_name_view() == fq_name(namespace@, subsystem@, name@) && d.help_view() == help@,
{
    let histogram = Histogram::with_opts(HistogramOpts {
        common_opts: Opts {
            namespace: namespace.to_string(),
            subsystem: subsystem.to_string(),
            name: name.to_string(),
            help: help.to_string(),
            const_labels: std::collections::HashMap::new(),
            variable_labels: Vec::new(),
        },
        buckets: Vec::new(),
    })?;
    let desc = prometheus::core::Collector::desc(&histogram)[0].clone();
    Ok(DescribedHistogram { histogram, names: DescriptorNames { fq_name: desc.fq_name, help: desc.help } })
}

} // verus!
