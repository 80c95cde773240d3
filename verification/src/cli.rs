//! Command-line surface of the exporter, as plain data.
//!
//! The process front end fills these values in; the library only reads them.

use vstd::prelude::*;

verus! {

/// The exporter's configuration: listening port, log format, enabled metrics.
#[derive(Clone, Debug)]
pub struct Cli {
    pub port: u16,
    pub log: Log,
    pub metrics: Metrics,
}

/// Which metric families the exporter collects.
#[derive(Clone, Debug)]
pub struct Metrics {
    pub enable_metrics: Vec<Metric>,
}

/// Log output format selector.
#[derive(Clone, Copy, Debug, PartialEq, Eq, Structural)]
pub enum Log {
    Plain,
    Json,
}

/// A collectable metric family group.
#[derive(Clone, Copy, Debug, PartialEq, Eq, Structural)]
pub enum Metric {
    Throttled,
}

/// The metric's name on the command line and in log output.
pub open spec fn metric_label_text(m: Metric) -> Seq<char> {
    match m {
        Metric::Throttled => "throttled"@,
    }
}

/// The comma-separated names of a metric list.
pub open spec fn spec_metric_list(ms: Seq<Metric>) -> Seq<char>
    decreases ms.len(),
{
    if ms.len() == 0 {
        Seq::empty()
    } else if ms.len() == 1 {
        metric_label_text(ms[0])
    } else {
        spec_metric_list(ms.drop_last()) + ","@ + metric_label_text(ms.last())
    }
}

impl Metric {
    /// The metric's name on the command line and in log output.
    pub fn as_label(&self) -> (r: &'static str)
        ensures
            r@ == metric_label_text(*self),
    {
        "throttled"
    }
}

impl Metrics {
    /// Whether the throttled collector is enabled.
    pub fn has_throttled(&self) -> (r: bool)
        ensures
            r == self.enable_metrics@.contains(Metric::Throttled),
    {
        let mut i: usize = 0;
        while i < self.enable_metrics.len()
            invariant
                i <= self.enable_metrics@.len(),
                forall|j: int| 0 <= j < i ==> self.enable_metrics@[j] != Metric::Throttled,
            decreases self.enable_metrics@.len() - i,
        {
            if self.enable_metrics[i] == Metric::Throttled {
                return true;
            }
            i = i + 1;
        }
        false
    }

    /// The enabled metrics' names, comma-separated, for log output.
    pub fn label_list(&self) -> (r: String)
        ensures
            r@ == spec_metric_list(self.enable_metrics@),
    {
        let ghost ms = self.enable_metrics@;
        let mut buf = String::new();
        proof {
            assert(buf@ =~= spec_metric_list(ms.take(0)));
        }
        let mut i: usize = 0;
        while i < self.enable_metrics.len()
            invariant
                i <= ms.len(),
                ms == self.enable_metrics@,
                buf@ == spec_metric_list(ms.take(i as int)),
            decreases ms.len() - i,
        {
            if i > 0 {
                buf.append(",");
            }
            buf.append(self.enable_metrics[i].as_label());
            proof {
                assert(ms.take(i + 1).drop_last() =~= ms.take(i as int));
                assert(ms.take(i + 1).last() == ms[i as int]);
                if i == 0 {
                    assert(spec_metric_list(ms.take(1)) =~= metric_label_text(ms[0]));
                    assert(buf@ =~= spec_metric_list(ms.take(1)));
                } else {
                    assert(buf@ =~= spec_metric_list(ms.take(i + 1)));
                }
            }
            i = i + 1;
        }
        proof {
            assert(ms.take(ms.len() as int) =~= ms);
        }
        buf
    }
}

impl Default for Cli {
    /// The built-in configuration: port 8021, plain logs, throttled enabled.
    fn default() -> (r: Cli)
        ensures
            r.port == 8021,
            r.log == Log::Plain,
            r.metrics.enable_metrics@ == seq![Metric::Throttled],
    {
        let enabled: Vec<Metric> = vec![Metric::Throttled];
        proof {
            assert(enabled@ =~= seq![Metric::Throttled]);
        }
        Cli { port: 8021, log: Log::Plain, metrics: Metrics { enable_metrics: enabled } }
    }
}

} // verus!
