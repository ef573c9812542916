//! Aggregation of latency and outcome counters.

use vstd::prelude::*;

use crate::network::NetworkMetrics;

verus! {

/// Counter increment that stays at `u64::MAX` once it gets there.
pub open spec fn bump(n: u64) -> u64 {
    if n < u64::MAX {
        (n + 1) as u64
    } else {
        n
    }
}

/// The smoothed latency after a sample: the sample itself when it is the first
/// one, otherwise the mean of the previous average and the sample, rounded down.
pub open spec fn next_average(average: u64, sample: u64, first: bool) -> u64 {
    if first {
        sample
    } else {
        ((average + sample) / 2) as u64
    }
}

/// Metrics with every counter at zero.
pub open spec fn zero_metrics() -> NetworkMetrics {
    NetworkMetrics {
        total_requests: 0,
        total_responses: 0,
        total_errors: 0,
        average_latency: 0,
        max_latency: 0,
    }
}

/// Owner of the network metrics.
pub struct MetricsRecorder {
    metrics: NetworkMetrics,
    samples: u64,
}

impl MetricsRecorder {
    /// The current counters.
    pub closed spec fn current(&self) -> NetworkMetrics {
        self.metrics
    }

    /// Number of latency samples recorded since the last clear.
    pub closed spec fn sample_count(&self) -> u64 {
        self.samples
    }

    /// A recorder with every counter at zero.
    pub fn new() -> (r: MetricsRecorder)
        ensures
            r.current() == zero_metrics(),
            r.sample_count() == 0,
    {
        MetricsRecorder {
            metrics: NetworkMetrics {
                total_requests: 0,
                total_responses: 0,
                total_errors: 0,
                average_latency: 0,
                max_latency: 0,
            },
            samples: 0,
        }
    }

    /// Folds a latency sample (milliseconds) into the moving average and the
    /// maximum. The counters of outcomes are unchanged.
    pub fn record_latency(&mut self, latency: u64)
        ensures
            final(self).current().average_latency == next_average(
                old(self).current().average_latency,
                latency,
                old(self).sample_count() == 0,
            ),
            final(self).current().max_latency == if latency > old(self).current().max_latency {
                latency
            } else {
                old(self).current().max_latency
            },
            final(self).current().total_requests == old(self).current().total_requests,
            final(self).current().total_responses == old(self).current().total_responses,
            final(self).current().total_errors == old(self).current().total_errors,
            final(self).sample_count() == bump(old(self).sample_count()),
    {
        let average = if self.samples == 0 {
            latency
        } else {
            (((self.metrics.average_latency as u128) + (latency as u128)) / 2) as u64
        };
        self.metrics.average_latency = average;
        if latency > self.metrics.max_latency {
            self.metrics.max_latency = latency;
        }
        self.samples = self.samples.saturating_add(1);
    }

    /// Records a call that ended with a response after `latency` milliseconds.
    pub fn record_response(&mut self, latency: u64)
        ensures
            final(self).current().total_requests == bump(old(self).current().total_requests),
            final(self).current().total_responses == bump(old(self).current().total_responses),
            final(self).current().total_errors == old(self).current().total_errors,
            final(self).current().average_latency == next_average(
                old(self).current().average_latency,
                latency,
                old(self).sample_count() == 0,
            ),
            final(self).current().max_latency == if latency > old(self).current().max_latency {
                latency
            } else {
                old(self).current().max_latency
            },
            final(self).sample_count() == bump(old(self).sample_count()),
    {
        self.metrics.total_requests = self.metrics.total_requests.saturating_add(1);
        self.metrics.total_responses = self.metrics.total_responses.saturating_add(1);
        self.record_latency(latency);
    }

    /// Records a call that ended with an error.
    pub fn record_error(&mut self)
        ensures
            final(self).current() == (NetworkMetrics {
                total_requests: bump(old(self).current().total_requests),
                total_errors: bump(old(self).current().total_errors),
                ..old(self).current()
            }),
            final(self).sample_count() == old(self).sample_count(),
    {
        self.metrics.total_requests = self.metrics.total_requests.saturating_add(1);
        self.metrics.total_errors = self.metrics.total_errors.saturating_add(1);
    }

    /// A consistent copy of the counters.
    pub fn snapshot(&self) -> (r: NetworkMetrics)
        ensures
            r == self.current(),
    {
        self.metrics
    }

    /// Resets every counter to zero.
    pub fn clear(&mut self)
        ensures
            final(self).current() == zero_metrics(),
            final(self).sample_count() == 0,
    {
        *self = MetricsRecorder::new();
    }
}

/// Two equal samples leave the average at that value, and any two samples
/// leave it at their mean, rounded down.
pub proof fn lemma_two_samples(first: u64, second: u64, start: u64)
    ensures
        next_average(next_average(start, first, true), second, false) == ((first as int
            + second as int) / 2),
        next_average(next_average(start, first, true), first, false) == first,
{
}

} // verus!
