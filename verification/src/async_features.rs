//! Stream-shaped data processing: buffered records filtered and
//! normalised by priority, and per-stream metrics.  The runtime that
//! paces the stream lives outside the verified core; the decisions
//! about what flows through it are made here.

use vstd::prelude::*;
use crate::external::{upper_of, uppercase};
use crate::vecmap::{Keyed, KeyedVec, NamedEntry, sum_by};

verus! {

/// One buffered record.
#[derive(Debug)]
pub struct AsyncData {
    /// Record number.
    pub id: u64,
    /// The record's text payload.
    pub content: String,
    /// Milliseconds since the Unix epoch when it was produced.
    pub timestamp_ms: i64,
    /// Records of priority 0 are dropped by the stream.
    pub priority: u8,
}

impl Clone for AsyncData {
    fn clone(&self) -> (r: Self)
        ensures
            r == *self,
    {
        AsyncData {
            id: self.id,
            content: self.content.clone(),
            timestamp_ms: self.timestamp_ms,
            priority: self.priority,
        }
    }
}

/// A record as the specifications see it.
pub ghost struct AsyncDataModel {
    /// Record number.
    pub id: u64,
    /// The record's text payload.
    pub content: Seq<char>,
    /// Milliseconds since the Unix epoch when it was produced.
    pub timestamp_ms: i64,
    /// Records of priority 0 are dropped by the stream.
    pub priority: u8,
}

impl View for AsyncData {
    type V = AsyncDataModel;

    open spec fn view(&self) -> AsyncDataModel {
        AsyncDataModel {
            id: self.id,
            content: self.content@,
            timestamp_ms: self.timestamp_ms,
            priority: self.priority,
        }
    }
}

/// What the stream hands on: the records with positive priority, in
/// order, each with its payload uppercased.
pub open spec fn spec_stream_output(s: Seq<AsyncDataModel>) -> Seq<AsyncDataModel>
    decreases s.len(),
{
    if s.len() == 0 {
        Seq::empty()
    } else {
        spec_stream_output(s.drop_last()) + if s.last().priority > 0 {
            seq![AsyncDataModel { content: upper_of(s.last().content), ..s.last() }]
        } else {
            Seq::empty()
        }
    }
}

/// Buffers records and processes them as a stream.
pub struct AsyncStreamProcessor {
    buffer: Vec<AsyncData>,
    processing_delay_ms: u64,
}

impl AsyncStreamProcessor {
    /// The buffered records, in arrival order.
    pub closed spec fn spec_buffer(&self) -> Seq<AsyncDataModel> {
        self.buffer@.map_values(|d: AsyncData| d@)
    }

    /// The configured per-record pacing delay.
    pub closed spec fn spec_processing_delay_ms(&self) -> u64 {
        self.processing_delay_ms
    }

    /// A processor with an empty buffer that paces records by
    /// `processing_delay_ms`.
    pub fn new(processing_delay_ms: u64) -> (r: Self)
        ensures
            r.spec_buffer().len() == 0,
            r.spec_processing_delay_ms() == processing_delay_ms,
    {
        AsyncStreamProcessor { buffer: Vec::new(), processing_delay_ms }
    }

    /// Buffer one record.
    pub fn add_data(&mut self, data: AsyncData)
        ensures
            final(self).spec_buffer() == old(self).spec_buffer().push(data@),
            final(self).spec_processing_delay_ms() == old(self).spec_processing_delay_ms(),
    {
        self.buffer.push(data);
        proof {
            assert(final(self).spec_buffer() =~= old(self).spec_buffer().push(
                final(self).buffer@.last()@,
            ));
        }
    }

    /// The pacing delay the runtime should apply per record.
    pub fn processing_delay_ms(&self) -> (r: u64)
        ensures
            r == self.spec_processing_delay_ms(),
    {
        self.processing_delay_ms
    }

    /// Run the buffered records through the stream: keep those with
    /// positive priority, uppercasing each payload.
    pub fn create_stream(&self) -> (r: Vec<AsyncData>)
        ensures
            r@.map_values(|d: AsyncData| d@) == spec_stream_output(self.spec_buffer()),
    {
        let n = self.buffer.len();
        let mut out: Vec<AsyncData> = Vec::new();
        let mut i: usize = 0;
        proof {
            assert(self.spec_buffer().take(0) =~= Seq::<AsyncDataModel>::empty());
            assert(out@.map_values(|d: AsyncData| d@) =~= spec_stream_output(
                self.spec_buffer().take(0),
            ));
        }
        while i < n
            invariant
                n == self.buffer@.len(),
                i <= n,
                out@.map_values(|d: AsyncData| d@)
                    == spec_stream_output(self.spec_buffer().take(i as int)),
            decreases n - i,
        {
            let ghost pre = out@;
            let data = &self.buffer[i];
            if data.priority > 0 {
                out.push(AsyncData {
                    id: data.id,
                    content: uppercase(data.content.as_str()),
                    timestamp_ms: data.timestamp_ms,
                    priority: data.priority,
                });
            }
            i = i + 1;
            proof {
                assert(self.spec_buffer().take(i as int).drop_last()
                    =~= self.spec_buffer().take(i as int - 1));
                assert(self.spec_buffer().take(i as int).last() == self.buffer@[i as int - 1]@);
                if self.buffer@[i as int - 1].priority > 0 {
                    assert(out@ == pre.push(out@.last()));
                    assert(out@.last()@ == AsyncDataModel {
                        content: upper_of(self.buffer@[i as int - 1]@.content),
                        ..self.buffer@[i as int - 1]@
                    });
                    assert(out@.map_values(|d: AsyncData| d@)
                        =~= pre.map_values(|d: AsyncData| d@).push(out@.last()@));
                }
                assert(out@.map_values(|d: AsyncData| d@)
                    =~= spec_stream_output(self.spec_buffer().take(i as int)));
            }
        }
        proof {
            assert(self.spec_buffer().take(n as int) =~= self.spec_buffer());
        }
        out
    }
}

/// Counters of one stream.
#[derive(Debug)]
pub struct StreamMetrics {
    /// Records offered to the stream.
    pub total_items: u64,
    /// Of them, how many were processed.
    pub processed_items: u64,
    /// Of them, how many failed.
    pub failed_items: u64,
    /// Mean per-record duration in milliseconds.
    pub average_processing_time_ms: u64,
    /// Records per second, in thousandths.
    pub throughput_milli: u64,
}

impl Clone for StreamMetrics {
    fn clone(&self) -> (r: Self)
        ensures
            r == *self,
    {
        StreamMetrics {
            total_items: self.total_items,
            processed_items: self.processed_items,
            failed_items: self.failed_items,
            average_processing_time_ms: self.average_processing_time_ms,
            throughput_milli: self.throughput_milli,
        }
    }
}

/// Aggregate over every stream the monitor has seen.
#[derive(Debug, Clone, Copy, PartialEq, Eq, Structural)]
pub struct OverallStats {
    /// Streams with recorded metrics.
    pub total_streams: usize,
    /// Records offered across them (saturating).
    pub total_items: u64,
    /// Records processed across them (saturating).
    pub total_processed: u64,
    /// Records failed across them (saturating).
    pub total_failed: u64,
    /// Processed records per thousand offered; 0 when none were
    /// offered.
    pub success_rate_permille: u64,
}

/// The offered-record sum of a metrics table.
pub open spec fn streams_total_items(s: Seq<NamedEntry<StreamMetrics>>) -> int {
    sum_by(s, |e: NamedEntry<StreamMetrics>| e.value.total_items as int)
}

/// The processed-record sum of a metrics table.
pub open spec fn streams_total_processed(s: Seq<NamedEntry<StreamMetrics>>) -> int {
    sum_by(s, |e: NamedEntry<StreamMetrics>| e.value.processed_items as int)
}

/// The failed-record sum of a metrics table.
pub open spec fn streams_total_failed(s: Seq<NamedEntry<StreamMetrics>>) -> int {
    sum_by(s, |e: NamedEntry<StreamMetrics>| e.value.failed_items as int)
}

/// `v` held to the range of a 64-bit unsigned integer.
pub open spec fn stream_clamp_u64(v: int) -> u64 {
    if v > u64::MAX {
        u64::MAX
    } else if v < 0 {
        0
    } else {
        v as u64
    }
}

/// Keeps metrics per stream.
pub struct AsyncStreamMonitor {
    metrics: KeyedVec<NamedEntry<StreamMetrics>>,
}

impl AsyncStreamMonitor {
    /// The recorded metrics entries, in recording order.
    pub closed spec fn entries(&self) -> Seq<NamedEntry<StreamMetrics>> {
        self.metrics.entries_seq()
    }

    /// The recorded metrics, by stream name.
    pub closed spec fn metrics_view(&self) -> Map<Seq<char>, NamedEntry<StreamMetrics>> {
        self.metrics.view()
    }

    /// Stream names are unique.
    pub closed spec fn wf(&self) -> bool {
        self.metrics.well_formed()
    }

    /// A monitor with nothing recorded.
    pub fn new() -> (r: Self)
        ensures
            r.wf(),
            r.entries().len() == 0,
    {
        AsyncStreamMonitor { metrics: KeyedVec::new() }
    }

    /// Record (or replace) the metrics of `stream_name`: a fresh name
    /// appends an entry, a known one replaces its entry in place.
    pub fn record_metrics(&mut self, stream_name: String, metrics: StreamMetrics)
        requires
            old(self).wf(),
        ensures
            final(self).wf(),
            final(self).metrics_view().contains_key(stream_name@),
            final(self).metrics_view()[stream_name@].value == metrics,
            final(self).metrics_view().remove(stream_name@)
                == old(self).metrics_view().remove(stream_name@),
            !old(self).metrics_view().contains_key(stream_name@)
                ==> final(self).entries() == old(self).entries().push(
                    NamedEntry { name: stream_name, value: metrics },
                ),
            old(self).metrics_view().contains_key(stream_name@)
                ==> exists|i: int| 0 <= i < old(self).entries().len()
                    && (#[trigger] old(self).entries()[i]).key() == stream_name@
                    && final(self).entries() == old(self).entries().update(
                        i,
                        NamedEntry { name: stream_name, value: metrics },
                    ),
    {
        let key = stream_name.clone();
        let ghost pre = self.metrics.entries_seq();
        let entry = NamedEntry { name: stream_name, value: metrics };
        let ghost ge = entry;
        self.metrics.insert(&key, entry);
        proof {
            assert(final(self).metrics_view().remove(key@)
                =~= old(self).metrics_view().remove(key@));
            if old(self).metrics_view().contains_key(ge.name@) {
                let i = choose|i: int| 0 <= i < pre.len()
                    && (#[trigger] pre[i]).key() == ge.key()
                    && self.metrics.entries_seq() == pre.update(i, ge);
                assert(old(self).entries()[i].key() == ge.name@);
                assert(final(self).entries() == old(self).entries().update(i, ge));
            }
        }
    }

    /// All recorded metrics entries.
    pub fn get_all_metrics(&self) -> (r: &KeyedVec<NamedEntry<StreamMetrics>>)
        ensures
            r.view() == self.metrics_view(),
    {
        &self.metrics
    }

    /// Aggregate counts across every stream, with the processed share
    /// in permille of records offered.
    pub fn get_overall_stats(&self) -> (r: OverallStats)
        requires
            self.wf(),
        ensures
            r.total_streams == self.entries().len(),
            r.total_items == stream_clamp_u64(streams_total_items(self.entries())),
            r.total_processed == stream_clamp_u64(streams_total_processed(self.entries())),
            r.total_failed == stream_clamp_u64(streams_total_failed(self.entries())),
            r.success_rate_permille == (if streams_total_items(self.entries()) > 0 {
                stream_clamp_u64(
                    stream_clamp_u64(streams_total_processed(self.entries())) as int * 1000
                        / stream_clamp_u64(streams_total_items(self.entries())) as int,
                )
            } else {
                0
            }),
    {
        let entries = self.metrics.entries();
        let n = entries.len();
        let mut items: u128 = 0;
        let mut processed: u128 = 0;
        let mut failed: u128 = 0;
        let mut i: usize = 0;
        proof {
            assert(entries@.take(0) =~= Seq::<NamedEntry<StreamMetrics>>::empty());
        }
        while i < n
            invariant
                n == entries@.len(),
                entries@ == self.entries(),
                i <= n,
                items == streams_total_items(entries@.take(i as int)),
                processed == streams_total_processed(entries@.take(i as int)),
                failed == streams_total_failed(entries@.take(i as int)),
                items <= i * (u64::MAX as int),
                processed <= i * (u64::MAX as int),
                failed <= i * (u64::MAX as int),
            decreases n - i,
        {
            proof {
                assert(entries@.take(i as int + 1).drop_last() =~= entries@.take(i as int));
                assert(entries@.take(i as int + 1).last() == entries@[i as int]);
                assert((i as int) * (u64::MAX as int) + (u64::MAX as int)
                    == (i as int + 1) * (u64::MAX as int)) by (nonlinear_arith);
            }
            let m = &entries[i].value;
            items = items + (m.total_items as u128);
            processed = processed + (m.processed_items as u128);
            failed = failed + (m.failed_items as u128);
            i = i + 1;
        }
        proof {
            assert(entries@.take(n as int) =~= entries@);
        }
        let total_items = stream_clamp(items);
        let total_processed = stream_clamp(processed);
        let total_failed = stream_clamp(failed);
        let success_rate_permille: u64 = if total_items > 0 {
            stream_clamp((total_processed as u128) * 1000 / (total_items as u128))
        } else {
            0
        };
        OverallStats {
            total_streams: n,
            total_items,
            total_processed,
            total_failed,
            success_rate_permille,
        }
    }
}

/// `v` held to the range of a 64-bit unsigned integer.
fn stream_clamp(v: u128) -> (r: u64)
    ensures
        r == stream_clamp_u64(v as int),
{
    if v > u64::MAX as u128 {
        u64::MAX
    } else {
        v as u64
    }
}

} // verus!
