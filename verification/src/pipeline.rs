//! The acquisition pipeline: tick counts in, report lines out.
//!
//! One step of the acquisition cycle takes a measured pulse width in capture
//! ticks, converts it to a millimetre sample, and files it in the current
//! batch; when the sample completes the batch, the step returns the formatted
//! report line of the averaged reading and starts the next batch. The run
//! loop around it only waits for the hardware event, feeds the step, and
//! writes any returned bytes to the serial port.
//!
//! Two front ends cover the two sensor protocol variants: one is fed the
//! ready pulse width that an auto-reload capture peripheral yields per
//! falling edge, the other is fed raw rising/falling edge events and times
//! the pulse itself through the edge-pair engine.

use vstd::prelude::*;
use crate::aggregate::SampleAggregator;
use crate::aggregate::sum_of;
use crate::capture::CaptureState;
use crate::capture::PulseEdgeEvent;
use crate::capture::spec_on_edge;
use crate::distance::distance_mm;
use crate::distance::spec_distance_mm;
use crate::report::format_reading;
use crate::report::spec_report_line;
use crate::timebase::TimebaseConfig;
use crate::timebase::spec_ticks_to_microseconds;
use crate::timebase::ticks_to_microseconds;

verus! {

/// The millimetre sample a pulse of `ticks` capture ticks converts to under
/// a `freq_hz` capture clock.
pub open spec fn spec_sample_mm(ticks: int, freq_hz: int) -> int {
    spec_distance_mm(spec_ticks_to_microseconds(ticks, freq_hz))
}

/// What one acquisition step does, as a relation between the batch before
/// (`prior`) and after (`post`) the step, and the report it returns. The new
/// sample joins the batch; a batch still short of `batch_size` keeps
/// collecting and reports nothing, a completed batch is averaged (floor of
/// `sum / batch_size`), reported as a serial line, and cleared.
pub open spec fn spec_ingest(
    prior: Seq<u64>,
    batch_size: int,
    freq_hz: int,
    ticks: int,
    post: Seq<u64>,
    report: Option<Seq<u8>>,
) -> bool {
    let batch = prior.push(spec_sample_mm(ticks, freq_hz) as u64);
    if batch.len() < batch_size {
        &&& post == batch
        &&& report is None
    } else {
        &&& post == Seq::<u64>::empty()
        &&& report == Some(spec_report_line((sum_of(batch) / batch_size) as nat))
    }
}

/// Acquisition pipeline for the protocol variant whose capture peripheral
/// yields a ready pulse width per falling edge.
pub struct AcquisitionPipeline {
    timebase: TimebaseConfig,
    aggregator: SampleAggregator,
}

impl AcquisitionPipeline {
    /// The capture time base the pipeline converts with.
    pub closed spec fn spec_timebase(&self) -> TimebaseConfig {
        self.timebase
    }

    /// The capture clock rate in hertz.
    pub open spec fn spec_freq(&self) -> int {
        self.spec_timebase().capture_freq_hz as int
    }

    /// Samples of the batch in flight, oldest first.
    pub closed spec fn samples(&self) -> Seq<u64> {
        self.aggregator@
    }

    /// Number of samples averaged into one reading.
    pub closed spec fn spec_batch_size(&self) -> int {
        self.aggregator.spec_batch_size()
    }

    /// Between steps the time base is usable and the batch in flight is
    /// never full: a full batch is averaged and cleared within the step that
    /// filled it.
    pub open spec fn wf(&self) -> bool {
        &&& self.spec_timebase().wf()
        &&& self.spec_batch_size() >= 1
        &&& self.samples().len() < self.spec_batch_size()
    }

    /// A fresh pipeline with an empty batch.
    pub fn new(timebase: TimebaseConfig, batch_size: usize) -> (p: Self)
        requires
            timebase.wf(),
            batch_size >= 1,
        ensures
            p.wf(),
            p.spec_timebase() == timebase,
            p.spec_batch_size() == batch_size,
            p.samples() == Seq::<u64>::empty(),
    {
        AcquisitionPipeline { timebase, aggregator: SampleAggregator::new(batch_size) }
    }

    /// Feeds one measured pulse width and returns the serial report line
    /// when it completes a batch.
    pub fn on_pulse_width(&mut self, ticks: u16) -> (report: Option<Vec<u8>>)
        requires
            old(self).wf(),
        ensures
            final(self).wf(),
            final(self).spec_timebase() == old(self).spec_timebase(),
            final(self).spec_batch_size() == old(self).spec_batch_size(),
            spec_ingest(
                old(self).samples(),
                old(self).spec_batch_size(),
                old(self).spec_freq(),
                ticks as int,
                final(self).samples(),
                report.deep_view(),
            ),
    {
        let elapsed_us = ticks_to_microseconds(ticks as u32, &self.timebase);
        proof {
            vstd::arithmetic::div_mod::lemma_div_is_ordered_by_denominator(
                ticks as int * 1_000_000,
                1,
                self.timebase.capture_freq_hz as int,
            );
            vstd::arithmetic::div_mod::lemma_div_basics(ticks as int * 1_000_000);
        }
        let sample_mm = distance_mm(elapsed_us);
        self.aggregator.push(sample_mm);
        if self.aggregator.is_full() {
            let avg = self.aggregator.take_average();
            let line = format_reading(avg);
            proof {
                assert(line.deep_view() =~= line@);
            }
            Some(line)
        } else {
            None
        }
    }
}

/// Acquisition pipeline for the edge-pair protocol variant: it is fed raw
/// rising/falling edge events and times the pulse itself.
pub struct EdgePairPipeline {
    engine: CaptureState,
    pipeline: AcquisitionPipeline,
}

impl EdgePairPipeline {
    /// State of the edge-pair capture engine.
    pub closed spec fn spec_engine(&self) -> CaptureState {
        self.engine
    }

    /// The capture time base the pipeline converts with.
    pub closed spec fn spec_timebase(&self) -> TimebaseConfig {
        self.pipeline.spec_timebase()
    }

    /// Samples of the batch in flight, oldest first.
    pub closed spec fn samples(&self) -> Seq<u64> {
        self.pipeline.samples()
    }

    /// Number of samples averaged into one reading.
    pub closed spec fn spec_batch_size(&self) -> int {
        self.pipeline.spec_batch_size()
    }

    /// The conversion and batching state is well formed between events.
    pub open spec fn wf(&self) -> bool {
        self.spec_inner().wf()
    }

    /// The inner width-fed pipeline, for stating what an edge event does.
    pub closed spec fn spec_inner(&self) -> AcquisitionPipeline {
        self.pipeline
    }

    /// A fresh pipeline, waiting for the first rising edge.
    pub fn new(timebase: TimebaseConfig, batch_size: usize) -> (p: Self)
        requires
            timebase.wf(),
            batch_size >= 1,
        ensures
            p.wf(),
            p.spec_engine() == CaptureState::AwaitRising,
            p.spec_timebase() == timebase,
            p.spec_batch_size() == batch_size,
            p.samples() == Seq::<u64>::empty(),
    {
        EdgePairPipeline {
            engine: CaptureState::new(),
            pipeline: AcquisitionPipeline::new(timebase, batch_size),
        }
    }

    /// Feeds one hardware edge event. An event that completes a valid
    /// rising/falling pair contributes its wrap-safe width as a sample, and
    /// the serial report line comes back when that sample completes a batch;
    /// any other event changes no sample and reports nothing.
    pub fn on_edge_event(&mut self, ev: PulseEdgeEvent) -> (report: Option<Vec<u8>>)
        requires
            old(self).wf(),
        ensures
            final(self).wf(),
            final(self).spec_timebase() == old(self).spec_timebase(),
            final(self).spec_batch_size() == old(self).spec_batch_size(),
            ({
                let (engine, width) = spec_on_edge(old(self).spec_engine(), ev);
                &&& final(self).spec_engine() == engine
                &&& match width {
                    None => {
                        &&& final(self).samples() == old(self).samples()
                        &&& report is None
                    },
                    Some(w) => spec_ingest(
                        old(self).samples(),
                        old(self).spec_batch_size(),
                        old(self).spec_timebase().capture_freq_hz as int,
                        w as int,
                        final(self).samples(),
                        report.deep_view(),
                    ),
                }
            }),
    {
        match self.engine.on_edge(ev) {
            Some(width) => self.pipeline.on_pulse_width(width),
            None => None,
        }
    }
}

} // verus!
