//! Test renderings: a few blocks rendered for a report, without an output.
use crate::error::{ErrorKind, FlutzError};
use crate::level::Level;
use crate::numbers::{monus, saturating_mul_usize, u64_cap, usize_cap};
use crate::playback::controller::{recorded_frames, wrapped_clock, PlaybackController};
use crate::playback::controller::{DecodedRenderProbeReport, RenderProbeReport};
use crate::playback::history::{pruned, SnapshotFrame};
use crate::playback::routing::{MeterReading, RenderProbeStripMixDiagnostics, StemBlock};
use crate::playback::snapshot::RealtimeMixerSnapshot;
use vstd::prelude::*;

verus! {

/// A block that was rendered for a report.
#[derive(Debug)]
pub struct ProbeBlock {
    pub frames: usize,
    pub peak: Level,
    pub snapshot: RealtimeMixerSnapshot,
    pub mix_diagnostics: Vec<RenderProbeStripMixDiagnostics>,
}

/// One block of a test rendering: what was mixed, unless that failed, and the stems that
/// the engine had rendered by then.
#[derive(Debug)]
pub struct ProbedStems {
    pub block: Option<ProbeBlock>,
    pub stems: Vec<StemBlock>,
}

/// The report of one block, with its stems and what is shown of each strip in the mix.
#[derive(Debug)]
pub struct RenderStemProbeReport {
    pub report: RenderProbeReport,
    pub stems: Vec<StemBlock>,
    pub mix_diagnostics: Vec<RenderProbeStripMixDiagnostics>,
}

/// The clock and the history after some blocks were rendered, or failed to be.
pub open spec fn probed(
    clock: u64,
    frames: Seq<SnapshotFrame<RealtimeMixerSnapshot>>,
    blocks: Seq<ProbedStems>,
    sample_rate: u32,
) -> (u64, Seq<SnapshotFrame<RealtimeMixerSnapshot>>)
    decreases blocks.len(),
{
    if blocks.len() == 0 {
        (clock, frames)
    } else {
        let before = probed(clock, frames, blocks.drop_last(), sample_rate);
        match blocks.last().block {
            Some(block) => (
                wrapped_clock(before.0, block.frames as u64),
                recorded_frames(
                    before.1,
                    u64_cap(before.0 + block.frames) as u64,
                    block.snapshot,
                    sample_rate,
                ),
            ),
            None => before,
        }
    }
}

/// The report of one block.
pub open spec fn probe_report(
    frames: usize,
    block: Option<ProbeBlock>,
    soundfonts: int,
    strips: int,
) -> RenderProbeReport {
    RenderProbeReport {
        frames,
        samples: usize_cap(frames * 2) as usize,
        peak: match block {
            Some(block) => block.peak,
            None => Level { bits: 0 },
        },
        soundfont_count: soundfonts as usize,
        midi_strip_count: strips as usize,
        recovered_error_count: if block is None {
            1
        } else {
            0
        },
    }
}

/// Whether a report tells of one block: the stems as they were left, also where mixing
/// failed, and nothing of the mix then.
pub open spec fn reports_stems(
    report: RenderStemProbeReport,
    frames: usize,
    probed: ProbedStems,
    soundfonts: int,
    strips: int,
) -> bool {
    &&& report.report == probe_report(frames, probed.block, soundfonts, strips)
    &&& report.stems == probed.stems
    &&& match probed.block {
        Some(block) => report.mix_diagnostics == block.mix_diagnostics,
        None => report.mix_diagnostics@.len() == 0,
    }
}

proof fn lemma_pruned_is_short(frames: Seq<SnapshotFrame<RealtimeMixerSnapshot>>, cutoff: int)
    ensures
        pruned(frames, cutoff).len() <= frames.len(),
    decreases frames.len(),
{
    if frames.len() > 0 {
        lemma_pruned_is_short(frames.drop_first(), cutoff);
    }
}

proof fn lemma_probed_is_short(
    clock: u64,
    frames: Seq<SnapshotFrame<RealtimeMixerSnapshot>>,
    blocks: Seq<ProbedStems>,
    sample_rate: u32,
)
    ensures
        probed(clock, frames, blocks, sample_rate).1.len() <= frames.len() + blocks.len(),
    decreases blocks.len(),
{
    if blocks.len() > 0 {
        lemma_probed_is_short(clock, frames, blocks.drop_last(), sample_rate);
        let before = probed(clock, frames, blocks.drop_last(), sample_rate);
        match blocks.last().block {
            Some(block) => {
                let end = u64_cap(before.0 + block.frames) as u64;
                lemma_pruned_is_short(
                    before.1.push(
                        SnapshotFrame { rendered_frame_end: end, snapshot: block.snapshot },
                    ),
                    monus(end as int, crate::playback::history::retention(sample_rate)),
                );
            },
            None => {},
        }
    }
}

/// The samples of the longest block of a sequence.
pub open spec fn longest_block(frame_sequence: Seq<usize>) -> int
    decreases frame_sequence.len(),
{
    if frame_sequence.len() == 0 {
        0
    } else if frame_sequence.last() > longest_block(frame_sequence.drop_last()) {
        frame_sequence.last() as int
    } else {
        longest_block(frame_sequence.drop_last())
    }
}

impl<S> PlaybackController<S> {
    /// Begins a test rendering: the number of samples that its buffer needs. There
    /// is none without an engine.
    pub fn begin_render_probe(&self, frame_sequence: &[usize]) -> (samples: Result<usize, FlutzError>)
        ensures
            match samples {
                Ok(samples) => self.engine_loaded && samples == usize_cap(
                    longest_block(frame_sequence@) * 2,
                ),
                Err(error) => !self.engine_loaded && error@ == (
                    ErrorKind::InvalidInput,
                    "load a MIDI file before rendering"@,
                ),
            },
    {
        if !self.engine_loaded {
            return Err(FlutzError::InvalidInput("load a MIDI file before rendering".to_owned()));
        }
        let mut longest: usize = 0;
        let mut i: usize = 0;
        assert(frame_sequence@.take(0) =~= Seq::<usize>::empty());
        while i < frame_sequence.len()
            invariant
                i <= frame_sequence@.len(),
                longest == longest_block(frame_sequence@.take(i as int)),
            decreases frame_sequence@.len() - i,
        {
            assert(frame_sequence@.take(i + 1).drop_last() =~= frame_sequence@.take(i as int));
            if frame_sequence[i] > longest {
                longest = frame_sequence[i];
            }
            i = i + 1;
        }
        assert(frame_sequence@.take(i as int) =~= frame_sequence@);
        Ok(saturating_mul_usize(longest, 2))
    }

    /// Takes in the blocks of a test rendering, one per length asked for, and
    /// reports on each, with its stems. `sample_rate` is that of the engine.
    pub fn render_probe_sequence_with_stems(
        &mut self,
        frame_sequence: &[usize],
        blocks: Vec<ProbedStems>,
        sample_rate: u32,
    ) -> (reports: Result<Vec<RenderStemProbeReport>, FlutzError>)
        requires
            old(self).wf(),
            blocks@.len() == frame_sequence@.len(),
            old(self).history.frames@.len() + blocks@.len() < usize::MAX,
        ensures
            final(self).wf(),
            *final(self) == (PlaybackController {
                rendered_frame_clock: final(self).rendered_frame_clock,
                history: final(self).history,
                ..*old(self)
            }),
            match reports {
                Ok(reports) => {
                    &&& old(self).engine_loaded
                    &&& reports@.len() == frame_sequence@.len()
                    &&& forall|i: int|
                        0 <= i < reports@.len() ==> reports_stems(
                            #[trigger] reports@[i],
                            frame_sequence@[i],
                            blocks@[i],
                            old(self).loaded_soundfonts@.len() as int,
                            old(self).midi_strips@.len() as int,
                        )
                    &&& (
                        final(self).rendered_frame_clock,
                        final(self).history.frames@,
                    ) == probed(
                        old(self).rendered_frame_clock,
                        old(self).history.frames@,
                        blocks@,
                        sample_rate,
                    )
                },
                Err(error) => {
                    &&& !old(self).engine_loaded
                    &&& error@ == (
                        ErrorKind::InvalidInput,
                        "load a MIDI file before rendering"@,
                    )
                    &&& final(self).history == old(self).history
                    &&& final(self).rendered_frame_clock == old(self).rendered_frame_clock
                },
            },
    {
        if !self.engine_loaded {
            return Err(FlutzError::InvalidInput("load a MIDI file before rendering".to_owned()));
        }
        let ghost all = blocks@;
        let ghost clock = self.rendered_frame_clock;
        let ghost frames = self.history.frames@;
        let mut rest = blocks;
        let mut reports: Vec<RenderStemProbeReport> = Vec::new();
        let mut i: usize = 0;
        proof {
            assert(all.take(0) =~= Seq::<ProbedStems>::empty());
            assert(all.skip(0) =~= all);
        }
        while i < frame_sequence.len()
            invariant
                i <= frame_sequence@.len(),
                all.len() == frame_sequence@.len(),
                rest@ == all.skip(i as int),
                frames.len() + all.len() < usize::MAX,
                self.wf(),
                self.engine_loaded,
                *self == (PlaybackController {
                    rendered_frame_clock: self.rendered_frame_clock,
                    history: self.history,
                    ..*old(self)
                }),
                (self.rendered_frame_clock, self.history.frames@) == probed(
                    clock,
                    frames,
                    all.take(i as int),
                    sample_rate,
                ),
                reports@.len() == i,
                forall|k: int|
                    0 <= k < i ==> reports_stems(
                        #[trigger] reports@[k],
                        frame_sequence@[k],
                        all[k],
                        old(self).loaded_soundfonts@.len() as int,
                        old(self).midi_strips@.len() as int,
                    ),
            decreases frame_sequence@.len() - i,
        {
            proof {
                lemma_probed_is_short(clock, frames, all.take(i as int), sample_rate);
                assert(all.take(i + 1).drop_last() =~= all.take(i as int));
            }
            let probed = rest.remove(0);
            assert(probed == all[i as int]);
            assert(rest@ =~= all.skip(i + 1));
            let frames_asked: usize = frame_sequence[i];
            let (peak, recovered, mix_diagnostics): (
                Level,
                usize,
                Vec<RenderProbeStripMixDiagnostics>,
            ) = match probed.block {
                Some(block) => {
                    let end: u64 = self.rendered_frame_clock.saturating_add(block.frames as u64);
                    self.history.record(end, block.snapshot, sample_rate);
                    self.rendered_frame_clock = self.rendered_frame_clock.wrapping_add(
                        block.frames as u64,
                    );
                    (block.peak, 0, block.mix_diagnostics)
                },
                None => (Level::zero(), 1, Vec::new()),
            };
            let report = RenderProbeReport {
                frames: frames_asked,
                samples: saturating_mul_usize(frames_asked, 2),
                peak,
                soundfont_count: self.loaded_soundfonts.len(),
                midi_strip_count: self.midi_strips.len(),
                recovered_error_count: recovered,
            };
            reports.push(
                RenderStemProbeReport { report, stems: probed.stems, mix_diagnostics },
            );
            i = i + 1;
        }
        assert(all.take(i as int) =~= all);
        Ok(reports)
    }

    /// Takes in the blocks of a test rendering, one per length asked for, and
    /// reports on each. `sample_rate` is that of the engine.
    pub fn render_probe_sequence(
        &mut self,
        frame_sequence: &[usize],
        blocks: Vec<ProbedStems>,
        sample_rate: u32,
    ) -> (reports: Result<Vec<RenderProbeReport>, FlutzError>)
        requires
            old(self).wf(),
            blocks@.len() == frame_sequence@.len(),
            old(self).history.frames@.len() + blocks@.len() < usize::MAX,
        ensures
            final(self).wf(),
            *final(self) == (PlaybackController {
                rendered_frame_clock: final(self).rendered_frame_clock,
                history: final(self).history,
                ..*old(self)
            }),
            match reports {
                Ok(reports) => {
                    &&& old(self).engine_loaded
                    &&& reports@.len() == frame_sequence@.len()
                    &&& forall|i: int|
                        0 <= i < reports@.len() ==> (#[trigger] reports@[i]) == probe_report(
                            frame_sequence@[i],
                            blocks@[i].block,
                            old(self).loaded_soundfonts@.len() as int,
                            old(self).midi_strips@.len() as int,
                        )
                    &&& (
                        final(self).rendered_frame_clock,
                        final(self).history.frames@,
                    ) == probed(
                        old(self).rendered_frame_clock,
                        old(self).history.frames@,
                        blocks@,
                        sample_rate,
                    )
                },
                Err(error) => {
                    &&& !old(self).engine_loaded
                    &&& error@ == (
                        ErrorKind::InvalidInput,
                        "load a MIDI file before rendering"@,
                    )
                    &&& final(self).history == old(self).history
                    &&& final(self).rendered_frame_clock == old(self).rendered_frame_clock
                },
            },
    {
        let ghost all = blocks@;
        let detailed = match self.render_probe_sequence_with_stems(
            frame_sequence,
            blocks,
            sample_rate,
        ) {
            Ok(detailed) => detailed,
            Err(error) => return Err(error),
        };
        let mut reports: Vec<RenderProbeReport> = Vec::new();
        let mut i: usize = 0;
        while i < detailed.len()
            invariant
                i <= detailed@.len(),
                detailed@.len() == frame_sequence@.len(),
                all.len() == frame_sequence@.len(),
                forall|k: int|
                    0 <= k < detailed@.len() ==> reports_stems(
                        #[trigger] detailed@[k],
                        frame_sequence@[k],
                        all[k],
                        old(self).loaded_soundfonts@.len() as int,
                        old(self).midi_strips@.len() as int,
                    ),
                reports@.len() == i,
                forall|k: int|
                    0 <= k < i ==> (#[trigger] reports@[k]) == probe_report(
                        frame_sequence@[k],
                        all[k].block,
                        old(self).loaded_soundfonts@.len() as int,
                        old(self).midi_strips@.len() as int,
                    ),
            decreases detailed@.len() - i,
        {
            assert(reports_stems(
                detailed@[i as int],
                frame_sequence@[i as int],
                all[i as int],
                old(self).loaded_soundfonts@.len() as int,
                old(self).midi_strips@.len() as int,
            ));
            reports.push(detailed[i].report);
            i = i + 1;
        }
        Ok(reports)
    }

    /// The report of a test rendering of one block.
    pub fn render_probe(reports: &[RenderProbeReport]) -> (report: Result<
        RenderProbeReport,
        FlutzError,
    >)
        ensures
            match report {
                Ok(report) => reports@.len() > 0 && report == reports@[0],
                Err(error) => reports@.len() == 0 && error@ == (
                    ErrorKind::Runtime,
                    "render probe produced no report"@,
                ),
            },
    {
        if reports.len() > 0 {
            Ok(reports[0])
        } else {
            Err(FlutzError::Runtime("render probe produced no report".to_owned()))
        }
    }
}

impl<S: Copy> PlaybackController<S> {
    /// Renders frames of decoded audio for a report: it is started and played on.
    pub fn decoded_render_probe(&mut self, frames: usize, silence: S) -> (output: Result<
        Vec<(S, S)>,
        FlutzError,
    >)
        requires
            old(self).wf(),
        ensures
            final(self).wf(),
            match (old(self).decoded, output) {
                (Some(before), Ok(output)) => {
                    &&& *final(self) == (PlaybackController {
                        decoded: final(self).decoded,
                        ..*old(self)
                    })
                    &&& final(self).decoded is Some
                    &&& before.started().renders(
                        final(self).decoded->Some_0,
                        output@,
                        frames as nat,
                        silence,
                    )
                },
                (None, Err(error)) => *final(self) == *old(self) && error@ == (
                    ErrorKind::InvalidInput,
                    "load decoded audio before probing render"@,
                ),
                _ => false,
            },
    {
        match &mut self.decoded {
            Some(decoded) => {
                decoded.play();
                Ok(decoded.render_frames(frames, silence))
            },
            None => Err(
                FlutzError::InvalidInput("load decoded audio before probing render".to_owned()),
            ),
        }
    }
}

/// The report of a test rendering of decoded audio. The scratch buffers had the
/// given sizes before and after.
pub fn decoded_probe_report(
    frames: usize,
    meter: MeterReading,
    peq_generation: u64,
    retained_before: usize,
    retained_after: usize,
) -> (report: DecodedRenderProbeReport)
    ensures
        report == (DecodedRenderProbeReport {
            frames,
            samples: usize_cap(frames * 2) as usize,
            meter,
            peq_generation,
            scratch_growth_bytes: monus(retained_after as int, retained_before as int) as usize,
        }),
{
    DecodedRenderProbeReport {
        frames,
        samples: saturating_mul_usize(frames, 2),
        meter,
        peq_generation,
        scratch_growth_bytes: retained_after.saturating_sub(retained_before),
    }
}

/// A test rendering tells of two samples a frame, of the peak of its block and of the
/// soundfonts and strips that are loaded; one that rendered nothing is silent.
pub proof fn probes_tell_what_was_rendered(
    frames: usize,
    block: Option<ProbeBlock>,
    soundfonts: usize,
    strips: usize,
)
    requires
        2 * frames <= usize::MAX,
    ensures
        ({
            let report = probe_report(frames, block, soundfonts as int, strips as int);
            &&& report.frames == frames
            &&& report.samples == 2 * frames
            &&& report.soundfont_count == soundfonts
            &&& report.midi_strip_count == strips
            &&& block is Some ==> report.peak == block->Some_0.peak
            &&& block is None ==> report.peak.bits == 0
        }),
{
}

/// The buffer of a test rendering has room for each of its blocks, and no more than the
/// longest needs.
pub proof fn the_longest_block_fits(frame_sequence: Seq<usize>, i: int)
    requires
        0 <= i < frame_sequence.len(),
    ensures
        frame_sequence[i] <= longest_block(frame_sequence),
        exists|k: int|
            0 <= k < frame_sequence.len() && #[trigger] frame_sequence[k] == longest_block(
                frame_sequence,
            ),
    decreases frame_sequence.len(),
{
    let shorter = frame_sequence.drop_last();
    let last = frame_sequence.len() - 1;
    if i < last {
        the_longest_block_fits(shorter, i);
        assert(shorter[i] == frame_sequence[i]);
    }
    if frame_sequence.last() > longest_block(shorter) {
        assert(frame_sequence[last] == longest_block(frame_sequence));
    } else if last > 0 {
        the_longest_block_fits(shorter, 0);
        let k = choose|k: int|
            0 <= k < shorter.len() && #[trigger] shorter[k] == longest_block(shorter);
        assert(frame_sequence[k] == longest_block(frame_sequence));
    } else {
        assert(frame_sequence[last] == longest_block(frame_sequence));
    }
}

/// Each block that was rendered moves the clock by its frames, and is the newest of the
/// history; one that failed moves neither.
pub proof fn probes_move_the_clock(
    clock: u64,
    frames: Seq<SnapshotFrame<RealtimeMixerSnapshot>>,
    blocks: Seq<ProbedStems>,
    next: ProbedStems,
    sample_rate: u32,
)
    ensures
        probed(clock, frames, Seq::empty(), sample_rate) == (clock, frames),
        next.block is None ==> probed(clock, frames, blocks.push(next), sample_rate) == probed(
            clock,
            frames,
            blocks,
            sample_rate,
        ),
        next.block is Some && probed(clock, frames, blocks, sample_rate).0
            + next.block->Some_0.frames <= u64::MAX ==> probed(
            clock,
            frames,
            blocks.push(next),
            sample_rate,
        ).0 == probed(clock, frames, blocks, sample_rate).0 + next.block->Some_0.frames,
{
    assert(blocks.push(next).drop_last() =~= blocks);
    if next.block is Some {
        let before = probed(clock, frames, blocks, sample_rate);
        crate::playback::controller::the_clock_counts_frames(
            before.0,
            next.block->Some_0.frames as u64,
        );
    }
}

} // verus!
