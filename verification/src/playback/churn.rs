//! Render churn: what one render call allocates, releases and retains, and the
//! running totals over all calls.
use crate::numbers::{max_of, max_usize, monus, saturating_mul_usize, u64_cap, usize_cap};
use vstd::prelude::*;

verus! {

/// What the synthesizer reports about the buffers of one stem render.
#[derive(Debug, Copy, Clone, PartialEq, Eq, Structural)]
pub struct StemRenderAllocations {
    pub output_block_count: usize,
    pub output_audio_bytes: usize,
    pub output_active_note_bytes: usize,
    pub output_vec_bytes: usize,
    pub internal_block_count: usize,
    pub internal_audio_bytes: usize,
    pub internal_active_note_bytes: usize,
    pub internal_vec_bytes: usize,
    pub residual_buffer_bytes: usize,
    pub effect_input_bytes: usize,
    pub effect_input_vec_bytes: usize,
    pub output_growth_bytes: usize,
    pub internal_growth_bytes: usize,
    pub residual_growth_bytes: usize,
    pub effect_input_growth_bytes: usize,
    pub total_bytes: usize,
    pub total_growth_bytes: usize,
}

/// What the mixer reports about the buffers of one mix.
#[derive(Debug, Copy, Clone, PartialEq, Eq, Structural)]
pub struct MixerAllocations {
    pub allocated_bytes: usize,
    pub deallocated_bytes: usize,
    pub scratch_growth_bytes: usize,
    pub output_bytes: usize,
    pub prepared_rendered_frame_bytes: usize,
    pub reports_bytes: usize,
    pub processed_inputs: usize,
    pub allocation_events: usize,
    pub deallocation_events: usize,
}

/// The churn of one render call.
#[derive(Debug, Copy, Clone, PartialEq, Eq, Structural)]
pub struct RenderChurnSnapshot {
    pub allocation_events: usize,
    pub deallocation_events: usize,
    pub frames: usize,
    pub rendered_blocks: usize,
    pub routed_blocks: usize,
    pub mixer_inputs: usize,
    pub zero_fill_blocks: usize,
    pub visual_strips: usize,
    pub stem_audio_bytes: usize,
    pub stem_output_blocks: usize,
    pub stem_output_audio_bytes: usize,
    pub stem_output_active_note_bytes: usize,
    pub stem_output_vec_bytes: usize,
    pub stem_internal_blocks: usize,
    pub stem_internal_audio_bytes: usize,
    pub stem_internal_active_note_bytes: usize,
    pub stem_internal_vec_bytes: usize,
    pub stem_residual_buffer_bytes: usize,
    pub stem_effect_input_bytes: usize,
    pub stem_effect_input_vec_bytes: usize,
    pub stem_output_growth_bytes: usize,
    pub stem_internal_growth_bytes: usize,
    pub stem_residual_growth_bytes: usize,
    pub stem_effect_input_growth_bytes: usize,
    pub stem_playback_growth_bytes: usize,
    pub stem_total_growth_bytes: usize,
    pub stem_tracked_alloc_bytes: usize,
    pub stem_untracked_alloc_bytes: usize,
    pub zero_fill_audio_bytes: usize,
    pub mixer_frame_bytes: usize,
    pub mixer_internal_alloc_bytes: usize,
    pub mixer_internal_dealloc_bytes: usize,
    pub mixer_scratch_growth_bytes: usize,
    pub mixer_output_bytes: usize,
    pub mixer_prepared_frame_bytes: usize,
    pub mixer_report_bytes: usize,
    pub vec_overhead_bytes: usize,
    pub retained_container_capacity_bytes: usize,
    pub temp_container_alloc_bytes: usize,
    pub retained_capacity_growth_bytes: usize,
    pub transient_alloc_bytes: usize,
    pub transient_dealloc_bytes: usize,
    pub transient_growth_bytes: usize,
}

/// Every field at its zero value.
pub open spec fn no_churn() -> RenderChurnSnapshot {
    RenderChurnSnapshot {
        allocation_events: 0,
        deallocation_events: 0,
        frames: 0,
        rendered_blocks: 0,
        routed_blocks: 0,
        mixer_inputs: 0,
        zero_fill_blocks: 0,
        visual_strips: 0,
        stem_audio_bytes: 0,
        stem_output_blocks: 0,
        stem_output_audio_bytes: 0,
        stem_output_active_note_bytes: 0,
        stem_output_vec_bytes: 0,
        stem_internal_blocks: 0,
        stem_internal_audio_bytes: 0,
        stem_internal_active_note_bytes: 0,
        stem_internal_vec_bytes: 0,
        stem_residual_buffer_bytes: 0,
        stem_effect_input_bytes: 0,
        stem_effect_input_vec_bytes: 0,
        stem_output_growth_bytes: 0,
        stem_internal_growth_bytes: 0,
        stem_residual_growth_bytes: 0,
        stem_effect_input_growth_bytes: 0,
        stem_playback_growth_bytes: 0,
        stem_total_growth_bytes: 0,
        stem_tracked_alloc_bytes: 0,
        stem_untracked_alloc_bytes: 0,
        zero_fill_audio_bytes: 0,
        mixer_frame_bytes: 0,
        mixer_internal_alloc_bytes: 0,
        mixer_internal_dealloc_bytes: 0,
        mixer_scratch_growth_bytes: 0,
        mixer_output_bytes: 0,
        mixer_prepared_frame_bytes: 0,
        mixer_report_bytes: 0,
        vec_overhead_bytes: 0,
        retained_container_capacity_bytes: 0,
        temp_container_alloc_bytes: 0,
        retained_capacity_growth_bytes: 0,
        transient_alloc_bytes: 0,
        transient_dealloc_bytes: 0,
        transient_growth_bytes: 0,
    }
}

impl Default for RenderChurnSnapshot {
    fn default() -> (value: Self)
        ensures
            value == no_churn(),
    {
        RenderChurnSnapshot {
            allocation_events: 0,
            deallocation_events: 0,
            frames: 0,
            rendered_blocks: 0,
            routed_blocks: 0,
            mixer_inputs: 0,
            zero_fill_blocks: 0,
            visual_strips: 0,
            stem_audio_bytes: 0,
            stem_output_blocks: 0,
            stem_output_audio_bytes: 0,
            stem_output_active_note_bytes: 0,
            stem_output_vec_bytes: 0,
            stem_internal_blocks: 0,
            stem_internal_audio_bytes: 0,
            stem_internal_active_note_bytes: 0,
            stem_internal_vec_bytes: 0,
            stem_residual_buffer_bytes: 0,
            stem_effect_input_bytes: 0,
            stem_effect_input_vec_bytes: 0,
            stem_output_growth_bytes: 0,
            stem_internal_growth_bytes: 0,
            stem_residual_growth_bytes: 0,
            stem_effect_input_growth_bytes: 0,
            stem_playback_growth_bytes: 0,
            stem_total_growth_bytes: 0,
            stem_tracked_alloc_bytes: 0,
            stem_untracked_alloc_bytes: 0,
            zero_fill_audio_bytes: 0,
            mixer_frame_bytes: 0,
            mixer_internal_alloc_bytes: 0,
            mixer_internal_dealloc_bytes: 0,
            mixer_scratch_growth_bytes: 0,
            mixer_output_bytes: 0,
            mixer_prepared_frame_bytes: 0,
            mixer_report_bytes: 0,
            vec_overhead_bytes: 0,
            retained_container_capacity_bytes: 0,
            temp_container_alloc_bytes: 0,
            retained_capacity_growth_bytes: 0,
            transient_alloc_bytes: 0,
            transient_dealloc_bytes: 0,
            transient_growth_bytes: 0,
        }
    }
}

/// The churn of all render calls.
#[derive(Debug, Copy, Clone, PartialEq, Eq, Structural)]
pub struct RenderChurnDiagnostics {
    pub render_calls: u64,
    pub cumulative_allocation_events: u64,
    pub cumulative_deallocation_events: u64,
    pub cumulative_transient_alloc_bytes: u64,
    pub cumulative_transient_dealloc_bytes: u64,
    pub cumulative_transient_growth_bytes: u64,
    pub cumulative_retained_capacity_growth_bytes: u64,
    pub cumulative_temp_container_alloc_bytes: u64,
    pub max_transient_alloc_bytes: usize,
    pub max_transient_growth_bytes: usize,
    pub max_retained_capacity_growth_bytes: usize,
    pub max_temp_container_alloc_bytes: usize,
    pub last: RenderChurnSnapshot,
}

/// Every field at its zero value.
pub open spec fn no_churn_recorded() -> RenderChurnDiagnostics {
    RenderChurnDiagnostics {
        render_calls: 0,
        cumulative_allocation_events: 0,
        cumulative_deallocation_events: 0,
        cumulative_transient_alloc_bytes: 0,
        cumulative_transient_dealloc_bytes: 0,
        cumulative_transient_growth_bytes: 0,
        cumulative_retained_capacity_growth_bytes: 0,
        cumulative_temp_container_alloc_bytes: 0,
        max_transient_alloc_bytes: 0,
        max_transient_growth_bytes: 0,
        max_retained_capacity_growth_bytes: 0,
        max_temp_container_alloc_bytes: 0,
        last: no_churn(),
    }
}

impl Default for RenderChurnDiagnostics {
    fn default() -> (value: Self)
        ensures
            value == no_churn_recorded(),
    {
        RenderChurnDiagnostics {
            render_calls: 0,
            cumulative_allocation_events: 0,
            cumulative_deallocation_events: 0,
            cumulative_transient_alloc_bytes: 0,
            cumulative_transient_dealloc_bytes: 0,
            cumulative_transient_growth_bytes: 0,
            cumulative_retained_capacity_growth_bytes: 0,
            cumulative_temp_container_alloc_bytes: 0,
            max_transient_alloc_bytes: 0,
            max_transient_growth_bytes: 0,
            max_retained_capacity_growth_bytes: 0,
            max_temp_container_alloc_bytes: 0,
            last: RenderChurnSnapshot::default(),
        }
    }
}

/// The buffers that one render call uses, as sizes.
#[derive(Debug, Copy, Clone, PartialEq, Eq, Structural)]
pub struct RenderBuffers {
    pub frames: usize,
    pub rendered_blocks: usize,
    pub routed_blocks: usize,
    pub zero_fill_blocks: usize,
    pub visual_strips: usize,
    pub stem_audio_bytes: usize,
    pub stem_playback_growth_bytes: usize,
    pub routed_block_overhead: usize,
    pub mixer_input_overhead: usize,
}

/// The stem part of a churn snapshot, everything else at zero.
pub open spec fn stem_churn(allocations: StemRenderAllocations) -> RenderChurnSnapshot {
    RenderChurnSnapshot {
        stem_output_blocks: allocations.output_block_count,
        stem_output_audio_bytes: allocations.output_audio_bytes,
        stem_output_active_note_bytes: allocations.output_active_note_bytes,
        stem_output_vec_bytes: allocations.output_vec_bytes,
        stem_internal_blocks: allocations.internal_block_count,
        stem_internal_audio_bytes: allocations.internal_audio_bytes,
        stem_internal_active_note_bytes: allocations.internal_active_note_bytes,
        stem_internal_vec_bytes: allocations.internal_vec_bytes,
        stem_residual_buffer_bytes: allocations.residual_buffer_bytes,
        stem_effect_input_bytes: allocations.effect_input_bytes,
        stem_effect_input_vec_bytes: allocations.effect_input_vec_bytes,
        stem_output_growth_bytes: allocations.output_growth_bytes,
        stem_internal_growth_bytes: allocations.internal_growth_bytes,
        stem_residual_growth_bytes: allocations.residual_growth_bytes,
        stem_effect_input_growth_bytes: allocations.effect_input_growth_bytes,
        stem_total_growth_bytes: allocations.total_growth_bytes,
        stem_tracked_alloc_bytes: allocations.total_bytes,
        ..no_churn()
    }
}

impl RenderChurnSnapshot {
    /// The snapshot of a stem render without mixing.
    pub fn from_allocations(allocations: StemRenderAllocations) -> (snapshot: RenderChurnSnapshot)
        ensures
            snapshot == stem_churn(allocations),
    {
        RenderChurnSnapshot {
            stem_output_blocks: allocations.output_block_count,
            stem_output_audio_bytes: allocations.output_audio_bytes,
            stem_output_active_note_bytes: allocations.output_active_note_bytes,
            stem_output_vec_bytes: allocations.output_vec_bytes,
            stem_internal_blocks: allocations.internal_block_count,
            stem_internal_audio_bytes: allocations.internal_audio_bytes,
            stem_internal_active_note_bytes: allocations.internal_active_note_bytes,
            stem_internal_vec_bytes: allocations.internal_vec_bytes,
            stem_residual_buffer_bytes: allocations.residual_buffer_bytes,
            stem_effect_input_bytes: allocations.effect_input_bytes,
            stem_effect_input_vec_bytes: allocations.effect_input_vec_bytes,
            stem_output_growth_bytes: allocations.output_growth_bytes,
            stem_internal_growth_bytes: allocations.internal_growth_bytes,
            stem_residual_growth_bytes: allocations.residual_growth_bytes,
            stem_effect_input_growth_bytes: allocations.effect_input_growth_bytes,
            stem_total_growth_bytes: allocations.total_growth_bytes,
            stem_tracked_alloc_bytes: allocations.total_bytes,
            ..RenderChurnSnapshot::default()
        }
    }
}

/// Bytes of stem buffers that are no audio.
pub open spec fn untracked_bytes(stems: StemRenderAllocations, buffers: RenderBuffers) -> int {
    monus(stems.total_bytes as int, buffers.stem_audio_bytes as int)
}

/// Bytes of the two routing lists.
pub open spec fn container_bytes(buffers: RenderBuffers) -> int {
    usize_cap(buffers.routed_block_overhead + buffers.mixer_input_overhead)
}

/// Bytes by which the buffers of the synthesizer and of the playback grew.
pub open spec fn stem_growth(stems: StemRenderAllocations, buffers: RenderBuffers) -> int {
    usize_cap(stems.total_growth_bytes + buffers.stem_playback_growth_bytes)
}

/// Bytes allocated for the call alone.
pub open spec fn transient_bytes(
    stems: StemRenderAllocations,
    mixer: MixerAllocations,
    buffers: RenderBuffers,
) -> int {
    usize_cap(
        buffers.stem_audio_bytes + untracked_bytes(stems, buffers) + mixer.allocated_bytes
            + container_bytes(buffers),
    )
}

/// Bytes by which retained buffers grew.
pub open spec fn retained_growth(
    stems: StemRenderAllocations,
    mixer: MixerAllocations,
    buffers: RenderBuffers,
) -> int {
    usize_cap(stem_growth(stems, buffers) + mixer.scratch_growth_bytes)
}

/// Two events for each rendered block, one for each routed block, two for the
/// call, and those of the mixer.
pub open spec fn allocation_events_of(mixer: MixerAllocations, buffers: RenderBuffers) -> int {
    usize_cap(buffers.rendered_blocks * 2 + buffers.routed_blocks + 2 + mixer.allocation_events)
}

/// The same with the releases of the mixer in place of its allocations.
pub open spec fn deallocation_events_of(mixer: MixerAllocations, buffers: RenderBuffers) -> int {
    usize_cap(
        monus(allocation_events_of(mixer, buffers), mixer.allocation_events as int)
            + mixer.deallocation_events,
    )
}

/// The churn of one call of the mixing renderer.
pub open spec fn mixed_churn(
    stems: StemRenderAllocations,
    mixer: MixerAllocations,
    buffers: RenderBuffers,
) -> RenderChurnSnapshot {
    RenderChurnSnapshot {
        allocation_events: allocation_events_of(mixer, buffers) as usize,
        deallocation_events: deallocation_events_of(mixer, buffers) as usize,
        frames: buffers.frames,
        rendered_blocks: buffers.rendered_blocks,
        routed_blocks: buffers.routed_blocks,
        mixer_inputs: mixer.processed_inputs,
        zero_fill_blocks: buffers.zero_fill_blocks,
        visual_strips: buffers.visual_strips,
        stem_audio_bytes: buffers.stem_audio_bytes,
        stem_playback_growth_bytes: buffers.stem_playback_growth_bytes,
        stem_total_growth_bytes: stem_growth(stems, buffers) as usize,
        stem_untracked_alloc_bytes: untracked_bytes(stems, buffers) as usize,
        zero_fill_audio_bytes: 0,
        mixer_frame_bytes: 0,
        mixer_internal_alloc_bytes: mixer.allocated_bytes,
        mixer_internal_dealloc_bytes: mixer.deallocated_bytes,
        mixer_scratch_growth_bytes: mixer.scratch_growth_bytes,
        mixer_output_bytes: mixer.output_bytes,
        mixer_prepared_frame_bytes: mixer.prepared_rendered_frame_bytes,
        mixer_report_bytes: mixer.reports_bytes,
        vec_overhead_bytes: container_bytes(buffers) as usize,
        retained_container_capacity_bytes: container_bytes(buffers) as usize,
        temp_container_alloc_bytes: 0,
        retained_capacity_growth_bytes: retained_growth(stems, mixer, buffers) as usize,
        transient_alloc_bytes: transient_bytes(stems, mixer, buffers) as usize,
        transient_dealloc_bytes: transient_bytes(stems, mixer, buffers) as usize,
        transient_growth_bytes: retained_growth(stems, mixer, buffers) as usize,
        ..stem_churn(stems)
    }
}

/// The churn of one call of the mixing renderer.
pub fn mixed_render_churn(
    stems: StemRenderAllocations,
    mixer: MixerAllocations,
    buffers: RenderBuffers,
) -> (churn: RenderChurnSnapshot)
    ensures
        churn == mixed_churn(stems, mixer, buffers),
{
    let stem_total_growth_bytes: usize = stems.total_growth_bytes.saturating_add(
        buffers.stem_playback_growth_bytes,
    );
    let stem_untracked_alloc_bytes: usize = stems.total_bytes.saturating_sub(
        buffers.stem_audio_bytes,
    );
    let vec_overhead_bytes: usize = buffers.routed_block_overhead.saturating_add(
        buffers.mixer_input_overhead,
    );
    let transient_alloc_bytes: usize = buffers.stem_audio_bytes.saturating_add(
        stem_untracked_alloc_bytes,
    ).saturating_add(mixer.allocated_bytes).saturating_add(vec_overhead_bytes);
    let retained_capacity_growth_bytes: usize = stem_total_growth_bytes.saturating_add(
        mixer.scratch_growth_bytes,
    );
    let allocation_events: usize = saturating_mul_usize(
        buffers.rendered_blocks,
        2,
    ).saturating_add(buffers.routed_blocks).saturating_add(2).saturating_add(
        mixer.allocation_events,
    );
    let deallocation_events: usize = allocation_events.saturating_sub(
        mixer.allocation_events,
    ).saturating_add(mixer.deallocation_events);
    RenderChurnSnapshot {
        allocation_events,
        deallocation_events,
        frames: buffers.frames,
        rendered_blocks: buffers.rendered_blocks,
        routed_blocks: buffers.routed_blocks,
        mixer_inputs: mixer.processed_inputs,
        zero_fill_blocks: buffers.zero_fill_blocks,
        visual_strips: buffers.visual_strips,
        stem_audio_bytes: buffers.stem_audio_bytes,
        stem_playback_growth_bytes: buffers.stem_playback_growth_bytes,
        stem_total_growth_bytes,
        stem_untracked_alloc_bytes,
        mixer_internal_alloc_bytes: mixer.allocated_bytes,
        mixer_internal_dealloc_bytes: mixer.deallocated_bytes,
        mixer_scratch_growth_bytes: mixer.scratch_growth_bytes,
        mixer_output_bytes: mixer.output_bytes,
        mixer_prepared_frame_bytes: mixer.prepared_rendered_frame_bytes,
        mixer_report_bytes: mixer.reports_bytes,
        vec_overhead_bytes,
        retained_container_capacity_bytes: vec_overhead_bytes,
        retained_capacity_growth_bytes,
        transient_alloc_bytes,
        transient_dealloc_bytes: transient_alloc_bytes,
        transient_growth_bytes: retained_capacity_growth_bytes,
        ..RenderChurnSnapshot::from_allocations(stems)
    }
}

impl RenderChurnDiagnostics {
    /// The totals with one more render call.
    pub open spec fn recorded(self, snapshot: RenderChurnSnapshot) -> RenderChurnDiagnostics {
        RenderChurnDiagnostics {
            render_calls: u64_cap(self.render_calls + 1) as u64,
            cumulative_allocation_events: u64_cap(
                self.cumulative_allocation_events + snapshot.allocation_events,
            ) as u64,
            cumulative_deallocation_events: u64_cap(
                self.cumulative_deallocation_events + snapshot.deallocation_events,
            ) as u64,
            cumulative_transient_alloc_bytes: u64_cap(
                self.cumulative_transient_alloc_bytes + snapshot.transient_alloc_bytes,
            ) as u64,
            cumulative_transient_dealloc_bytes: u64_cap(
                self.cumulative_transient_dealloc_bytes + snapshot.transient_dealloc_bytes,
            ) as u64,
            cumulative_transient_growth_bytes: u64_cap(
                self.cumulative_transient_growth_bytes + snapshot.transient_growth_bytes,
            ) as u64,
            cumulative_retained_capacity_growth_bytes: u64_cap(
                self.cumulative_retained_capacity_growth_bytes + snapshot.retained_capacity_growth_bytes,
            ) as u64,
            cumulative_temp_container_alloc_bytes: u64_cap(
                self.cumulative_temp_container_alloc_bytes + snapshot.temp_container_alloc_bytes,
            ) as u64,
            max_transient_alloc_bytes: max_of(
                self.max_transient_alloc_bytes as int,
                snapshot.transient_alloc_bytes as int,
            ) as usize,
            max_transient_growth_bytes: max_of(
                self.max_transient_growth_bytes as int,
                snapshot.transient_growth_bytes as int,
            ) as usize,
            max_retained_capacity_growth_bytes: max_of(
                self.max_retained_capacity_growth_bytes as int,
                snapshot.retained_capacity_growth_bytes as int,
            ) as usize,
            max_temp_container_alloc_bytes: max_of(
                self.max_temp_container_alloc_bytes as int,
                snapshot.temp_container_alloc_bytes as int,
            ) as usize,
            last: snapshot,
        }
    }

    /// Adds one render call to the totals.
    pub fn record(&mut self, snapshot: RenderChurnSnapshot)
        ensures
            *final(self) == old(self).recorded(snapshot),
    {
        self.render_calls = self.render_calls.saturating_add(1);
        self.cumulative_allocation_events = self.cumulative_allocation_events.saturating_add(
            snapshot.allocation_events as u64,
        );
        self.cumulative_deallocation_events = self.cumulative_deallocation_events.saturating_add(
            snapshot.deallocation_events as u64,
        );
        self.cumulative_transient_alloc_bytes = self.cumulative_transient_alloc_bytes.saturating_add(
            snapshot.transient_alloc_bytes as u64,
        );
        self.cumulative_transient_dealloc_bytes = self.cumulative_transient_dealloc_bytes.saturating_add(
            snapshot.transient_dealloc_bytes as u64,
        );
        self.cumulative_transient_growth_bytes = self.cumulative_transient_growth_bytes.saturating_add(
            snapshot.transient_growth_bytes as u64,
        );
        self.cumulative_retained_capacity_growth_bytes = self.cumulative_retained_capacity_growth_bytes.saturating_add(
            snapshot.retained_capacity_growth_bytes as u64,
        );
        self.cumulative_temp_container_alloc_bytes = self.cumulative_temp_container_alloc_bytes.saturating_add(
            snapshot.temp_container_alloc_bytes as u64,
        );
        self.max_transient_alloc_bytes = max_usize(
            self.max_transient_alloc_bytes,
            snapshot.transient_alloc_bytes,
        );
        self.max_transient_growth_bytes = max_usize(
            self.max_transient_growth_bytes,
            snapshot.transient_growth_bytes,
        );
        self.max_retained_capacity_growth_bytes = max_usize(
            self.max_retained_capacity_growth_bytes,
            snapshot.retained_capacity_growth_bytes,
        );
        self.max_temp_container_alloc_bytes = max_usize(
            self.max_temp_container_alloc_bytes,
            snapshot.temp_container_alloc_bytes,
        );
        self.last = snapshot;
    }
}

/// The totals never fall, and the maxima cover the last call.
pub proof fn churn_totals_never_fall(before: RenderChurnDiagnostics, snapshot: RenderChurnSnapshot)
    ensures
        ({
            let after = before.recorded(snapshot);
            &&& after.render_calls >= before.render_calls
            &&& after.cumulative_allocation_events >= before.cumulative_allocation_events
            &&& after.cumulative_transient_alloc_bytes >= before.cumulative_transient_alloc_bytes
            &&& after.max_transient_alloc_bytes >= before.max_transient_alloc_bytes
            &&& after.max_transient_alloc_bytes >= after.last.transient_alloc_bytes
            &&& after.max_transient_growth_bytes >= after.last.transient_growth_bytes
            &&& after.max_retained_capacity_growth_bytes
                >= after.last.retained_capacity_growth_bytes
        }),
{
}

/// What a mixed render call allocates for itself it releases again.
pub proof fn transient_bytes_are_released(
    stems: StemRenderAllocations,
    mixer: MixerAllocations,
    buffers: RenderBuffers,
)
    ensures
        mixed_churn(stems, mixer, buffers).transient_alloc_bytes == mixed_churn(
            stems,
            mixer,
            buffers,
        ).transient_dealloc_bytes,
        mixer.allocation_events == mixer.deallocation_events && buffers.rendered_blocks * 2
            + buffers.routed_blocks + 2 + mixer.allocation_events <= usize::MAX ==> mixed_churn(
            stems,
            mixer,
            buffers,
        ).allocation_events == mixed_churn(stems, mixer, buffers).deallocation_events,
{
}

/// The bytes of the audio of stem blocks with the given left and right
/// capacities, four bytes a sample.
pub open spec fn audio_bytes(capacities: Seq<(usize, usize)>) -> int
    decreases capacities.len(),
{
    if capacities.len() == 0 {
        0
    } else {
        audio_bytes(capacities.drop_last()) + usize_cap(
            usize_cap(capacities.last().0 + capacities.last().1) * 4,
        )
    }
}

proof fn lemma_audio_bytes_grow(capacities: Seq<(usize, usize)>, n: int)
    requires
        0 <= n <= capacities.len(),
    ensures
        0 <= audio_bytes(capacities.take(n)) <= audio_bytes(capacities),
    decreases capacities.len(),
{
    if n < capacities.len() {
        lemma_audio_bytes_grow(capacities.drop_last(), n);
        assert(capacities.drop_last().take(n) =~= capacities.take(n));
    } else {
        assert(capacities.take(n) =~= capacities);
        if n > 0 {
            lemma_audio_bytes_grow(capacities.drop_last(), n - 1);
            assert(capacities.drop_last().take(n - 1) =~= capacities.drop_last());
        }
    }
}

/// The bytes of the audio of stem blocks, from the capacities of their sides.
pub fn stem_blocks_audio_bytes(capacities: &[(usize, usize)]) -> (bytes: usize)
    requires
        audio_bytes(capacities@) <= usize::MAX,
    ensures
        bytes == audio_bytes(capacities@),
{
    let mut bytes: usize = 0;
    let mut i: usize = 0;
    while i < capacities.len()
        invariant
            i <= capacities.len(),
            audio_bytes(capacities@) <= usize::MAX,
            bytes == audio_bytes(capacities@.take(i as int)),
        decreases capacities.len() - i,
    {
        let block: usize = saturating_mul_usize(
            capacities[i].0.saturating_add(capacities[i].1),
            4,
        );
        proof {
            lemma_audio_bytes_grow(capacities@, i + 1);
            assert(capacities@.take(i + 1).drop_last() =~= capacities@.take(i as int));
        }
        bytes = bytes + block;
        i = i + 1;
    }
    assert(capacities@.take(i as int) =~= capacities@);
    bytes
}

/// The bytes of a list of stem blocks: its slots, the audio and the notes.
pub fn stem_blocks_total_bytes(
    block_capacity: usize,
    block_size: usize,
    capacities: &[(usize, usize)],
    note_bytes: usize,
) -> (bytes: usize)
    requires
        audio_bytes(capacities@) <= usize::MAX,
    ensures
        bytes == usize_cap(
            block_capacity * block_size + audio_bytes(capacities@) + note_bytes,
        ),
{
    proof {
        lemma_audio_bytes_grow(capacities@, 0);
        assert(block_capacity * block_size >= 0) by (nonlinear_arith);
    }
    saturating_mul_usize(block_capacity, block_size).saturating_add(
        stem_blocks_audio_bytes(capacities),
    ).saturating_add(note_bytes)
}

/// Each render call is counted once, adds what it did to the totals and raises the maxima to
/// what it took.
pub proof fn render_calls_add_up(before: RenderChurnDiagnostics, call: RenderChurnSnapshot)
    ensures
        ({
            let after = before.recorded(call);
            &&& before.render_calls < u64::MAX ==> after.render_calls == before.render_calls + 1
            &&& before.cumulative_allocation_events + call.allocation_events <= u64::MAX
                ==> after.cumulative_allocation_events - before.cumulative_allocation_events
                == call.allocation_events
            &&& before.cumulative_deallocation_events + call.deallocation_events <= u64::MAX
                ==> after.cumulative_deallocation_events - before.cumulative_deallocation_events
                == call.deallocation_events
            &&& before.cumulative_transient_alloc_bytes + call.transient_alloc_bytes <= u64::MAX
                ==> after.cumulative_transient_alloc_bytes
                - before.cumulative_transient_alloc_bytes == call.transient_alloc_bytes
            &&& before.cumulative_transient_dealloc_bytes + call.transient_dealloc_bytes
                <= u64::MAX ==> after.cumulative_transient_dealloc_bytes
                - before.cumulative_transient_dealloc_bytes == call.transient_dealloc_bytes
            &&& before.cumulative_transient_growth_bytes + call.transient_growth_bytes <= u64::MAX
                ==> after.cumulative_transient_growth_bytes
                - before.cumulative_transient_growth_bytes == call.transient_growth_bytes
            &&& before.cumulative_retained_capacity_growth_bytes
                + call.retained_capacity_growth_bytes <= u64::MAX
                ==> after.cumulative_retained_capacity_growth_bytes
                - before.cumulative_retained_capacity_growth_bytes
                == call.retained_capacity_growth_bytes
            &&& before.cumulative_temp_container_alloc_bytes + call.temp_container_alloc_bytes
                <= u64::MAX ==> after.cumulative_temp_container_alloc_bytes
                - before.cumulative_temp_container_alloc_bytes == call.temp_container_alloc_bytes
            &&& after.max_transient_alloc_bytes >= call.transient_alloc_bytes
            &&& after.max_transient_alloc_bytes == call.transient_alloc_bytes
                || after.max_transient_alloc_bytes == before.max_transient_alloc_bytes
            &&& after.max_transient_growth_bytes >= before.max_transient_growth_bytes
            &&& after.max_transient_growth_bytes == call.transient_growth_bytes
                || after.max_transient_growth_bytes == before.max_transient_growth_bytes
            &&& after.max_retained_capacity_growth_bytes
                >= before.max_retained_capacity_growth_bytes
            &&& after.max_retained_capacity_growth_bytes == call.retained_capacity_growth_bytes
                || after.max_retained_capacity_growth_bytes
                == before.max_retained_capacity_growth_bytes
            &&& after.max_temp_container_alloc_bytes >= before.max_temp_container_alloc_bytes
            &&& after.max_temp_container_alloc_bytes >= call.temp_container_alloc_bytes
            &&& after.max_temp_container_alloc_bytes == call.temp_container_alloc_bytes
                || after.max_temp_container_alloc_bytes == before.max_temp_container_alloc_bytes
            &&& after.last == call
        }),
{
}

/// A mixed render call is told of by what it rendered: its frames, blocks, strips and bytes,
/// and two events for each rendered block, one for each routed block and two for the call.
pub proof fn mixed_calls_are_told_by_their_blocks(
    stems: StemRenderAllocations,
    mixer: MixerAllocations,
    buffers: RenderBuffers,
)
    requires
        2 * buffers.rendered_blocks + buffers.routed_blocks + 2 + mixer.allocation_events
            + mixer.deallocation_events <= usize::MAX,
        buffers.stem_audio_bytes <= stems.total_bytes,
        stems.total_bytes + mixer.allocated_bytes + buffers.routed_block_overhead
            + buffers.mixer_input_overhead <= usize::MAX,
    ensures
        ({
            let churn = mixed_churn(stems, mixer, buffers);
            let own = 2 * buffers.rendered_blocks + buffers.routed_blocks + 2;
            &&& churn.frames == buffers.frames
            &&& churn.rendered_blocks == buffers.rendered_blocks
            &&& churn.routed_blocks == buffers.routed_blocks
            &&& churn.mixer_inputs == mixer.processed_inputs
            &&& churn.zero_fill_blocks == buffers.zero_fill_blocks
            &&& churn.visual_strips == buffers.visual_strips
            &&& churn.stem_audio_bytes == buffers.stem_audio_bytes
            &&& churn.allocation_events == own + mixer.allocation_events
            &&& churn.deallocation_events == own + mixer.deallocation_events
            &&& churn.transient_alloc_bytes == stems.total_bytes + mixer.allocated_bytes
                + buffers.routed_block_overhead + buffers.mixer_input_overhead
            &&& churn.transient_dealloc_bytes == churn.transient_alloc_bytes
        }),
{
}

/// Blocks with room for the given samples take four bytes for each sample of either side.
pub proof fn samples_take_four_bytes(capacities: Seq<(usize, usize)>, block: (usize, usize))
    requires
        (block.0 + block.1) * 4 <= usize::MAX,
    ensures
        audio_bytes(capacities.push(block)) == audio_bytes(capacities) + 4 * block.0 + 4 * block.1,
        audio_bytes(Seq::empty()) == 0,
{
    assert(capacities.push(block).drop_last() =~= capacities);
}

} // verus!
