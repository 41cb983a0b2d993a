//! What a MIDI file demands, and which soundfonts are chosen to serve it.
use crate::catalog::{coverage_supports_midi_role, fallback_entry};
use crate::catalog::{find_fallback, find_last_entry, in_catalog, last_entry};
use crate::catalog::{BankProgramDemand, SoundFontCatalogEntry, SoundFontCoverage};
use crate::error::{ErrorKind, FlutzError};
use crate::numbers::monus;
use crate::playback::strips::MidiStripDescriptor;
use crate::sorted::{ascending_u32, insert_sorted_u32};
use crate::text::{contains_text, texts};
use vstd::prelude::*;

verus! {

/// The roles that a MIDI file plays, and what they need.
#[derive(Debug)]
pub struct MidiDemandProfile {
    pub channel_roles: Vec<MidiStripDescriptor>,
    pub melodic_programs: Vec<BankProgramDemand>,
    pub percussion_channels: Vec<u8>,
}

/// A bank and program as one number, in the order of bank, then program.
pub open spec fn program_key(demand: BankProgramDemand) -> int {
    demand.bank * 256 + demand.program
}

/// Whether programs come in strictly ascending order of bank and program.
pub open spec fn ascending_programs(programs: Seq<BankProgramDemand>) -> bool {
    forall|i: int, j: int|
        0 <= i < j < programs.len() ==> program_key(#[trigger] programs[i]) < program_key(
            #[trigger] programs[j],
        )
}

/// Whether channels come in strictly ascending order.
pub open spec fn ascending_channels(channels: Seq<u8>) -> bool {
    forall|i: int, j: int|
        0 <= i < j < channels.len() ==> #[trigger] channels[i] < #[trigger] channels[j]
}

/// Whether a melodic role wants a program.
pub open spec fn wants_program(roles: Seq<MidiStripDescriptor>, demand: BankProgramDemand) -> bool {
    exists|i: int|
        0 <= i < roles.len() && !(#[trigger] roles[i]).is_percussion && roles[i].bank == demand.bank
            && roles[i].program == demand.program
}

/// Whether a percussion role is on a channel.
pub open spec fn has_percussion_on(roles: Seq<MidiStripDescriptor>, channel: u8) -> bool {
    exists|i: int|
        0 <= i < roles.len() && (#[trigger] roles[i]).is_percussion && roles[i].channel == channel
}

/// The programs of the melodic roles and the channels of the percussion roles,
/// each once and in order.
pub open spec fn is_profile_of(
    profile: MidiDemandProfile,
    roles: Seq<MidiStripDescriptor>,
) -> bool {
    &&& profile.channel_roles@ == roles
    &&& ascending_programs(profile.melodic_programs@)
    &&& forall|d: BankProgramDemand| #[trigger]
        profile.melodic_programs@.contains(d) == wants_program(roles, d)
    &&& ascending_channels(profile.percussion_channels@)
    &&& forall|c: u8| #[trigger]
        profile.percussion_channels@.contains(c) == has_percussion_on(roles, c)
}

fn key_of(bank: u16, program: u8) -> (key: u32)
    ensures
        key == program_key(BankProgramDemand { bank, program }),
{
    bank as u32 * 256 + program as u32
}

fn demand_of(key: u32) -> (demand: BankProgramDemand)
    requires
        key < 0x100_0000,
    ensures
        program_key(demand) == key,
{
    BankProgramDemand { bank: (key / 256) as u16, program: (key % 256) as u8 }
}

proof fn lemma_program_key_injective(a: BankProgramDemand, b: BankProgramDemand)
    requires
        program_key(a) == program_key(b),
    ensures
        a == b,
{
}

fn programs_of(keys: &Vec<u32>) -> (programs: Vec<BankProgramDemand>)
    requires
        ascending_u32(keys@),
        forall|i: int| 0 <= i < keys@.len() ==> #[trigger] keys@[i] < 0x100_0000,
    ensures
        ascending_programs(programs@),
        forall|d: BankProgramDemand| #[trigger]
            programs@.contains(d) == keys@.contains(program_key(d) as u32),
{
    let mut programs: Vec<BankProgramDemand> = Vec::new();
    let mut i: usize = 0;
    while i < keys.len()
        invariant
            i <= keys.len(),
            forall|i: int| 0 <= i < keys@.len() ==> #[trigger] keys@[i] < 0x100_0000,
            programs@.len() == i,
            forall|k: int| 0 <= k < i ==> program_key(#[trigger] programs@[k]) == keys@[k],
        decreases keys.len() - i,
    {
        programs.push(demand_of(keys[i]));
        i = i + 1;
    }
    proof {
        assert forall|d: BankProgramDemand| #[trigger] programs@.contains(d) == keys@.contains(
            program_key(d) as u32,
        ) by {
            if programs@.contains(d) {
                let k = choose|k: int| 0 <= k < programs@.len() && programs@[k] == d;
                assert(keys@[k] == program_key(d) as u32);
            }
            if keys@.contains(program_key(d) as u32) {
                let k = choose|k: int| 0 <= k < keys@.len() && keys@[k] == program_key(d) as u32;
                lemma_program_key_injective(programs@[k], d);
            }
        }
        assert forall|a: int, b: int| 0 <= a < b < programs@.len() implies program_key(
            #[trigger] programs@[a],
        ) < program_key(#[trigger] programs@[b]) by {
            assert(keys@[a] < keys@[b]);
        }
    }
    programs
}

fn channels_of(keys: &Vec<u32>) -> (channels: Vec<u8>)
    requires
        ascending_u32(keys@),
        forall|i: int| 0 <= i < keys@.len() ==> #[trigger] keys@[i] < 256,
    ensures
        ascending_channels(channels@),
        forall|c: u8| #[trigger] channels@.contains(c) == keys@.contains(c as u32),
{
    let mut channels: Vec<u8> = Vec::new();
    let mut i: usize = 0;
    while i < keys.len()
        invariant
            i <= keys.len(),
            forall|i: int| 0 <= i < keys@.len() ==> #[trigger] keys@[i] < 256,
            channels@.len() == i,
            forall|k: int| 0 <= k < i ==> #[trigger] channels@[k] == keys@[k],
        decreases keys.len() - i,
    {
        channels.push(keys[i] as u8);
        i = i + 1;
    }
    proof {
        assert forall|c: u8| #[trigger] channels@.contains(c) == keys@.contains(c as u32) by {
            if channels@.contains(c) {
                let k = choose|k: int| 0 <= k < channels@.len() && channels@[k] == c;
                assert(keys@[k] == c as u32);
            }
            if keys@.contains(c as u32) {
                let k = choose|k: int| 0 <= k < keys@.len() && keys@[k] == c as u32;
                assert(channels@[k] == c);
            }
        }
        assert forall|a: int, b: int| 0 <= a < b < channels@.len() implies #[trigger] channels@[a]
            < #[trigger] channels@[b] by {
            assert(keys@[a] < keys@[b]);
        }
    }
    channels
}

impl MidiDemandProfile {
    pub fn from_channel_roles(channel_roles: Vec<MidiStripDescriptor>) -> (profile: Self)
        ensures
            is_profile_of(profile, channel_roles@),
    {
        let ghost roles = channel_roles@;
        let mut program_keys: Vec<u32> = Vec::new();
        let mut channel_keys: Vec<u32> = Vec::new();
        let mut i: usize = 0;
        while i < channel_roles.len()
            invariant
                i <= channel_roles.len(),
                roles == channel_roles@,
                ascending_u32(program_keys@),
                ascending_u32(channel_keys@),
                forall|key: u32| #[trigger]
                    program_keys@.contains(key) ==> key < 0x100_0000,
                forall|key: u32| #[trigger] channel_keys@.contains(key) ==> key < 256,
                forall|d: BankProgramDemand|
                    program_keys@.contains(program_key(d) as u32) == #[trigger] wants_program(
                        roles.take(i as int),
                        d,
                    ),
                forall|c: u8|
                    channel_keys@.contains(c as u32) == #[trigger] has_percussion_on(
                        roles.take(i as int),
                        c,
                    ),
            decreases channel_roles.len() - i,
        {
            let role = channel_roles[i];
            let ghost shorter = roles.take(i as int);
            let ghost longer = roles.take(i + 1);
            let ghost programs_before = program_keys@;
            let ghost channels_before = channel_keys@;
            if role.is_percussion {
                insert_sorted_u32(&mut channel_keys, role.channel as u32);
            } else {
                insert_sorted_u32(&mut program_keys, key_of(role.bank, role.program));
            }
            assert(longer[i as int] == role);
            assert forall|d: BankProgramDemand|
                program_keys@.contains(program_key(d) as u32) == #[trigger] wants_program(
                    longer,
                    d,
                ) by {
                assert(programs_before.contains(program_key(d) as u32) == wants_program(
                    shorter,
                    d,
                ));
                if wants_program(shorter, d) {
                    let k = choose|k: int|
                        0 <= k < shorter.len() && !(#[trigger] shorter[k]).is_percussion
                            && shorter[k].bank == d.bank && shorter[k].program == d.program;
                    assert(longer[k] == shorter[k]);
                }
                if wants_program(longer, d) {
                    let k = choose|k: int|
                        0 <= k < longer.len() && !(#[trigger] longer[k]).is_percussion
                            && longer[k].bank == d.bank && longer[k].program == d.program;
                    if k < i {
                        assert(shorter[k] == longer[k]);
                    }
                }
                let own = BankProgramDemand { bank: role.bank, program: role.program };
                if program_key(d) == program_key(own) {
                    lemma_program_key_injective(d, own);
                }
            }
            assert forall|c: u8|
                channel_keys@.contains(c as u32) == #[trigger] has_percussion_on(longer, c) by {
                assert(channels_before.contains(c as u32) == has_percussion_on(shorter, c));
                if has_percussion_on(shorter, c) {
                    let k = choose|k: int|
                        0 <= k < shorter.len() && (#[trigger] shorter[k]).is_percussion
                            && shorter[k].channel == c;
                    assert(longer[k] == shorter[k]);
                }
                if has_percussion_on(longer, c) {
                    let k = choose|k: int|
                        0 <= k < longer.len() && (#[trigger] longer[k]).is_percussion
                            && longer[k].channel == c;
                    if k < i {
                        assert(shorter[k] == longer[k]);
                    }
                }
            }
            i = i + 1;
        }
        assert(roles.take(i as int) =~= roles);
        assert forall|k: int| 0 <= k < program_keys@.len() implies #[trigger] program_keys@[k]
            < 0x100_0000 by {
            assert(program_keys@.contains(program_keys@[k]));
        }
        assert forall|k: int| 0 <= k < channel_keys@.len() implies #[trigger] channel_keys@[k]
            < 256 by {
            assert(channel_keys@.contains(channel_keys@[k]));
        }
        let melodic_programs = programs_of(&program_keys);
        let percussion_channels = channels_of(&channel_keys);
        MidiDemandProfile { channel_roles, melodic_programs, percussion_channels }
    }

    pub fn role_count(&self) -> (count: usize)
        ensures
            count == self.channel_roles@.len(),
    {
        self.channel_roles.len()
    }
}

/// The requested soundfonts that the catalog has, in order.
pub open spec fn available_ids(
    catalog: Seq<SoundFontCatalogEntry>,
    requested: Seq<Seq<char>>,
) -> Seq<Seq<char>> {
    requested.filter(|id: Seq<char>| in_catalog(catalog, id))
}

/// Whether a soundfont is of use for the roles: what it plays is unknown, or it
/// plays one of them.
pub open spec fn is_useful(
    catalog: Seq<SoundFontCatalogEntry>,
    roles: Seq<MidiStripDescriptor>,
    id: Seq<char>,
) -> bool {
    match last_entry(catalog, id, catalog.len() as int) {
        None => true,
        Some(i) => match catalog[i].coverage {
            None => true,
            Some(coverage) => exists|r: int|
                0 <= r < roles.len() && coverage.supports(#[trigger] roles[r]),
        },
    }
}

/// `ids` without the soundfonts that are of no use, unless none would be left
/// or there is no role to go by.
pub open spec fn pruned_ids(
    catalog: Seq<SoundFontCatalogEntry>,
    ids: Seq<Seq<char>>,
    roles: Seq<MidiStripDescriptor>,
) -> Seq<Seq<char>> {
    let useful = ids.filter(|id: Seq<char>| is_useful(catalog, roles, id));
    if roles.len() == 0 || useful.len() == 0 {
        ids
    } else {
        useful
    }
}

/// The soundfonts that serve a request: those of it that are available and of
/// use, or else the fallback.
pub open spec fn resolved_ids(
    catalog: Seq<SoundFontCatalogEntry>,
    requested: Seq<Seq<char>>,
    roles: Seq<MidiStripDescriptor>,
) -> Option<Seq<Seq<char>>> {
    let available = available_ids(catalog, requested);
    if available.len() > 0 {
        Some(pruned_ids(catalog, available, roles))
    } else {
        match fallback_entry(catalog) {
            Some(i) => Some(seq![catalog[i].internal_id@]),
            None => None,
        }
    }
}

fn plays_any(coverage: &crate::catalog::SoundFontCoverage, roles: &[MidiStripDescriptor]) -> (found:
    bool)
    ensures
        found == (exists|r: int| 0 <= r < roles@.len() && coverage.supports(#[trigger] roles@[r])),
{
    let mut r: usize = 0;
    while r < roles.len()
        invariant
            r <= roles.len(),
            forall|k: int| 0 <= k < r ==> !coverage.supports(#[trigger] roles@[k]),
        decreases roles.len() - r,
    {
        if coverage_supports_midi_role(coverage, &roles[r]) {
            assert(coverage.supports(roles@[r as int]));
            return true;
        }
        r = r + 1;
    }
    false
}

fn is_useful_font(
    catalog: &[SoundFontCatalogEntry],
    roles: &[MidiStripDescriptor],
    id: &str,
) -> (useful: bool)
    ensures
        useful == is_useful(catalog@, roles@, id@),
{
    match find_last_entry(catalog, id) {
        None => true,
        Some(i) => match &catalog[i].coverage {
            None => true,
            Some(coverage) => plays_any(coverage, roles),
        },
    }
}

/// Removes the soundfonts that are of no use for the roles.
pub fn prune_soundfont_ids_by_coverage(
    catalog: &[SoundFontCatalogEntry],
    soundfont_ids: Vec<String>,
    roles: &[MidiStripDescriptor],
) -> (ids: Vec<String>)
    ensures
        texts(ids@) == pruned_ids(catalog@, texts(soundfont_ids@), roles@),
{
    if roles.len() == 0 {
        return soundfont_ids;
    }
    let ghost all = texts(soundfont_ids@);
    let ghost useful = |id: Seq<char>| is_useful(catalog@, roles@, id);
    let mut pruned: Vec<String> = Vec::new();
    let mut i: usize = 0;
    proof {
        reveal(Seq::filter);
        assert(texts(pruned@) =~= all.take(0).filter(useful));
    }
    while i < soundfont_ids.len()
        invariant
            i <= soundfont_ids.len(),
            all == texts(soundfont_ids@),
            useful == (|id: Seq<char>| is_useful(catalog@, roles@, id)),
            texts(pruned@) == all.take(i as int).filter(useful),
        decreases soundfont_ids.len() - i,
    {
        proof {
            reveal(Seq::filter);
            assert(all.take(i + 1).drop_last() =~= all.take(i as int));
            assert(all.take(i + 1).last() == soundfont_ids@[i as int]@);
        }
        if is_useful_font(catalog, roles, soundfont_ids[i].as_str()) {
            let ghost before = pruned@;
            pruned.push(soundfont_ids[i].clone());
            assert(texts(pruned@) =~= texts(before).push(soundfont_ids@[i as int]@));
        }
        i = i + 1;
    }
    assert(all.take(i as int) =~= all);
    if pruned.len() == 0 {
        soundfont_ids
    } else {
        pruned
    }
}

/// Chooses the soundfonts for a MIDI file.
pub fn resolve_soundfont_ids(
    catalog: &[SoundFontCatalogEntry],
    requested: &[String],
    roles: &[MidiStripDescriptor],
) -> (ids: Result<Vec<String>, FlutzError>)
    ensures
        match ids {
            Ok(ids) => resolved_ids(catalog@, texts(requested@), roles@) == Some(texts(ids@)),
            Err(error) => resolved_ids(catalog@, texts(requested@), roles@) is None && error@ == (
                ErrorKind::InvalidInput,
                "no soundfonts are available in the DAT data folder"@,
            ),
        },
{
    let ghost all = texts(requested@);
    let ghost known = |id: Seq<char>| in_catalog(catalog@, id);
    let mut ids: Vec<String> = Vec::new();
    let mut i: usize = 0;
    proof {
        reveal(Seq::filter);
        assert(texts(ids@) =~= all.take(0).filter(known));
    }
    while i < requested.len()
        invariant
            i <= requested.len(),
            all == texts(requested@),
            known == (|id: Seq<char>| in_catalog(catalog@, id)),
            texts(ids@) == all.take(i as int).filter(known),
        decreases requested.len() - i,
    {
        proof {
            reveal(Seq::filter);
            assert(all.take(i + 1).drop_last() =~= all.take(i as int));
            assert(all.take(i + 1).last() == requested@[i as int]@);
        }
        if find_last_entry(catalog, requested[i].as_str()).is_some() {
            let ghost before = ids@;
            ids.push(requested[i].clone());
            assert(texts(ids@) =~= texts(before).push(requested@[i as int]@));
        }
        i = i + 1;
    }
    assert(all.take(i as int) =~= all);
    if ids.len() > 0 {
        return Ok(prune_soundfont_ids_by_coverage(catalog, ids, roles));
    }
    match find_fallback(catalog) {
        Some(position) => {
            let mut fallback: Vec<String> = Vec::new();
            fallback.push(catalog[position].internal_id.clone());
            assert(texts(fallback@) =~= seq![catalog@[position as int].internal_id@]);
            Ok(fallback)
        },
        None => Err(
            FlutzError::InvalidInput(
                "no soundfonts are available in the DAT data folder".to_owned(),
            ),
        ),
    }
}

proof fn lemma_filter_members(ids: Seq<Seq<char>>, keep: spec_fn(Seq<char>) -> bool)
    ensures
        forall|i: int|
            0 <= i < ids.filter(keep).len() ==> keep(#[trigger] ids.filter(keep)[i])
                && ids.contains(ids.filter(keep)[i]),
        ids.filter(keep).len() <= ids.len(),
    decreases ids.len(),
{
    reveal(Seq::filter);
    if ids.len() > 0 {
        let shorter = ids.drop_last();
        lemma_filter_members(shorter, keep);
        assert forall|i: int| 0 <= i < ids.filter(keep).len() implies keep(
            #[trigger] ids.filter(keep)[i],
        ) && ids.contains(ids.filter(keep)[i]) by {
            if i < shorter.filter(keep).len() {
                assert(ids.filter(keep)[i] == shorter.filter(keep)[i]);
                let k = choose|k: int| 0 <= k < shorter.len() && shorter[k] == shorter.filter(
                    keep,
                )[i];
                assert(ids[k] == ids.filter(keep)[i]);
            } else {
                assert(ids[ids.len() - 1] == ids.filter(keep)[i]);
            }
        }
    }
}

/// A request is always served from the catalog: every chosen soundfont is in
/// it, at least one is chosen, and only an empty catalog serves nothing.
pub proof fn requests_are_served_from_the_catalog(
    catalog: Seq<SoundFontCatalogEntry>,
    requested: Seq<Seq<char>>,
    roles: Seq<MidiStripDescriptor>,
)
    ensures
        resolved_ids(catalog, requested, roles) is None == (catalog.len() == 0),
        match resolved_ids(catalog, requested, roles) {
            Some(ids) => ids.len() > 0 && forall|i: int|
                0 <= i < ids.len() ==> in_catalog(catalog, #[trigger] ids[i]),
            None => true,
        },
{
    let known = |id: Seq<char>| in_catalog(catalog, id);
    let available = available_ids(catalog, requested);
    lemma_filter_members(requested, known);
    let useful = |id: Seq<char>| is_useful(catalog, roles, id);
    lemma_filter_members(available, useful);
    if available.len() > 0 {
        assert(known(available[0]));
        assert(in_catalog(catalog, available[0]));
        assert forall|i: int|
            0 <= i < pruned_ids(catalog, available, roles).len() implies in_catalog(
            catalog,
            #[trigger] pruned_ids(catalog, available, roles)[i],
        ) by {
            let chosen = pruned_ids(catalog, available, roles);
            assert(available.contains(chosen[i]));
            let k = choose|k: int| 0 <= k < available.len() && available[k] == chosen[i];
            assert(known(available[k]));
        }
    } else {
        crate::catalog::lemma_first_default(catalog, catalog.len() as int);
        match fallback_entry(catalog) {
            Some(i) => {
                assert(catalog[i].internal_id@ == resolved_ids(catalog, requested, roles)->Some_0[0]);
            },
            None => {},
        }
    }
}

/// How a request was served.
#[derive(Debug)]
pub struct SoundFontDemandDiagnostics {
    pub requested_soundfont_count: usize,
    pub loaded_provider_count: usize,
    pub pruned_soundfont_count: usize,
    pub demand_profile: MidiDemandProfile,
}

/// The number of soundfonts that a request asks for: those that are available,
/// or the chosen ones where it names none.
pub open spec fn requested_count(
    catalog: Seq<SoundFontCatalogEntry>,
    requested: Seq<Seq<char>>,
    resolved: Seq<Seq<char>>,
) -> int {
    if requested.len() == 0 {
        resolved.len() as int
    } else {
        available_ids(catalog, requested).len() as int
    }
}

/// The number of chosen soundfonts that were asked for.
pub open spec fn served_count(requested: Seq<Seq<char>>, resolved: Seq<Seq<char>>) -> int {
    resolved.filter(|id: Seq<char>| requested.len() == 0 || requested.contains(id)).len() as int
}

pub fn soundfont_demand_diagnostics(
    catalog: &[SoundFontCatalogEntry],
    requested: &[String],
    resolved: &[String],
    demand_profile: MidiDemandProfile,
) -> (diagnostics: SoundFontDemandDiagnostics)
    ensures
        diagnostics.demand_profile == demand_profile,
        diagnostics.loaded_provider_count == resolved@.len(),
        diagnostics.requested_soundfont_count == requested_count(
            catalog@,
            texts(requested@),
            texts(resolved@),
        ),
        diagnostics.pruned_soundfont_count == monus(
            requested_count(catalog@, texts(requested@), texts(resolved@)),
            served_count(texts(requested@), texts(resolved@)),
        ),
{
    let ghost wanted = texts(requested@);
    let ghost chosen = texts(resolved@);
    let ghost known = |id: Seq<char>| in_catalog(catalog@, id);
    let ghost asked = |id: Seq<char>| wanted.len() == 0 || wanted.contains(id);
    let mut available: usize = 0;
    let mut i: usize = 0;
    proof {
        reveal(Seq::filter);
        assert(wanted.take(0).filter(known).len() == 0);
        assert(chosen.take(0).filter(asked).len() == 0);
    }
    while i < requested.len()
        invariant
            i <= requested.len(),
            available <= i,
            wanted == texts(requested@),
            known == (|id: Seq<char>| in_catalog(catalog@, id)),
            available == wanted.take(i as int).filter(known).len(),
        decreases requested.len() - i,
    {
        proof {
            reveal(Seq::filter);
            assert(wanted.take(i + 1).drop_last() =~= wanted.take(i as int));
            assert(wanted.take(i + 1).last() == requested@[i as int]@);
        }
        if find_last_entry(catalog, requested[i].as_str()).is_some() {
            available = available + 1;
        }
        i = i + 1;
    }
    assert(wanted.take(i as int) =~= wanted);
    let mut served: usize = 0;
    let mut k: usize = 0;
    while k < resolved.len()
        invariant
            k <= resolved.len(),
            served <= k,
            wanted == texts(requested@),
            chosen == texts(resolved@),
            asked == (|id: Seq<char>| wanted.len() == 0 || wanted.contains(id)),
            served == chosen.take(k as int).filter(asked).len(),
        decreases resolved.len() - k,
    {
        proof {
            reveal(Seq::filter);
            assert(chosen.take(k + 1).drop_last() =~= chosen.take(k as int));
            assert(chosen.take(k + 1).last() == resolved@[k as int]@);
        }
        if requested.len() == 0 || contains_text(requested, resolved[k].as_str()) {
            served = served + 1;
        }
        k = k + 1;
    }
    assert(chosen.take(k as int) =~= chosen);
    let requested_soundfont_count: usize = if requested.len() == 0 {
        resolved.len()
    } else {
        available
    };
    SoundFontDemandDiagnostics {
        requested_soundfont_count,
        loaded_provider_count: resolved.len(),
        pruned_soundfont_count: requested_soundfont_count.saturating_sub(served),
        demand_profile,
    }
}

/// What a soundfont can play, from the list of its melodic programs, in any order, and
/// whether it has percussion.
pub fn soundfont_coverage_from_json(percussion: bool, melodic: &[BankProgramDemand]) -> (coverage:
    SoundFontCoverage)
    ensures
        coverage.percussion == percussion,
        ascending_programs(coverage.bank_programs@),
        forall|d: BankProgramDemand| #[trigger]
            coverage.bank_programs@.contains(d) == melodic@.contains(d),
{
    let mut keys: Vec<u32> = Vec::new();
    let mut i: usize = 0;
    while i < melodic.len()
        invariant
            i <= melodic@.len(),
            ascending_u32(keys@),
            forall|key: u32| #[trigger] keys@.contains(key) ==> key < 0x100_0000,
            forall|d: BankProgramDemand|
                keys@.contains(program_key(d) as u32) == #[trigger] melodic@.take(
                    i as int,
                ).contains(d),
        decreases melodic@.len() - i,
    {
        let ghost before = keys@;
        let own = melodic[i];
        insert_sorted_u32(&mut keys, key_of(own.bank, own.program));
        assert(program_key(own) < 0x100_0000);
        assert forall|d: BankProgramDemand|
            keys@.contains(program_key(d) as u32) == #[trigger] melodic@.take(
                i + 1,
            ).contains(d) by {
            let shorter = melodic@.take(i as int);
            let longer = melodic@.take(i + 1);
            assert(longer =~= shorter.push(own));
            assert(before.contains(program_key(d) as u32) == shorter.contains(d));
            if shorter.contains(d) {
                let k = choose|k: int| 0 <= k < shorter.len() && shorter[k] == d;
                assert(longer[k] == d);
            }
            assert(longer[i as int] == own);
            if longer.contains(d) && d != own {
                let k = choose|k: int| 0 <= k < longer.len() && longer[k] == d;
                assert(shorter[k] == d);
            }
            if program_key(d) == program_key(own) {
                lemma_program_key_injective(d, own);
            }
        }
        i = i + 1;
    }
    assert(melodic@.take(i as int) =~= melodic@);
    assert forall|k: int| 0 <= k < keys@.len() implies #[trigger] keys@[k] < 0x100_0000 by {
        assert(keys@.contains(keys@[k]));
    }
    let bank_programs = programs_of(&keys);
    assert forall|d: BankProgramDemand| #[trigger]
        bank_programs@.contains(d) == melodic@.contains(d) by {
        assert(melodic@.take(i as int).contains(d) == melodic@.contains(d));
    }
    SoundFontCoverage { percussion, bank_programs }
}

proof fn lemma_filter_keeps(ids: Seq<Seq<char>>, keep: spec_fn(Seq<char>) -> bool, id: Seq<char>)
    ensures
        ids.filter(keep).contains(id) == (ids.contains(id) && keep(id)),
    decreases ids.len(),
{
    reveal(Seq::filter);
    if ids.len() > 0 {
        let shorter = ids.drop_last();
        let before = shorter.filter(keep);
        let now = ids.filter(keep);
        lemma_filter_keeps(shorter, keep, id);
        assert(ids[ids.len() - 1] == ids.last());
        if shorter.contains(id) {
            let k = choose|k: int| 0 <= k < shorter.len() && shorter[k] == id;
            assert(ids[k] == id);
        }
        if ids.contains(id) && ids.last() != id {
            let k = choose|k: int| 0 <= k < ids.len() && ids[k] == id;
            assert(shorter[k] == id);
        }
        if before.contains(id) {
            let k = choose|k: int| 0 <= k < before.len() && before[k] == id;
            assert(now[k] == id);
        }
        if keep(ids.last()) {
            assert(now[before.len() as int] == ids.last());
            if now.contains(id) && ids.last() != id {
                let k = choose|k: int| 0 <= k < now.len() && now[k] == id;
                assert(before[k] == id);
            }
        }
    }
}

/// The soundfonts for a file are those that were asked for and are there. Of these, one
/// whose coverage is unknown or that plays one of the roles, percussion or a bank and
/// program, is never left out, and where there is such a one the others are. Where none
/// that was asked for is there, one soundfont is taken: a default one, if there is any.
pub proof fn soundfonts_are_chosen_by_what_they_play(
    catalog: Seq<SoundFontCatalogEntry>,
    requested: Seq<Seq<char>>,
    roles: Seq<MidiStripDescriptor>,
    k: int,
)
    requires
        forall|a: int, b: int|
            0 <= a < b < catalog.len() ==> (#[trigger] catalog[a]).internal_id@ != (
            #[trigger] catalog[b]).internal_id@,
        0 <= k < catalog.len(),
    ensures
        ({
            let ids = resolved_ids(catalog, requested, roles)->Some_0;
            let own = catalog[k].internal_id@;
            let asked_and_there = exists|n: int|
                0 <= n < catalog.len() && requested.contains(
                    (#[trigger] catalog[n]).internal_id@,
                );
            let plays = catalog[k].coverage is None || exists|r: int|
                0 <= r < roles.len() && {
                    let role = #[trigger] roles[r];
                    if role.is_percussion {
                        catalog[k].coverage->Some_0.percussion
                    } else {
                        catalog[k].coverage->Some_0.bank_programs@.contains(
                            (BankProgramDemand { bank: role.bank, program: role.program }),
                        )
                    }
                };
            &&& resolved_ids(catalog, requested, roles) is Some
            &&& requested.contains(own) && plays ==> ids.contains(own)
            &&& requested.contains(own) && roles.len() == 0 ==> ids.contains(own)
            &&& asked_and_there && !requested.contains(own) ==> !ids.contains(own)
            &&& !asked_and_there ==> ids.len() == 1 && (ids.contains(own)
                && !catalog[k].is_default ==> forall|n: int|
                0 <= n < catalog.len() ==> !(#[trigger] catalog[n]).is_default)
            &&& asked_and_there && roles.len() > 0 && requested.contains(own) && plays
                ==> forall|n: int|
                0 <= n < catalog.len() && ids.contains((#[trigger] catalog[n]).internal_id@)
                    && catalog[n].coverage is Some ==> exists|r: int|
                    0 <= r < roles.len() && catalog[n].coverage->Some_0.supports(
                        #[trigger] roles[r],
                    )
        }),
{
    let known = |id: Seq<char>| in_catalog(catalog, id);
    let useful = |id: Seq<char>| is_useful(catalog, roles, id);
    let available = available_ids(catalog, requested);
    let own = catalog[k].internal_id@;
    let ids = resolved_ids(catalog, requested, roles)->Some_0;
    requests_are_served_from_the_catalog(catalog, requested, roles);
    crate::catalog::entries_are_found_by_their_id(catalog, k);
    lemma_filter_keeps(requested, known, own);
    lemma_filter_keeps(available, useful, own);
    assert(in_catalog(catalog, own));
    if exists|n: int|
        0 <= n < catalog.len() && requested.contains((#[trigger] catalog[n]).internal_id@) {
        let n = choose|n: int|
            0 <= n < catalog.len() && requested.contains((#[trigger] catalog[n]).internal_id@);
        lemma_filter_keeps(requested, known, catalog[n].internal_id@);
        assert(in_catalog(catalog, catalog[n].internal_id@));
        assert(available.contains(catalog[n].internal_id@));
        assert(available.len() > 0);
    } else {
        lemma_filter_members(requested, known);
        if available.len() > 0 {
            assert(known(available[0]));
            let n = choose|n: int|
                0 <= n < catalog.len() && (#[trigger] catalog[n]).internal_id@ == available[0];
            assert(requested.contains(catalog[n].internal_id@));
        }
        crate::catalog::fallback_is_the_first_default(catalog);
        let i = fallback_entry(catalog)->Some_0;
        assert(ids =~= seq![catalog[i].internal_id@]);
        if ids.contains(own) {
            assert(catalog[i].internal_id@ == own);
            assert(i == k);
        }
    }
    if requested.contains(own) && is_useful(catalog, roles, own) {
        assert(available.contains(own));
        assert(available.filter(useful).contains(own));
        assert(ids.contains(own));
        if roles.len() > 0 {
            assert(ids == available.filter(useful));
            assert forall|n: int|
                0 <= n < catalog.len() && ids.contains((#[trigger] catalog[n]).internal_id@)
                    && catalog[n].coverage is Some implies exists|r: int|
                0 <= r < roles.len() && catalog[n].coverage->Some_0.supports(
                    #[trigger] roles[r],
                ) by {
                lemma_filter_keeps(available, useful, catalog[n].internal_id@);
                crate::catalog::entries_are_found_by_their_id(catalog, n);
                assert(useful(catalog[n].internal_id@));
            }
        }
    }
    let plays = catalog[k].coverage is None || exists|r: int|
        0 <= r < roles.len() && {
            let role = #[trigger] roles[r];
            if role.is_percussion {
                catalog[k].coverage->Some_0.percussion
            } else {
                catalog[k].coverage->Some_0.bank_programs@.contains(
                    (BankProgramDemand { bank: role.bank, program: role.program }),
                )
            }
        };
    if plays && catalog[k].coverage is Some {
        let r = choose|r: int|
            0 <= r < roles.len() && {
                let role = #[trigger] roles[r];
                if role.is_percussion {
                    catalog[k].coverage->Some_0.percussion
                } else {
                    catalog[k].coverage->Some_0.bank_programs@.contains(
                        (BankProgramDemand { bank: role.bank, program: role.program }),
                    )
                }
            };
        assert(catalog[k].coverage->Some_0.supports(roles[r]));
    }
    assert(plays ==> is_useful(catalog, roles, own));
}

/// The soundfonts for a file keep the order in which they were asked for, and a request for
/// soundfonts that are all there and all play a role is served as it stands.
pub proof fn useful_requests_are_served_as_they_stand(
    catalog: Seq<SoundFontCatalogEntry>,
    requested: Seq<Seq<char>>,
    roles: Seq<MidiStripDescriptor>,
)
    requires
        requested.len() > 0,
        forall|i: int|
            0 <= i < requested.len() ==> in_catalog(catalog, #[trigger] requested[i]) && is_useful(
                catalog,
                roles,
                requested[i],
            ),
    ensures
        resolved_ids(catalog, requested, roles) == Some(requested),
{
    let known = |id: Seq<char>| in_catalog(catalog, id);
    let useful = |id: Seq<char>| is_useful(catalog, roles, id);
    lemma_filter_all(requested, known);
    lemma_filter_all(requested, useful);
}

proof fn lemma_filter_all(ids: Seq<Seq<char>>, keep: spec_fn(Seq<char>) -> bool)
    requires
        forall|i: int| 0 <= i < ids.len() ==> keep(#[trigger] ids[i]),
    ensures
        ids.filter(keep) == ids,
    decreases ids.len(),
{
    reveal(Seq::filter);
    if ids.len() > 0 {
        let shorter = ids.drop_last();
        assert forall|i: int| 0 <= i < shorter.len() implies keep(#[trigger] shorter[i]) by {
            assert(shorter[i] == ids[i]);
        }
        lemma_filter_all(shorter, keep);
        assert(keep(ids[ids.len() - 1]));
        assert(ids =~= shorter.push(ids.last()));
    } else {
        assert(ids.filter(keep) =~= ids);
    }
}

/// A profile names the program of each melodic role and the channel of each percussion role,
/// and nothing that no role asks for.
pub proof fn profiles_name_what_roles_ask_for(
    profile: MidiDemandProfile,
    roles: Seq<MidiStripDescriptor>,
    i: int,
    k: int,
)
    requires
        is_profile_of(profile, roles),
        0 <= i < roles.len(),
        0 <= k,
    ensures
        profile.channel_roles@ == roles,
        !roles[i].is_percussion ==> profile.melodic_programs@.contains(
            BankProgramDemand { bank: roles[i].bank, program: roles[i].program },
        ),
        roles[i].is_percussion ==> profile.percussion_channels@.contains(roles[i].channel),
        k < profile.melodic_programs@.len() ==> exists|r: int|
            0 <= r < roles.len() && !(#[trigger] roles[r]).is_percussion && roles[r].bank
                == profile.melodic_programs@[k].bank && roles[r].program
                == profile.melodic_programs@[k].program,
        k < profile.percussion_channels@.len() ==> exists|r: int|
            0 <= r < roles.len() && (#[trigger] roles[r]).is_percussion && roles[r].channel
                == profile.percussion_channels@[k],
        0 < k < profile.melodic_programs@.len() ==> {
            let before = profile.melodic_programs@[k - 1];
            let after = profile.melodic_programs@[k];
            before.bank < after.bank || (before.bank == after.bank && before.program
                < after.program)
        },
        0 < k < profile.percussion_channels@.len() ==> profile.percussion_channels@[k - 1]
            < profile.percussion_channels@[k],
{
    let d = BankProgramDemand { bank: roles[i].bank, program: roles[i].program };
    assert(profile.melodic_programs@.contains(d) == wants_program(roles, d));
    assert(profile.percussion_channels@.contains(roles[i].channel) == has_percussion_on(
        roles,
        roles[i].channel,
    ));
    if k < profile.melodic_programs@.len() {
        let p = profile.melodic_programs@[k];
        assert(profile.melodic_programs@.contains(p));
        assert(wants_program(roles, p));
    }
    if k < profile.percussion_channels@.len() {
        let c = profile.percussion_channels@[k];
        assert(profile.percussion_channels@.contains(c));
        assert(has_percussion_on(roles, c));
    }
    if 0 < k < profile.melodic_programs@.len() {
        let before = profile.melodic_programs@[k - 1];
        let after = profile.melodic_programs@[k];
        assert(program_key(before) < program_key(after));
    }
}

/// Where no soundfonts were asked for, those that are loaded count as asked for and served;
/// otherwise those that the catalog has count as asked for, and the loaded ones among them as
/// served.
pub proof fn requests_are_counted_against_the_catalog(
    catalog: Seq<SoundFontCatalogEntry>,
    requested: Seq<Seq<char>>,
    resolved: Seq<Seq<char>>,
)
    ensures
        requested.len() == 0 ==> requested_count(catalog, requested, resolved) == resolved.len()
            && served_count(requested, resolved) == resolved.len(),
        requested.len() > 0 && (forall|i: int|
            0 <= i < requested.len() ==> in_catalog(catalog, #[trigger] requested[i]))
            ==> requested_count(catalog, requested, resolved) == requested.len(),
        requested.len() > 0 && (forall|i: int|
            0 <= i < resolved.len() ==> requested.contains(#[trigger] resolved[i]))
            ==> served_count(requested, resolved) == resolved.len(),
        0 <= served_count(requested, resolved) <= resolved.len(),
        requested.len() > 0 ==> 0 <= requested_count(catalog, requested, resolved)
            <= requested.len(),
{
    lemma_filter_counts(requested, |id: Seq<char>| in_catalog(catalog, id));
    lemma_filter_counts(
        resolved,
        |id: Seq<char>| requested.len() == 0 || requested.contains(id),
    );
}

proof fn lemma_filter_counts(ids: Seq<Seq<char>>, keeps: spec_fn(Seq<char>) -> bool)
    ensures
        ids.filter(keeps).len() <= ids.len(),
        (forall|i: int| 0 <= i < ids.len() ==> keeps(#[trigger] ids[i])) ==> ids.filter(keeps).len()
            == ids.len(),
    decreases ids.len(),
{
    reveal(Seq::filter);
    if ids.len() > 0 {
        let shorter = ids.drop_last();
        lemma_filter_counts(shorter, keeps);
        if forall|i: int| 0 <= i < ids.len() ==> keeps(#[trigger] ids[i]) {
            assert(keeps(ids[ids.len() - 1]));
            assert forall|i: int| 0 <= i < shorter.len() implies keeps(#[trigger] shorter[i]) by {
                assert(keeps(ids[i]));
            }
        }
    }
}

} // verus!
