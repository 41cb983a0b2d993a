//! The soundfonts that the data folder offers.
use crate::playback::strips::MidiStripDescriptor;
use crate::text::text_eq;
use crate::text_map::TextMap;
use vstd::prelude::*;

verus! {

/// A bank and a program in it.
#[derive(Debug, Copy, Clone, PartialEq, Eq, Structural)]
pub struct BankProgramDemand {
    pub bank: u16,
    pub program: u8,
}

/// What a soundfont can play.
#[derive(Debug)]
pub struct SoundFontCoverage {
    pub percussion: bool,
    pub bank_programs: Vec<BankProgramDemand>,
}

/// A soundfont of the data folder.
#[derive(Debug)]
pub struct SoundFontCatalogEntry {
    pub internal_id: String,
    pub display_name: String,
    pub source_format: String,
    pub storage_format: String,
    pub runtime_format: String,
    pub is_default: bool,
    pub total_size: u64,
    pub part_count: u64,
    pub coverage: Option<SoundFontCoverage>,
}

impl SoundFontCoverage {
    /// Whether the soundfont plays a bank and program.
    pub open spec fn plays_melodic(&self, bank: u16, program: u8) -> bool {
        self.bank_programs@.contains(BankProgramDemand { bank, program })
    }

    /// Whether the soundfont plays a role of a MIDI file.
    pub open spec fn supports(&self, role: MidiStripDescriptor) -> bool {
        if role.is_percussion {
            self.percussion
        } else {
            self.plays_melodic(role.bank, role.program)
        }
    }

    pub fn provides_percussion(&self) -> (provides: bool)
        ensures
            provides == self.percussion,
    {
        self.percussion
    }

    pub fn provides_melodic(&self, bank: u16, program: u8) -> (provides: bool)
        ensures
            provides == self.plays_melodic(bank, program),
    {
        let wanted = BankProgramDemand { bank, program };
        let mut i: usize = 0;
        while i < self.bank_programs.len()
            invariant
                i <= self.bank_programs.len(),
                wanted == (BankProgramDemand { bank, program }),
                forall|k: int| 0 <= k < i ==> self.bank_programs@[k] != wanted,
            decreases self.bank_programs.len() - i,
        {
            if self.bank_programs[i] == wanted {
                assert(self.bank_programs@[i as int] == wanted);
                return true;
            }
            i = i + 1;
        }
        false
    }
}

/// Whether a soundfont plays a role of a MIDI file.
pub fn coverage_supports_midi_role(
    coverage: &SoundFontCoverage,
    role: &MidiStripDescriptor,
) -> (supports: bool)
    ensures
        supports == coverage.supports(*role),
{
    if role.is_percussion {
        coverage.provides_percussion()
    } else {
        coverage.provides_melodic(role.bank, role.program)
    }
}

/// Whether the catalog has a soundfont.
pub open spec fn in_catalog(catalog: Seq<SoundFontCatalogEntry>, id: Seq<char>) -> bool {
    exists|i: int| 0 <= i < catalog.len() && (#[trigger] catalog[i]).internal_id@ == id
}

/// The last of the first `n` catalog entries with an id.
pub open spec fn last_entry(catalog: Seq<SoundFontCatalogEntry>, id: Seq<char>, n: int) -> Option<
    int,
>
    decreases n,
{
    if n <= 0 {
        None
    } else if catalog[n - 1].internal_id@ == id {
        Some(n - 1)
    } else {
        last_entry(catalog, id, n - 1)
    }
}

/// The first of the first `n` catalog entries with an id.
pub open spec fn first_entry(
    catalog: Seq<SoundFontCatalogEntry>,
    id: Seq<char>,
    n: int,
) -> Option<int>
    decreases n,
{
    if n <= 0 {
        None
    } else {
        match first_entry(catalog, id, n - 1) {
            Some(i) => Some(i),
            None => if catalog[n - 1].internal_id@ == id {
                Some(n - 1)
            } else {
                None
            },
        }
    }
}

/// The first of the first `n` catalog entries that is marked as default.
pub open spec fn first_default(catalog: Seq<SoundFontCatalogEntry>, n: int) -> Option<int>
    decreases n,
{
    if n <= 0 {
        None
    } else {
        match first_default(catalog, n - 1) {
            Some(i) => Some(i),
            None => if catalog[n - 1].is_default {
                Some(n - 1)
            } else {
                None
            },
        }
    }
}

/// The soundfont that is used where none is asked for: the first default one,
/// or else the first.
pub open spec fn fallback_entry(catalog: Seq<SoundFontCatalogEntry>) -> Option<int> {
    match first_default(catalog, catalog.len() as int) {
        Some(i) => Some(i),
        None => if catalog.len() > 0 {
            Some(0)
        } else {
            None
        },
    }
}

pub proof fn lemma_last_entry(catalog: Seq<SoundFontCatalogEntry>, id: Seq<char>, n: int)
    requires
        0 <= n <= catalog.len(),
    ensures
        match last_entry(catalog, id, n) {
            Some(i) => 0 <= i < n && catalog[i].internal_id@ == id,
            None => forall|i: int| 0 <= i < n ==> (#[trigger] catalog[i]).internal_id@ != id,
        },
    decreases n,
{
    if n > 0 && catalog[n - 1].internal_id@ != id {
        lemma_last_entry(catalog, id, n - 1);
    }
}

pub proof fn lemma_first_entry(catalog: Seq<SoundFontCatalogEntry>, id: Seq<char>, n: int)
    requires
        0 <= n <= catalog.len(),
    ensures
        match first_entry(catalog, id, n) {
            Some(i) => 0 <= i < n && catalog[i].internal_id@ == id,
            None => forall|i: int| 0 <= i < n ==> (#[trigger] catalog[i]).internal_id@ != id,
        },
    decreases n,
{
    if n > 0 {
        lemma_first_entry(catalog, id, n - 1);
    }
}

pub proof fn lemma_first_default(catalog: Seq<SoundFontCatalogEntry>, n: int)
    requires
        0 <= n <= catalog.len(),
    ensures
        match first_default(catalog, n) {
            Some(i) => 0 <= i < n && catalog[i].is_default,
            None => forall|i: int| 0 <= i < n ==> !(#[trigger] catalog[i]).is_default,
        },
    decreases n,
{
    if n > 0 {
        lemma_first_default(catalog, n - 1);
    }
}

/// The index of an option of a position.
pub open spec fn as_index(position: Option<usize>) -> Option<int> {
    match position {
        Some(i) => Some(i as int),
        None => None,
    }
}

/// The position of the last catalog entry with an id.
pub fn find_last_entry(catalog: &[SoundFontCatalogEntry], id: &str) -> (position: Option<usize>)
    ensures
        as_index(position) == last_entry(catalog@, id@, catalog@.len() as int),
        position is Some == in_catalog(catalog@, id@),
        position is Some ==> position->Some_0 < catalog@.len()
            && catalog@[position->Some_0 as int].internal_id@ == id@,
{
    proof {
        lemma_last_entry(catalog@, id@, catalog@.len() as int);
    }
    let mut n: usize = catalog.len();
    while n > 0
        invariant
            n <= catalog@.len(),
            last_entry(catalog@, id@, catalog@.len() as int) == last_entry(
                catalog@,
                id@,
                n as int,
            ),
        decreases n,
    {
        if text_eq(catalog[n - 1].internal_id.as_str(), id) {
            return Some(n - 1);
        }
        n = n - 1;
    }
    None
}

/// The position of the first catalog entry with an id.
pub fn find_entry(catalog: &[SoundFontCatalogEntry], id: &str) -> (position: Option<usize>)
    ensures
        as_index(position) == first_entry(catalog@, id@, catalog@.len() as int),
        position is Some ==> position->Some_0 < catalog@.len(),
{
    proof {
        lemma_first_entry(catalog@, id@, catalog@.len() as int);
    }
    let mut i: usize = 0;
    let mut found: Option<usize> = None;
    while i < catalog.len()
        invariant
            i <= catalog.len(),
            as_index(found) == first_entry(catalog@, id@, i as int),
        decreases catalog.len() - i,
    {
        if found.is_none() && text_eq(catalog[i].internal_id.as_str(), id) {
            found = Some(i);
        }
        i = i + 1;
    }
    found
}

/// The position of the soundfont that is used where none is asked for.
pub fn find_fallback(catalog: &[SoundFontCatalogEntry]) -> (position: Option<usize>)
    ensures
        as_index(position) == fallback_entry(catalog@),
        position is Some ==> position->Some_0 < catalog@.len(),
{
    proof {
        lemma_first_default(catalog@, catalog@.len() as int);
    }
    let mut i: usize = 0;
    let mut found: Option<usize> = None;
    while i < catalog.len()
        invariant
            i <= catalog.len(),
            as_index(found) == first_default(catalog@, i as int),
        decreases catalog.len() - i,
    {
        if found.is_none() && catalog[i].is_default {
            found = Some(i);
        }
        i = i + 1;
    }
    if found.is_none() && catalog.len() > 0 {
        return Some(0);
    }
    found
}

/// The ids of the catalog, in order.
pub open spec fn catalog_ids(catalog: Seq<SoundFontCatalogEntry>) -> Seq<Seq<char>> {
    catalog.map_values(|entry: SoundFontCatalogEntry| entry.internal_id@)
}

/// Whether two coverages are the same.
pub open spec fn same_coverage(a: SoundFontCoverage, b: SoundFontCoverage) -> bool {
    a.percussion == b.percussion && a.bank_programs@ == b.bank_programs@
}

impl SoundFontCoverage {
    pub fn duplicate(&self) -> (copy: SoundFontCoverage)
        ensures
            same_coverage(copy, *self),
    {
        let bank_programs = self.bank_programs.clone();
        assert(bank_programs@ =~= self.bank_programs@);
        SoundFontCoverage { percussion: self.percussion, bank_programs }
    }
}

/// The last of the first `n` catalog entries with an id that says what it covers.
pub open spec fn last_covered(catalog: Seq<SoundFontCatalogEntry>, id: Seq<char>, n: int) -> Option<
    int,
>
    decreases n,
{
    if n <= 0 {
        None
    } else if catalog[n - 1].internal_id@ == id && catalog[n - 1].coverage is Some {
        Some(n - 1)
    } else {
        last_covered(catalog, id, n - 1)
    }
}

/// What a soundfont covers: as it was loaded, else as the catalog says.
pub open spec fn known_coverage(
    catalog: Seq<SoundFontCatalogEntry>,
    loaded: Map<Seq<char>, SoundFontCoverage>,
    id: Seq<char>,
) -> Option<SoundFontCoverage> {
    if loaded.contains_key(id) {
        Some(loaded[id])
    } else {
        match last_covered(catalog, id, catalog.len() as int) {
            Some(i) => catalog[i].coverage,
            None => None,
        }
    }
}

/// Whether a map holds what is known of every soundfont.
pub open spec fn holds_coverage(
    cache: Map<Seq<char>, SoundFontCoverage>,
    catalog: Seq<SoundFontCatalogEntry>,
    loaded: Map<Seq<char>, SoundFontCoverage>,
) -> bool {
    forall|id: Seq<char>| #[trigger]
        cache.contains_key(id) == (known_coverage(catalog, loaded, id) is Some) && (
        cache.contains_key(id) ==> same_coverage(
            cache[id],
            known_coverage(catalog, loaded, id)->Some_0,
        ))
}

/// Gathers what is known of every soundfont.
pub fn coverage_cache(
    catalog: &[SoundFontCatalogEntry],
    loaded: &TextMap<SoundFontCoverage>,
) -> (cache: TextMap<SoundFontCoverage>)
    requires
        loaded.wf(),
    ensures
        cache.wf(),
        holds_coverage(cache@, catalog@, loaded@),
{
    let ghost none = Map::<Seq<char>, SoundFontCoverage>::empty();
    let mut cache: TextMap<SoundFontCoverage> = TextMap::new();
    let mut i: usize = 0;
    assert(catalog@.take(0) =~= Seq::<SoundFontCatalogEntry>::empty());
    while i < catalog.len()
        invariant
            i <= catalog@.len(),
            cache.wf(),
            none == Map::<Seq<char>, SoundFontCoverage>::empty(),
            holds_coverage(cache@, catalog@.take(i as int), none),
        decreases catalog@.len() - i,
    {
        let ghost before = cache@;
        let ghost shorter = catalog@.take(i as int);
        let ghost longer = catalog@.take(i + 1);
        proof {
            assert forall|id: Seq<char>| last_covered(longer, id, i as int) == #[trigger] last_covered(
                shorter,
                id,
                i as int,
            ) by {
                lemma_last_covered_prefix(longer, shorter, id, i as int);
            }
        }
        match &catalog[i].coverage {
            Some(coverage) => {
                let copy = coverage.duplicate();
                cache.insert(catalog[i].internal_id.clone(), copy);
            },
            None => {},
        }
        proof {
            assert forall|id: Seq<char>| #[trigger]
                cache@.contains_key(id) == (known_coverage(longer, none, id) is Some) && (
                cache@.contains_key(id) ==> same_coverage(
                    cache@[id],
                    known_coverage(longer, none, id)->Some_0,
                )) by {
                assert(before.contains_key(id) == (known_coverage(shorter, none, id) is Some));
                assert(last_covered(longer, id, i as int) == last_covered(shorter, id, i as int));
                lemma_last_covered(shorter, id, i as int);
            }
        }
        i = i + 1;
    }
    assert(catalog@.take(i as int) =~= catalog@);
    let ghost catalogued = cache@;
    let mut n: usize = 0;
    while n < loaded.entries.len()
        invariant
            n <= loaded.entries@.len(),
            cache.wf(),
            forall|id: Seq<char>| #[trigger]
                cache@.contains_key(id) == (catalogued.contains_key(id) || is_loaded_before(
                    loaded.entries@,
                    id,
                    n as int,
                )),
            forall|id: Seq<char>|
                catalogued.contains_key(id) && !is_loaded_before(loaded.entries@, id, n as int)
                    ==> #[trigger] cache@[id] == catalogued[id],
            forall|k: int|
                0 <= k < n ==> same_coverage(
                    cache@[(#[trigger] loaded.entries@[k]).0@],
                    loaded.entries@[k].1,
                ),
            loaded.wf(),
        decreases loaded.entries@.len() - n,
    {
        let ghost before = cache@;
        let copy = loaded.entries[n].1.duplicate();
        cache.insert(loaded.entries[n].0.clone(), copy);
        proof {
            let entries = loaded.entries@;
            crate::text_map::lemma_ascending_is_distinct(entries);
            assert forall|id: Seq<char>| #[trigger]
                is_loaded_before(entries, id, n + 1) == (is_loaded_before(entries, id, n as int)
                    || id == entries[n as int].0@) by {
                if is_loaded_before(entries, id, n + 1) {
                    let k = choose|k: int| 0 <= k < n + 1 && (#[trigger] entries[k]).0@ == id;
                    if k < n {
                        assert(is_loaded_before(entries, id, n as int));
                    }
                }
            }
            assert forall|k: int| 0 <= k < n + 1 implies same_coverage(
                cache@[(#[trigger] entries[k]).0@],
                entries[k].1,
            ) by {
                if k < n {
                    assert(entries[k].0@ != entries[n as int].0@);
                    assert(cache@[entries[k].0@] == before[entries[k].0@]);
                }
            }
        }
        n = n + 1;
    }
    proof {
        let entries = loaded.entries@;
        crate::text_map::lemma_ascending_is_distinct(entries);
        crate::text_map::lemma_map_of(entries);
        assert forall|id: Seq<char>| #[trigger]
            cache@.contains_key(id) == (known_coverage(catalog@, loaded@, id) is Some) && (
            cache@.contains_key(id) ==> same_coverage(
                cache@[id],
                known_coverage(catalog@, loaded@, id)->Some_0,
            )) by {
            if is_loaded_before(entries, id, n as int) {
                let k = choose|k: int| 0 <= k < n && (#[trigger] entries[k]).0@ == id;
                assert(loaded@.contains_key(entries[k].0@));
                assert(loaded@[entries[k].0@] == entries[k].1);
            }
            if loaded@.contains_key(id) {
                let k = choose|k: int| 0 <= k < entries.len() && (#[trigger] entries[k]).0@ == id;
                assert(is_loaded_before(entries, id, n as int));
            }
            assert(catalogued.contains_key(id) == (known_coverage(catalog@, none, id) is Some));
        }
    }
    cache
}

spec fn is_loaded_before(entries: Seq<(String, SoundFontCoverage)>, id: Seq<char>, n: int) -> bool {
    exists|k: int| 0 <= k < n && (#[trigger] entries[k]).0@ == id
}

proof fn lemma_last_covered_prefix(
    a: Seq<SoundFontCatalogEntry>,
    b: Seq<SoundFontCatalogEntry>,
    id: Seq<char>,
    n: int,
)
    requires
        n <= a.len(),
        n <= b.len(),
        forall|k: int| 0 <= k < n ==> a[k] == b[k],
    ensures
        last_covered(a, id, n) == last_covered(b, id, n),
    decreases n,
{
    if n > 0 {
        lemma_last_covered_prefix(a, b, id, n - 1);
    }
}

proof fn lemma_last_covered(catalog: Seq<SoundFontCatalogEntry>, id: Seq<char>, n: int)
    requires
        n <= catalog.len(),
    ensures
        match last_covered(catalog, id, n) {
            Some(i) => 0 <= i < n && catalog[i].coverage is Some,
            None => true,
        },
    decreases n,
{
    if n > 0 {
        lemma_last_covered(catalog, id, n - 1);
    }
}

/// Where no soundfont is asked for, a default one is taken before any other, and the
/// earliest of those that qualify; an empty catalog has none.
pub proof fn fallback_is_the_first_default(catalog: Seq<SoundFontCatalogEntry>)
    ensures
        match fallback_entry(catalog) {
            Some(i) => {
                &&& 0 <= i < catalog.len()
                &&& (exists|k: int| 0 <= k < catalog.len() && (#[trigger] catalog[k]).is_default)
                    ==> catalog[i].is_default
                &&& catalog[i].is_default ==> forall|k: int|
                    0 <= k < i ==> !(#[trigger] catalog[k]).is_default
                &&& !catalog[i].is_default ==> i == 0
            },
            None => catalog.len() == 0,
        },
{
    lemma_first_default(catalog, catalog.len() as int);
    lemma_first_default_is_first(catalog, catalog.len() as int);
}

proof fn lemma_first_default_is_first(catalog: Seq<SoundFontCatalogEntry>, n: int)
    requires
        0 <= n <= catalog.len(),
    ensures
        match first_default(catalog, n) {
            Some(i) => 0 <= i < n && forall|k: int|
                0 <= k < i ==> !(#[trigger] catalog[k]).is_default,
            None => forall|k: int| 0 <= k < n ==> !(#[trigger] catalog[k]).is_default,
        },
    decreases n,
{
    if n > 0 {
        lemma_first_default_is_first(catalog, n - 1);
    }
}

/// In a catalog that has each soundfont once, a soundfont is found where it stands.
pub proof fn entries_are_found_by_their_id(catalog: Seq<SoundFontCatalogEntry>, k: int)
    requires
        forall|a: int, b: int|
            0 <= a < b < catalog.len() ==> (#[trigger] catalog[a]).internal_id@ != (
            #[trigger] catalog[b]).internal_id@,
        0 <= k < catalog.len(),
    ensures
        first_entry(catalog, catalog[k].internal_id@, catalog.len() as int) == Some(k),
        last_entry(catalog, catalog[k].internal_id@, catalog.len() as int) == Some(k),
{
    lemma_first_entry(catalog, catalog[k].internal_id@, catalog.len() as int);
    lemma_last_entry(catalog, catalog[k].internal_id@, catalog.len() as int);
}

/// A soundfont plays a percussion role if it has percussion, whatever its programs, and a
/// melodic role if it has that bank and program, whatever its percussion.
pub proof fn coverage_decides_what_is_played(
    coverage: SoundFontCoverage,
    role: MidiStripDescriptor,
)
    ensures
        role.is_percussion ==> coverage.supports(role) == coverage.percussion,
        !role.is_percussion ==> coverage.supports(role) == coverage.bank_programs@.contains(
            (BankProgramDemand { bank: role.bank, program: role.program }),
        ),
{
}

/// What a loaded soundfont covers comes before what the catalog says of it; the catalog is
/// asked for the last of its entries with the id that says anything.
pub proof fn loaded_coverage_comes_first(
    catalog: Seq<SoundFontCatalogEntry>,
    loaded: Map<Seq<char>, SoundFontCoverage>,
    id: Seq<char>,
    i: int,
)
    requires
        0 <= i < catalog.len(),
    ensures
        loaded.contains_key(id) ==> known_coverage(catalog, loaded, id) == Some(loaded[id]),
        !loaded.contains_key(id) && catalog[i].internal_id@ == id && catalog[i].coverage is Some
            && (forall|k: int|
            i < k < catalog.len() ==> (#[trigger] catalog[k]).internal_id@ != id
                || catalog[k].coverage is None) ==> known_coverage(catalog, loaded, id)
            == catalog[i].coverage,
        !loaded.contains_key(id) && (forall|k: int|
            0 <= k < catalog.len() ==> (#[trigger] catalog[k]).internal_id@ != id
                || catalog[k].coverage is None) ==> known_coverage(catalog, loaded, id) is None,
{
    lemma_covered_last(catalog, id, catalog.len() as int);
    match last_covered(catalog, id, catalog.len() as int) {
        Some(k) => {
            assert(catalog[k].internal_id@ == id);
        },
        None => {
            assert(catalog[i].internal_id@ != id || catalog[i].coverage is None);
        },
    }
}

proof fn lemma_covered_last(catalog: Seq<SoundFontCatalogEntry>, id: Seq<char>, n: int)
    requires
        0 <= n <= catalog.len(),
    ensures
        match last_covered(catalog, id, n) {
            Some(i) => {
                &&& 0 <= i < n
                &&& catalog[i].internal_id@ == id
                &&& catalog[i].coverage is Some
                &&& forall|k: int|
                    i < k < n ==> (#[trigger] catalog[k]).internal_id@ != id
                        || catalog[k].coverage is None
            },
            None => forall|k: int|
                0 <= k < n ==> (#[trigger] catalog[k]).internal_id@ != id
                    || catalog[k].coverage is None,
        },
    decreases n,
{
    if n > 0 {
        lemma_covered_last(catalog, id, n - 1);
    }
}

/// The cache knows of a soundfont what is known of it, and of no other.
pub proof fn caches_hold_what_is_known(
    cache: Map<Seq<char>, SoundFontCoverage>,
    catalog: Seq<SoundFontCatalogEntry>,
    loaded: Map<Seq<char>, SoundFontCoverage>,
    id: Seq<char>,
)
    requires
        holds_coverage(cache, catalog, loaded),
    ensures
        loaded.contains_key(id) ==> cache.contains_key(id) && cache[id].percussion
            == loaded[id].percussion && cache[id].bank_programs@ == loaded[id].bank_programs@,
        cache.contains_key(id) && !loaded.contains_key(id) ==> exists|i: int|
            0 <= i < catalog.len() && (#[trigger] catalog[i]).internal_id@ == id
                && catalog[i].coverage is Some && catalog[i].coverage->Some_0.percussion
                == cache[id].percussion && catalog[i].coverage->Some_0.bank_programs@
                == cache[id].bank_programs@,
{
    assert(cache.contains_key(id) == (known_coverage(catalog, loaded, id) is Some));
    lemma_covered_last(catalog, id, catalog.len() as int);
}

} // verus!
