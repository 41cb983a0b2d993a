//! What jemalloc tells of the memory of the process.
use crate::memory_runtime::MemoryTotalsSnapshot;
use vstd::prelude::*;
use vstd::string::*;

verus! {

/// Has jemalloc refresh its statistics, with `tikv_jemalloc_ctl::epoch`.
///
/// Trusted: nothing is claimed of whether it succeeds. An error comes as its text.
#[verifier::external_body]
fn advance_epoch() -> (advanced: Result<(), String>) {
    tikv_jemalloc_ctl::epoch::mib().and_then(|mib| mib.advance()).map(|_| ()).map_err(
        |error| error.to_string(),
    )
}

/// Reads `tikv_jemalloc_ctl::stats::allocated`.
///
/// Trusted: nothing is claimed of the number, which is that of the moment.
#[verifier::external_body]
fn read_allocated() -> (bytes: Result<usize, String>) {
    tikv_jemalloc_ctl::stats::allocated::mib().and_then(|mib| mib.read()).map_err(
        |error| error.to_string(),
    )
}

/// Reads `tikv_jemalloc_ctl::stats::active`.
///
/// Trusted: nothing is claimed of the number, which is that of the moment.
#[verifier::external_body]
fn read_active() -> (bytes: Result<usize, String>) {
    tikv_jemalloc_ctl::stats::active::mib().and_then(|mib| mib.read()).map_err(
        |error| error.to_string(),
    )
}

/// Reads `tikv_jemalloc_ctl::stats::resident`.
///
/// Trusted: nothing is claimed of the number, which is that of the moment.
#[verifier::external_body]
fn read_resident() -> (bytes: Result<usize, String>) {
    tikv_jemalloc_ctl::stats::resident::mib().and_then(|mib| mib.read()).map_err(
        |error| error.to_string(),
    )
}

/// Reads `tikv_jemalloc_ctl::stats::retained`.
///
/// Trusted: nothing is claimed of the number, which is that of the moment.
#[verifier::external_body]
fn read_retained() -> (bytes: Result<usize, String>) {
    tikv_jemalloc_ctl::stats::retained::mib().and_then(|mib| mib.read()).map_err(
        |error| error.to_string(),
    )
}

/// Reads `tikv_jemalloc_ctl::stats::mapped`.
///
/// Trusted: nothing is claimed of the number, which is that of the moment.
#[verifier::external_body]
fn read_mapped() -> (bytes: Result<usize, String>) {
    tikv_jemalloc_ctl::stats::mapped::mib().and_then(|mib| mib.read()).map_err(
        |error| error.to_string(),
    )
}

/// What jemalloc answered, question by question.
#[derive(Debug)]
pub struct AllocatorReadings {
    pub epoch: Result<(), String>,
    pub allocated: Result<usize, String>,
    pub active: Result<usize, String>,
    pub resident: Result<usize, String>,
    pub retained: Result<usize, String>,
    pub mapped: Result<usize, String>,
}

/// Totals of which nothing is known.
pub open spec fn unknown_totals() -> MemoryTotalsSnapshot {
    MemoryTotalsSnapshot {
        available: false,
        allocated_bytes: 0,
        active_bytes: 0,
        resident_bytes: 0,
        retained_bytes: 0,
        mapped_bytes: 0,
        active_growth_bytes: 0,
        resident_growth_bytes: 0,
        retained_growth_bytes: 0,
        allocated_since_bytes: 0,
        allocated_since_ns: 0,
    }
}

/// The text on a question that failed.
pub open spec fn failed_reading(what: Seq<char>, error: Seq<char>) -> Seq<char> {
    "jemalloc "@ + what + " failed: "@ + error
}

/// The text on the first question that failed.
pub open spec fn first_failure(readings: AllocatorReadings) -> Option<Seq<char>> {
    if readings.epoch is Err {
        Some(failed_reading("epoch advance"@, readings.epoch->Err_0@))
    } else if readings.allocated is Err {
        Some(failed_reading("stats.allocated read"@, readings.allocated->Err_0@))
    } else if readings.active is Err {
        Some(failed_reading("stats.active read"@, readings.active->Err_0@))
    } else if readings.resident is Err {
        Some(failed_reading("stats.resident read"@, readings.resident->Err_0@))
    } else if readings.retained is Err {
        Some(failed_reading("stats.retained read"@, readings.retained->Err_0@))
    } else if readings.mapped is Err {
        Some(failed_reading("stats.mapped read"@, readings.mapped->Err_0@))
    } else {
        None
    }
}

/// Whether totals are what the answers make: the numbers, or the first failure.
pub open spec fn totals_match(
    readings: AllocatorReadings,
    totals: Result<MemoryTotalsSnapshot, String>,
) -> bool {
    match totals {
        Ok(totals) => {
            &&& first_failure(readings) is None
            &&& totals == (MemoryTotalsSnapshot {
                available: true,
                allocated_bytes: readings.allocated->Ok_0,
                active_bytes: readings.active->Ok_0,
                resident_bytes: readings.resident->Ok_0,
                retained_bytes: readings.retained->Ok_0,
                mapped_bytes: readings.mapped->Ok_0,
                ..unknown_totals()
            })
        },
        Err(error) => first_failure(readings) == Some(error@),
    }
}

fn failure_text(what: &str, error: &str) -> (text: String)
    ensures
        text@ == failed_reading(what@, error@),
{
    let mut text = "jemalloc ".to_owned();
    text.append(what);
    text.append(" failed: ");
    text.append(error);
    text
}

/// The totals that answers make.
pub fn totals_of(readings: AllocatorReadings) -> (totals: Result<MemoryTotalsSnapshot, String>)
    ensures
        totals_match(readings, totals),
{
    match &readings.epoch {
        Ok(_) => {},
        Err(error) => {
            return Err(failure_text("epoch advance", error.as_str()));
        },
    }
    let allocated_bytes: usize = match &readings.allocated {
        Ok(bytes) => *bytes,
        Err(error) => {
            return Err(failure_text("stats.allocated read", error.as_str()));
        },
    };
    let active_bytes: usize = match &readings.active {
        Ok(bytes) => *bytes,
        Err(error) => {
            return Err(failure_text("stats.active read", error.as_str()));
        },
    };
    let resident_bytes: usize = match &readings.resident {
        Ok(bytes) => *bytes,
        Err(error) => {
            return Err(failure_text("stats.resident read", error.as_str()));
        },
    };
    let retained_bytes: usize = match &readings.retained {
        Ok(bytes) => *bytes,
        Err(error) => {
            return Err(failure_text("stats.retained read", error.as_str()));
        },
    };
    let mapped_bytes: usize = match &readings.mapped {
        Ok(bytes) => *bytes,
        Err(error) => {
            return Err(failure_text("stats.mapped read", error.as_str()));
        },
    };
    Ok(
        MemoryTotalsSnapshot {
            available: true,
            allocated_bytes,
            active_bytes,
            resident_bytes,
            retained_bytes,
            mapped_bytes,
            active_growth_bytes: 0,
            resident_growth_bytes: 0,
            retained_growth_bytes: 0,
            allocated_since_bytes: 0,
            allocated_since_ns: 0,
        },
    )
}

/// The totals of the process, if jemalloc serves it. What is read is of the moment; how
/// totals are made of it is settled.
pub fn read_totals(enabled: bool) -> (totals: Result<MemoryTotalsSnapshot, String>)
    ensures
        !enabled ==> totals == Ok::<MemoryTotalsSnapshot, String>(unknown_totals()),
        enabled ==> exists|readings: AllocatorReadings| #[trigger] totals_match(readings, totals),
{
    if !enabled {
        return Ok(
            MemoryTotalsSnapshot {
                available: false,
                allocated_bytes: 0,
                active_bytes: 0,
                resident_bytes: 0,
                retained_bytes: 0,
                mapped_bytes: 0,
                active_growth_bytes: 0,
                resident_growth_bytes: 0,
                retained_growth_bytes: 0,
                allocated_since_bytes: 0,
                allocated_since_ns: 0,
            },
        );
    }
    let epoch = advance_epoch();
    totals_of(
        AllocatorReadings {
            epoch,
            allocated: read_allocated(),
            active: read_active(),
            resident: read_resident(),
            retained: read_retained(),
            mapped: read_mapped(),
        },
    )
}

/// The totals are told where every reading succeeded, each as it was read; one that failed is
/// enough for none to be told.
pub proof fn totals_are_told_as_read(
    readings: AllocatorReadings,
    totals: Result<MemoryTotalsSnapshot, String>,
)
    requires
        totals_match(readings, totals),
    ensures
        totals is Ok <==> readings.epoch is Ok && readings.allocated is Ok && readings.active is Ok
            && readings.resident is Ok && readings.retained is Ok && readings.mapped is Ok,
        totals is Ok ==> {
            &&& totals->Ok_0.available
            &&& totals->Ok_0.allocated_bytes == readings.allocated->Ok_0
            &&& totals->Ok_0.active_bytes == readings.active->Ok_0
            &&& totals->Ok_0.resident_bytes == readings.resident->Ok_0
            &&& totals->Ok_0.retained_bytes == readings.retained->Ok_0
            &&& totals->Ok_0.mapped_bytes == readings.mapped->Ok_0
        },
        readings.epoch is Err ==> totals is Err && totals->Err_0@ == "jemalloc "@
            + "epoch advance"@ + " failed: "@ + readings.epoch->Err_0@,
{
}

} // verus!
