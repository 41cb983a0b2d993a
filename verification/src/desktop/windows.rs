//! Where the windows of the player stand, which the preferences keep.
use crate::level::{same_level, Level};
use vstd::prelude::*;

verus! {

/// A size or a position: two numbers.
#[derive(Debug, Copy, Clone, PartialEq, Eq, Structural)]
pub struct Extent {
    pub x: Level,
    pub y: Level,
}

/// Where a window stands and how large it is, as far as that is known.
#[derive(Debug, Copy, Clone, PartialEq, Eq, Structural)]
pub struct WindowGeometry {
    pub position: Option<Extent>,
    pub size: Option<Extent>,
}

/// Which windows are open, and where they stand.
#[derive(Debug, Copy, Clone, PartialEq, Eq, Structural)]
pub struct WindowViewPrefs {
    pub playlist_open: bool,
    pub metadata_open: bool,
    pub playlist: WindowGeometry,
    pub metadata: WindowGeometry,
}

/// Nothing is open, and nothing is known.
pub open spec fn no_windows() -> WindowViewPrefs {
    WindowViewPrefs {
        playlist_open: false,
        metadata_open: false,
        playlist: WindowGeometry { position: None, size: None },
        metadata: WindowGeometry { position: None, size: None },
    }
}

impl Default for WindowViewPrefs {
    fn default() -> (prefs: WindowViewPrefs)
        ensures
            prefs == no_windows(),
    {
        WindowViewPrefs {
            playlist_open: false,
            metadata_open: false,
            playlist: WindowGeometry { position: None, size: None },
            metadata: WindowGeometry { position: None, size: None },
        }
    }
}

/// Whether a known extent is equal, as numbers, to another.
pub open spec fn is_known(known: Option<Extent>, seen: Extent) -> bool {
    match known {
        Some(known) => same_level(known.x, seen.x) && same_level(known.y, seen.y),
        None => false,
    }
}

/// What is known of an extent once it was seen.
pub open spec fn known_after(known: Option<Extent>, seen: Option<Extent>) -> Option<Extent> {
    match seen {
        Some(seen) => if is_known(known, seen) {
            known
        } else {
            Some(seen)
        },
        None => known,
    }
}

/// Whether seeing an extent tells something new.
pub open spec fn is_news(known: Option<Extent>, seen: Option<Extent>) -> bool {
    match seen {
        Some(seen) => !is_known(known, seen),
        None => false,
    }
}

fn note_extent(known: &mut Option<Extent>, seen: Option<Extent>) -> (news: bool)
    ensures
        *final(known) == known_after(*old(known), seen),
        news == is_news(*old(known), seen),
{
    let seen = match seen {
        Some(seen) => seen,
        None => {
            return false;
        },
    };
    let same = match *known {
        Some(known) => known.x.same(seen.x) && known.y.same(seen.y),
        None => false,
    };
    if same {
        return false;
    }
    *known = Some(seen);
    true
}

impl WindowGeometry {
    /// Takes in where a window was seen, and returns whether the preferences have to be
    /// saved.
    pub fn update(&mut self, size: Option<Extent>, position: Option<Extent>) -> (changed: bool)
        ensures
            *final(self) == (WindowGeometry {
                position: known_after(old(self).position, position),
                size: known_after(old(self).size, size),
            }),
            changed == (is_news(old(self).size, size) || is_news(old(self).position, position)),
    {
        let resized = note_extent(&mut self.size, size);
        let moved = note_extent(&mut self.position, position);
        resized || moved
    }
}

/// A window that stays where it is does not change the preferences again.
pub proof fn resting_window_changes_nothing(known: Option<Extent>, seen: Extent)
    requires
        !crate::level::is_nan(seen.x.bits),
        !crate::level::is_nan(seen.y.bits),
    ensures
        !is_news(known_after(known, Some(seen)), Some(seen)),
{
}

/// A window that was moved or resized is known by what was seen last; while it is not seen,
/// what is known of it stands.
pub proof fn windows_are_known_as_last_seen(known: Option<Extent>, seen: Extent)
    ensures
        is_news(known, Some(seen)) ==> known_after(known, Some(seen)) == Some(seen),
        known is None ==> is_news(known, Some(seen)),
        known is Some && !same_level(known->Some_0.x, seen.x) ==> is_news(known, Some(seen)),
        known is Some && !same_level(known->Some_0.y, seen.y) ==> is_news(known, Some(seen)),
        known_after(known, None) == known,
        !is_news(known, None),
{
}

} // verus!
