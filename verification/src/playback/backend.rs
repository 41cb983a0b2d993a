//! The audio backends.
use crate::error::{ErrorKind, FlutzError};
use crate::text::{ascii_lowered, text_eq, to_ascii_lower, trim, trimmed};
use vstd::prelude::*;

verus! {

#[derive(Debug, Copy, Clone, PartialEq, Eq, Structural)]
pub enum AudioBackend {
    Sdl3,
    Wasapi,
}

impl Default for AudioBackend {
    fn default() -> (backend: Self)
        ensures
            backend == AudioBackend::Sdl3,
    {
        AudioBackend::Sdl3
    }
}

impl AudioBackend {
    pub open spec fn text(self) -> Seq<char> {
        match self {
            AudioBackend::Sdl3 => "sdl3"@,
            AudioBackend::Wasapi => "wasapi"@,
        }
    }

    pub fn name(self) -> (name: &'static str)
        ensures
            name@ == self.text(),
    {
        match self {
            AudioBackend::Sdl3 => "sdl3",
            AudioBackend::Wasapi => "wasapi",
        }
    }

    /// The backend with a name; white space around it and letter case do not
    /// count.
    pub open spec fn named(value: Seq<char>) -> Option<AudioBackend> {
        let name = ascii_lowered(trimmed(value));
        if name == AudioBackend::Sdl3.text() {
            Some(AudioBackend::Sdl3)
        } else if name == AudioBackend::Wasapi.text() {
            Some(AudioBackend::Wasapi)
        } else {
            None
        }
    }

    pub fn parse(value: &str) -> (backend: Result<AudioBackend, FlutzError>)
        ensures
            match backend {
                Ok(backend) => AudioBackend::named(value@) == Some(backend),
                Err(error) => AudioBackend::named(value@) is None && error@ == (
                    ErrorKind::InvalidInput,
                    "--audio-backend requires sdl3 or wasapi"@,
                ),
            },
    {
        let name = to_ascii_lower(trim(value));
        if text_eq(name.as_str(), "sdl3") {
            Ok(AudioBackend::Sdl3)
        } else if text_eq(name.as_str(), "wasapi") {
            Ok(AudioBackend::Wasapi)
        } else {
            Err(FlutzError::InvalidInput("--audio-backend requires sdl3 or wasapi".to_owned()))
        }
    }
}

/// The name of a backend is parsed back to it.
pub proof fn backend_names_parse_back(backend: AudioBackend)
    ensures
        AudioBackend::named(backend.text()) == Some(backend),
{
    reveal_strlit("sdl3");
    reveal_strlit("wasapi");
    let name = backend.text();
    assert(!crate::text::is_white_space(name[0]) && !crate::text::is_white_space(name.last()));
    assert(trimmed(name) == name);
    assert(ascii_lowered(name) =~= name);
    assert("sdl3"@.len() != "wasapi"@.len());
}

/// White space around a backend's name and the case of its letters do not count, and no
/// third name is known.
pub proof fn backend_names_are_read_loosely(value: Seq<char>)
    ensures
        ascii_lowered(trimmed(value)) == "sdl3"@ ==> AudioBackend::named(value) == Some(
            AudioBackend::Sdl3,
        ),
        ascii_lowered(trimmed(value)) == "wasapi"@ ==> AudioBackend::named(value) == Some(
            AudioBackend::Wasapi,
        ),
        AudioBackend::named(value) is Some ==> ascii_lowered(trimmed(value)) == "sdl3"@
            || ascii_lowered(trimmed(value)) == "wasapi"@,
{
    reveal_strlit("sdl3");
    reveal_strlit("wasapi");
    assert("sdl3"@.len() != "wasapi"@.len());
}

} // verus!
