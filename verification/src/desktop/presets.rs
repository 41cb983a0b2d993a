//! Presets: sets of soundfonts that are loaded together, and which one a project
//! asks for.
use crate::text::{clone_texts, text_eq, texts};
use vstd::prelude::*;
use vstd::string::*;

verus! {

/// A set of soundfonts with a name.
#[derive(Debug)]
pub struct Preset {
    pub id: String,
    pub display_name: String,
    pub font_ids: Vec<String>,
}

/// The presets there are, and the one that is used where none is asked for.
#[derive(Debug)]
pub struct PresetSet {
    pub presets: Vec<Preset>,
    pub default_index: usize,
}

/// The first preset from `from` on with an id.
pub open spec fn preset_from(presets: Seq<Preset>, id: Seq<char>, from: int) -> Option<int>
    decreases presets.len() - from,
{
    if from >= presets.len() || from < 0 {
        None
    } else if presets[from].id@ == id {
        Some(from)
    } else {
        preset_from(presets, id, from + 1)
    }
}

impl PresetSet {
    /// There is a default preset.
    pub open spec fn wf(&self) -> bool {
        self.default_index < self.presets@.len()
    }

    /// The preset with an id.
    pub open spec fn found(&self, id: Seq<char>) -> Option<int> {
        preset_from(self.presets@, id, 0)
    }

    /// The preset with an id, or the default one.
    pub open spec fn chosen(&self, id: Seq<char>) -> int {
        match self.found(id) {
            Some(i) => i,
            None => self.default_index as int,
        }
    }

    /// The preset with an id.
    pub fn find_preset(&self, id: &str) -> (position: Option<usize>)
        ensures
            (match position {
                Some(i) => Some(i as int),
                None => None,
            }) == self.found(id@),
            position is Some ==> position->Some_0 < self.presets@.len()
                && self.presets@[position->Some_0 as int].id@ == id@,
    {
        let mut i: usize = 0;
        while i < self.presets.len()
            invariant
                i <= self.presets@.len(),
                self.found(id@) == preset_from(self.presets@, id@, i as int),
            decreases self.presets@.len() - i,
        {
            if text_eq(self.presets[i].id.as_str(), id) {
                return Some(i);
            }
            i = i + 1;
        }
        None
    }

    /// The preset with an id, or the default one.
    pub fn preset_or_default(&self, id: &str) -> (position: usize)
        requires
            self.wf(),
        ensures
            position == self.chosen(id@),
            position < self.presets@.len(),
    {
        match self.find_preset(id) {
            Some(i) => i,
            None => self.default_index,
        }
    }

    /// The name of a preset, or of none.
    pub open spec fn label(&self, id: Seq<char>) -> Seq<char> {
        match self.found(id) {
            Some(i) => self.presets@[i].display_name@,
            None => "Custom Mode"@,
        }
    }

    pub fn active_preset_label(&self, active_preset_id: &str) -> (label: String)
        ensures
            label@ == self.label(active_preset_id@),
    {
        match self.find_preset(active_preset_id) {
            Some(i) => self.presets[i].display_name.clone(),
            None => "Custom Mode".to_owned(),
        }
    }
}

/// Where the mixer of a project comes from.
#[derive(Debug)]
pub enum MixerSourceMode {
    /// The project has settings of its own.
    Custom,
    /// A preset with the given id.
    PresetDefault(String),
}

/// The contents of a source.
pub open spec fn preset_asked_for(mode: MixerSourceMode) -> Option<Seq<char>> {
    match mode {
        MixerSourceMode::Custom => None,
        MixerSourceMode::PresetDefault(id) => Some(id@),
    }
}

/// The source of a mixer with the given active preset.
pub fn mixer_source_mode(presets: &PresetSet, active_preset_id: &str) -> (mode: MixerSourceMode)
    ensures
        preset_asked_for(mode) == match presets.found(active_preset_id@) {
            Some(i) => Some(presets.presets@[i].id@),
            None => None,
        },
{
    match presets.find_preset(active_preset_id) {
        Some(i) => MixerSourceMode::PresetDefault(presets.presets[i].id.clone()),
        None => MixerSourceMode::Custom,
    }
}

/// What the user is told where a project asks for a preset that is not there.
pub open spec fn missing_preset_text(presets: PresetSet, id: Seq<char>) -> Option<Seq<char>> {
    let chosen = presets.presets@[presets.chosen(id)];
    if chosen.id@ == id {
        None
    } else {
        Some(
            "Preset "@ + id + " was unavailable; loaded default preset "@ + chosen.display_name@,
        )
    }
}

/// The soundfonts that an FMID file asks for: its own, or those of its preset.
pub open spec fn fonts_asked_for(
    presets: PresetSet,
    mode: MixerSourceMode,
    slots: Seq<Seq<char>>,
) -> Seq<Seq<char>> {
    match mode {
        MixerSourceMode::Custom => slots,
        MixerSourceMode::PresetDefault(id) => texts(
            presets.presets@[presets.chosen(id@)].font_ids@,
        ),
    }
}

/// The soundfonts that an FMID file asks for, and what the user is told if its preset
/// is not there.
pub fn fmid_requested_soundfonts(
    presets: &PresetSet,
    mode: &MixerSourceMode,
    slots: &[String],
) -> (request: (Vec<String>, Option<String>))
    requires
        presets.wf(),
    ensures
        texts(request.0@) == fonts_asked_for(*presets, *mode, texts(slots@)),
        crate::json::optional_text(request.1) == match mode {
            MixerSourceMode::Custom => None,
            MixerSourceMode::PresetDefault(id) => missing_preset_text(*presets, id@),
        },
{
    match mode {
        MixerSourceMode::Custom => (clone_texts(slots), None),
        MixerSourceMode::PresetDefault(id) => {
            let position: usize = presets.preset_or_default(id.as_str());
            let preset = &presets.presets[position];
            let message = if text_eq(preset.id.as_str(), id.as_str()) {
                None
            } else {
                let mut text = "Preset ".to_owned();
                text.append(id.as_str());
                text.append(" was unavailable; loaded default preset ");
                text.append(preset.display_name.as_str());
                Some(text)
            };
            (clone_texts(preset.font_ids.as_slice()), message)
        },
    }
}

/// A project never asks in vain: where its preset is there it is loaded and nothing
/// is told, else the default preset is.
pub proof fn missing_presets_are_told(presets: PresetSet, id: Seq<char>)
    requires
        presets.wf(),
    ensures
        presets.found(id) is Some ==> missing_preset_text(presets, id) is None,
        presets.found(id) is None ==> presets.chosen(id) == presets.default_index
            && missing_preset_text(presets, id) is Some,
{
    lemma_preset_from(presets.presets@, id, 0);
}

proof fn lemma_preset_from(presets: Seq<Preset>, id: Seq<char>, from: int)
    requires
        0 <= from <= presets.len(),
    ensures
        match preset_from(presets, id, from) {
            Some(i) => from <= i < presets.len() && presets[i].id@ == id && forall|k: int|
                from <= k < i ==> (#[trigger] presets[k]).id@ != id,
            None => forall|k: int| from <= k < presets.len() ==> (#[trigger] presets[k]).id@ != id,
        },
    decreases presets.len() - from,
{
    if from < presets.len() && presets[from].id@ != id {
        lemma_preset_from(presets, id, from + 1);
    }
}

/// What happens when the user applies the selected preset.
#[derive(Debug, Copy, Clone, PartialEq, Eq, Structural)]
pub enum PresetStep {
    /// It is active.
    AlreadyActive,
    /// It is not there: another one is selected.
    SelectFallback { index: usize },
    /// It is applied.
    Apply { index: usize },
}

/// What happens when the user applies the selected preset.
pub fn apply_selected_preset(presets: &PresetSet, selected: &str, active: &str) -> (step: PresetStep)
    requires
        presets.wf(),
    ensures
        step == if selected@ == active@ {
            PresetStep::AlreadyActive
        } else {
            match presets.found(selected@) {
                Some(i) => PresetStep::Apply { index: i as usize },
                None => PresetStep::SelectFallback { index: presets.default_index },
            }
        },
{
    if text_eq(selected, active) {
        return PresetStep::AlreadyActive;
    }
    match presets.find_preset(selected) {
        Some(index) => PresetStep::Apply { index },
        None => PresetStep::SelectFallback { index: presets.default_index },
    }
}

/// The lines of the preferences file that name the presets.
pub open spec fn preset_lines(presets: Seq<Preset>) -> Seq<char>
    decreases presets.len(),
{
    if presets.len() == 0 {
        Seq::empty()
    } else {
        preset_lines(presets.drop_last()) + ("# - "@ + presets.last().id@ + " ("@
            + presets.last().display_name@ + ")\n"@)
    }
}

/// The preferences file: comments, and the preferences as TOML.
pub open spec fn preferences_text(presets: Seq<Preset>, body: Seq<char>) -> Seq<char> {
    "# flutzPlayer preferences\n"@
        + "# Edit this file directly. TOML format is used so comments are preserved.\n"@ + "\n"@
        + "# default_preset_id selects the multifont preset used when opening plain MIDI files.\n"@
        + "# Available preset ids:\n"@ + preset_lines(presets)
        + "# decoded_audio_peq.default_preset stores the optional default decoded-audio PEQ config.\n"@
        + "# decoded_audio_peq.bypass persists the global Bypass EQ toggle.\n"@ + "\n"@ + body
}

/// The preferences file. `body` is the preferences as TOML.
pub fn render_preferences_file(presets: &PresetSet, body: &str) -> (text: String)
    ensures
        text@ == preferences_text(presets.presets@, body@),
{
    let mut lines = String::new();
    let mut i: usize = 0;
    assert(presets.presets@.take(0) =~= Seq::<Preset>::empty());
    while i < presets.presets.len()
        invariant
            i <= presets.presets@.len(),
            lines@ == preset_lines(presets.presets@.take(i as int)),
        decreases presets.presets@.len() - i,
    {
        assert(presets.presets@.take(i + 1).drop_last() =~= presets.presets@.take(i as int));
        let mut line = "# - ".to_owned();
        line.append(presets.presets[i].id.as_str());
        line.append(" (");
        line.append(presets.presets[i].display_name.as_str());
        line.append(")\n");
        lines.append(line.as_str());
        i = i + 1;
    }
    assert(presets.presets@.take(i as int) =~= presets.presets@);
    let mut text = "# flutzPlayer preferences\n".to_owned();
    text.append("# Edit this file directly. TOML format is used so comments are preserved.\n");
    text.append("\n");
    text.append(
        "# default_preset_id selects the multifont preset used when opening plain MIDI files.\n",
    );
    text.append("# Available preset ids:\n");
    text.append(lines.as_str());
    text.append(
        "# decoded_audio_peq.default_preset stores the optional default decoded-audio PEQ config.\n",
    );
    text.append("# decoded_audio_peq.bypass persists the global Bypass EQ toggle.\n");
    text.append("\n");
    text.append(body);
    text
}

/// The name of the preferences file.
pub fn preferences_file_name() -> (name: &'static str)
    ensures
        name@ == "preferences.ini"@,
{
    "preferences.ini"
}

/// What becomes of the preferences file when the player starts.
#[derive(Debug, Copy, Clone, PartialEq, Eq, Structural)]
pub enum PreferencesStep {
    /// The preferences of the file are taken, and the file stays.
    Keep,
    /// The preferences of the file are taken, and written again as they are written now.
    Rewrite,
    /// There are none that can be read: the default ones are taken and written.
    WriteDefault,
}

/// What becomes of the preferences file. `text` is what it holds, if there is one, and
/// `rendered` is how the preferences that it holds are written, if it can be read.
pub fn preferences_step(text: Option<&str>, rendered: Option<&str>) -> (step: PreferencesStep)
    ensures
        step == match (text, rendered) {
            (Some(text), Some(rendered)) => if text@ == rendered@ {
                PreferencesStep::Keep
            } else {
                PreferencesStep::Rewrite
            },
            _ => PreferencesStep::WriteDefault,
        },
{
    match text {
        Some(text) => match rendered {
            Some(rendered) => if text_eq(text, rendered) {
                PreferencesStep::Keep
            } else {
                PreferencesStep::Rewrite
            },
            None => PreferencesStep::WriteDefault,
        },
        None => PreferencesStep::WriteDefault,
    }
}

/// A preset is found by its id and goes by its own name; where no preset has an id, the
/// default one is taken and the mixer counts as the user's own.
pub proof fn presets_are_found_by_their_id(set: PresetSet, id: Seq<char>, k: int)
    requires
        set.wf(),
        forall|a: int, b: int|
            0 <= a < b < set.presets@.len() ==> (#[trigger] set.presets@[a]).id@ != (
            #[trigger] set.presets@[b]).id@,
        0 <= k < set.presets@.len(),
    ensures
        set.presets@[k].id@ == id ==> set.found(id) == Some(k) && set.chosen(id) == k && set.label(
            id,
        ) == set.presets@[k].display_name@ && missing_preset_text(set, id) is None,
        (forall|n: int| 0 <= n < set.presets@.len() ==> (#[trigger] set.presets@[n]).id@ != id)
            ==> set.found(id) is None && set.chosen(id) == set.default_index && set.label(id)
            == "Custom Mode"@ && missing_preset_text(set, id) == Some(
            "Preset "@ + id + " was unavailable; loaded default preset "@
                + set.presets@[set.default_index as int].display_name@,
        ),
{
    lemma_preset_from(set.presets@, id, 0);
}

/// A project with a mixer of its own asks for its own soundfonts; one that goes by a preset
/// asks for those of the preset, or of the default one where its preset is not there.
pub proof fn projects_ask_for_their_soundfonts(
    set: PresetSet,
    mode: MixerSourceMode,
    slots: Seq<Seq<char>>,
    k: int,
)
    requires
        set.wf(),
        forall|a: int, b: int|
            0 <= a < b < set.presets@.len() ==> (#[trigger] set.presets@[a]).id@ != (
            #[trigger] set.presets@[b]).id@,
        0 <= k < set.presets@.len(),
    ensures
        match mode {
            MixerSourceMode::Custom => fonts_asked_for(set, mode, slots) == slots,
            MixerSourceMode::PresetDefault(id) => {
                &&& set.presets@[k].id@ == id@ ==> fonts_asked_for(set, mode, slots) == texts(
                    set.presets@[k].font_ids@,
                )
                &&& (forall|n: int|
                    0 <= n < set.presets@.len() ==> (#[trigger] set.presets@[n]).id@ != id@)
                    ==> fonts_asked_for(set, mode, slots) == texts(
                    set.presets@[set.default_index as int].font_ids@,
                )
            },
        },
{
    match mode {
        MixerSourceMode::Custom => {},
        MixerSourceMode::PresetDefault(id) => {
            lemma_preset_from(set.presets@, id@, 0);
        },
    }
}

} // verus!
