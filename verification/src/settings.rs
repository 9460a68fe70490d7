//! The Preferences page's own state: the language row's "look here" glow,
//! started by Help → Language and dropped once its animation has run out.
//! Everything else the page shows is read straight from the `Config` and
//! project metadata its caller owns.

use std::time::Instant;

use vstd::prelude::*;

use crate::clock::{instant_now, pulse_running};
use crate::text::str_eq;

verus! {

/// Page model for the Preferences page.
#[derive(Debug)]
pub struct SettingsPage {
    /// `Some(started)` while the language row's glow is fading in, holding
    /// or fading out.
    language_glow: Option<Instant>,
}

impl View for SettingsPage {
    /// Whether a glow has been started and not yet dropped.
    type V = bool;

    closed spec fn view(&self) -> bool {
        self.language_glow is Some
    }
}

/// Messages emitted by the Preferences page; all but the last are applied
/// by the caller, which owns the `Config` and project metadata edited.
#[derive(Debug, Clone)]
pub enum SettingsMessage {
    AuthorChanged(String),
    CommentChanged(String),
    RepositoryChanged(String),
    AutosaveToggled(bool),
    AutosaveIntervalChanged(u32),
    ReopenToggled(bool),
    ZoomSensitivityChanged(u32),
    PreviewLinesChanged(u32),
    ConfirmNodesToggled(bool),
    ConfirmCharactersToggled(bool),
    ConfirmBlocksToggled(bool),
    /// A language radio was picked; `None` = follow the system locale.
    LanguagePicked(Option<String>),
    /// Drives the language row's glow while it's active.
    AnimationTick,
}

impl Default for SettingsPage {
    /// No glow.
    fn default() -> (r: Self)
        ensures
            !r@,
    {
        SettingsPage { language_glow: None }
    }
}

impl SettingsPage {
    /// Starts the language row's glow.
    pub fn flash_language(&mut self)
        ensures
            final(self)@,
    {
        self.language_glow = Some(instant_now());
    }

    /// Whether the glow is mid-animation. Only a started glow can be; how
    /// far it has run depends on the clock.
    pub fn is_glow_active(&self) -> (r: bool)
        ensures
            r ==> self@,
    {
        match &self.language_glow {
            Some(started) => pulse_running(started),
            None => false,
        }
    }

    /// The page's reaction to `message` once the glow's state is known: an
    /// animation tick after the glow has run out drops it; anything else
    /// changes nothing.
    pub fn apply(&mut self, message: &SettingsMessage, glow_active: bool)
        ensures
            final(self)@ == (old(self)@ && !(message is AnimationTick && !glow_active)),
    {
        match message {
            SettingsMessage::AnimationTick => {
                if !glow_active {
                    self.language_glow = None;
                }
            },
            _ => {},
        }
    }

    /// Handles a message: drops the glow on an animation tick once it has
    /// run out.
    pub fn update(&mut self, message: &SettingsMessage)
        ensures
            !(message is AnimationTick) ==> final(self)@ == old(self)@,
            final(self)@ ==> old(self)@,
    {
        let active = match message {
            SettingsMessage::AnimationTick => self.is_glow_active(),
            _ => true,
        };
        self.apply(message, active);
    }
}

/// The name shown for a language identifier, falling back to the raw
/// identifier for locales without one.
pub open spec fn language_name(id: Seq<char>) -> Seq<char> {
    if id == "en"@ {
        "English"@
    } else {
        id
    }
}

/// A human-facing name for a language identifier.
pub fn display_language(id: &str) -> (r: String)
    ensures
        r@ == language_name(id@),
{
    if str_eq(id, "en") {
        "English".to_string()
    } else {
        id.to_string()
    }
}

/// Whether `i` is the first position of `lang` in `languages`.
pub open spec fn is_first_language(languages: Seq<Seq<char>>, lang: Seq<char>, i: int) -> bool {
    &&& 0 <= i < languages.len()
    &&& languages[i] == lang
    &&& forall|k: int| 0 <= k < i ==> languages[k] != lang
}

/// The first position of `lang` among `languages`, if it is there.
pub open spec fn first_language(languages: Seq<Seq<char>>, lang: Seq<char>) -> Option<int> {
    if exists|i: int| is_first_language(languages, lang, i) {
        Some(choose|i: int| is_first_language(languages, lang, i))
    } else {
        None
    }
}

/// The radio selected on the language row: 0 for "System default", else
/// one past the position of the configured language among those offered;
/// a configured language that is not offered selects "System default".
pub open spec fn language_radio(language: Option<Seq<char>>, languages: Seq<Seq<char>>) -> int {
    match language {
        Some(l) => match first_language(languages, l) {
            Some(i) => i + 1,
            None => 0,
        },
        None => 0,
    }
}

proof fn lemma_first_language_unique(languages: Seq<Seq<char>>, lang: Seq<char>, i: int)
    requires
        is_first_language(languages, lang, i),
    ensures
        first_language(languages, lang) == Some(i),
{
    let j = choose|j: int| is_first_language(languages, lang, j);
    if j < i {
        assert(languages[j] != lang);
    }
    if i < j {
        assert(languages[i] != lang);
    }
}

/// The views of a list of strings.
pub open spec fn strings_view(v: Seq<String>) -> Seq<Seq<char>> {
    v.map_values(|s: String| s@)
}

/// Which radio of the language row is selected for `language`, given the
/// languages offered (in radio order after "System default").
pub fn selected_language_index(language: &Option<String>, languages: &Vec<String>) -> (r: usize)
    requires
        languages@.len() < usize::MAX,
    ensures
        r == language_radio(
            match language {
                Some(l) => Some(l@),
                None => None,
            },
            strings_view(languages@),
        ),
{
    let ghost lv = strings_view(languages@);
    match language {
        Some(current) => {
            let n = languages.len();
            for i in 0..n
                invariant
                    n == languages@.len(),
                    n < usize::MAX,
                    lv == strings_view(languages@),
                    *language == Some(*current),
                    forall|k: int| 0 <= k < i ==> lv[k] != current@,
            {
                if str_eq(languages[i].as_str(), current.as_str()) {
                    proof {
                        assert(lv[i as int] == languages@[i as int]@);
                        lemma_first_language_unique(lv, current@, i as int);
                    }
                    return i + 1;
                }
            }
            proof {
                assert(!exists|i: int| is_first_language(lv, current@, i));
            }
            0
        },
        None => 0,
    }
}

} // verus!
