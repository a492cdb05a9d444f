//! The first-run setup flow: choose a language, optionally import a profile,
//! then finish, which records the setup as complete.
use vstd::prelude::*;
use crate::settings::{CalibrationConfig, LANGUAGE_COUNT};

verus! {

/// The pages of the setup flow, in order.
#[derive(Clone, Copy, Debug, PartialEq, Eq, Structural)]
pub enum WizardStep {
    Language,
    Import,
    Complete,
}

/// Where a press of "next" leads.
#[derive(Clone, Copy, Debug, PartialEq, Eq, Structural)]
pub enum WizardMove {
    /// Show this page.
    Show(WizardStep),
    /// Leave the flow, saving its outcome.
    Finish,
}

/// The state of the setup flow.
#[derive(Clone, Copy, Debug, PartialEq, Eq, Structural)]
pub struct WizardFlow {
    pub step: WizardStep,
    pub language: u32,
    pub profile_imported: bool,
}

/// The position of a page, counting from 0.
pub open spec fn step_index(s: WizardStep) -> int {
    match s {
        WizardStep::Language => 0,
        WizardStep::Import => 1,
        WizardStep::Complete => 2,
    }
}

impl WizardFlow {
    /// The invariant of the flow: a valid language.
    pub open spec fn wf(&self) -> bool {
        self.language < LANGUAGE_COUNT
    }

    /// A flow on its first page, in the given language.
    pub fn new(language: u32) -> (r: WizardFlow)
        requires
            language < LANGUAGE_COUNT,
        ensures
            r.wf(),
            r == (WizardFlow { step: WizardStep::Language, language, profile_imported: false }),
    {
        WizardFlow { step: WizardStep::Language, language, profile_imported: false }
    }

    /// Whether "back" can be pressed: on every page but the first.
    pub fn back_enabled(&self) -> (r: bool)
        ensures
            r == (step_index(self.step) > 0),
    {
        match self.step {
            WizardStep::Language => false,
            _ => true,
        }
    }

    /// Whether "next" reads "finish": on the last page only.
    pub fn next_finishes(&self) -> (r: bool)
        ensures
            r == (self.step == WizardStep::Complete),
    {
        match self.step {
            WizardStep::Complete => true,
            _ => false,
        }
    }

    /// Goes back one page; on the first page nothing changes.
    pub fn back_step(&mut self)
        ensures
            final(self).language == old(self).language,
            final(self).profile_imported == old(self).profile_imported,
            step_index(old(self).step) > 0 ==> step_index(final(self).step) == step_index(
                old(self).step,
            ) - 1,
            step_index(old(self).step) == 0 ==> final(self).step == old(self).step,
    {
        self.step =
        match self.step {
            WizardStep::Language => WizardStep::Language,
            WizardStep::Import => WizardStep::Language,
            WizardStep::Complete => WizardStep::Import,
        };
    }

    /// Goes forward one page; on the last page the flow finishes instead.
    pub fn next_step(&mut self) -> (r: WizardMove)
        ensures
            final(self).language == old(self).language,
            final(self).profile_imported == old(self).profile_imported,
            old(self).step == WizardStep::Complete ==> r == WizardMove::Finish && final(self).step
                == old(self).step,
            old(self).step != WizardStep::Complete ==> r == WizardMove::Show(final(self).step)
                && step_index(final(self).step) == step_index(old(self).step) + 1,
    {
        match self.step {
            WizardStep::Language => {
                self.step = WizardStep::Import;
                WizardMove::Show(WizardStep::Import)
            },
            WizardStep::Import => {
                self.step = WizardStep::Complete;
                WizardMove::Show(WizardStep::Complete)
            },
            WizardStep::Complete => WizardMove::Finish,
        }
    }

    /// Chooses the interface language; an index out of range is ignored.
    pub fn change_lang(&mut self, language: u32)
        ensures
            final(self).step == old(self).step,
            final(self).profile_imported == old(self).profile_imported,
            final(self).language == (if language < LANGUAGE_COUNT {
                language
            } else {
                old(self).language
            }),
    {
        if language < LANGUAGE_COUNT {
            self.language = language;
        }
    }

    /// Records that a profile was imported.
    pub fn import_profile(&mut self)
        ensures
            *final(self) == (WizardFlow { profile_imported: true, ..*old(self) }),
    {
        self.profile_imported = true;
    }

    /// The configuration to save when the flow finishes: `base` in the chosen
    /// language, with the setup recorded as complete.
    pub fn finish(&self, base: &CalibrationConfig) -> (r: CalibrationConfig)
        requires
            self.wf(),
            base.wf(),
        ensures
            r.wf(),
            r == (CalibrationConfig { language: self.language, configured: true, ..*base }),
    {
        CalibrationConfig {
            polling_interval_ms: base.polling_interval_ms,
            polling_enabled: base.polling_enabled,
            language: self.language,
            configured: true,
        }
    }
}

} // verus!
