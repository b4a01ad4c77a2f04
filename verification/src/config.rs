use vstd::prelude::*;

verus! {

/// The switches a user can set in the configuration file.
#[derive(Clone, Copy, Debug, PartialEq, Eq, Structural)]
pub struct FeatureSettings {
    pub edge_wheel_switching_enabled: bool,
    pub right_button_gestures_enabled: bool,
}

/// Every feature is on until the user turns it off.
pub open spec fn default_feature_settings() -> FeatureSettings {
    FeatureSettings { edge_wheel_switching_enabled: true, right_button_gestures_enabled: true }
}

impl Default for FeatureSettings {
    fn default() -> (r: Self)
        ensures
            r == default_feature_settings(),
    {
        FeatureSettings { edge_wheel_switching_enabled: true, right_button_gestures_enabled: true }
    }
}

/// What start-up does with the configuration file.
#[derive(Clone, Copy, Debug, PartialEq, Eq, Structural)]
pub enum LoadAction {
    /// The file exists and holds these settings: use them as they are.
    Use(FeatureSettings),
    /// There is no file yet: write these settings to a new one, then use them.
    CreateWith(FeatureSettings),
}

impl LoadAction {
    /// The settings the program runs with after this action.
    pub open spec fn spec_settings(self) -> FeatureSettings {
        match self {
            LoadAction::Use(s) => s,
            LoadAction::CreateWith(s) => s,
        }
    }

    /// The settings the program runs with after this action.
    pub fn settings(self) -> (r: FeatureSettings)
        ensures
            r == self.spec_settings(),
    {
        match self {
            LoadAction::Use(s) => s,
            LoadAction::CreateWith(s) => s,
        }
    }
}

/// Decides what to do with the configuration file, given the settings read
/// from it (`None` where there is no file yet): settings that were read are
/// used as they are; without a file the defaults are written and used.
pub fn load_or_create(stored: Option<FeatureSettings>) -> (r: LoadAction)
    ensures
        stored matches Some(s) ==> r == LoadAction::Use(s),
        stored is None ==> r == LoadAction::CreateWith(default_feature_settings()),
{
    match stored {
        Some(settings) => LoadAction::Use(settings),
        None => LoadAction::CreateWith(FeatureSettings::default()),
    }
}


/// A fresh configuration turns every feature on, and without a file the
/// settings written and used are those.
pub proof fn lemma_defaults_enable_everything()
    ensures
        default_feature_settings().edge_wheel_switching_enabled,
        default_feature_settings().right_button_gestures_enabled,
{
}

} // verus!
