//! Application settings.

use vstd::prelude::*;

verus! {

/// What the operator has configured.
#[derive(Clone, Debug, PartialEq, Eq)]
pub struct AppSettings {
    /// Code of the region whose carbon intensity applies.
    pub region: String,
    /// Power usage effectiveness, in millionths.
    pub pue_micros: u64,
    /// Code of the hardware profile whose power draw applies.
    pub hardware_profile: String,
    pub max_carbon_micro_g: u64,
    pub max_energy_micro_wh: u64,
    pub fail_on_threshold: bool,
    pub suggestions_enabled: bool,
    pub auto_start: bool,
    pub daily_carbon_budget_micro_g: u64,
    pub weekly_carbon_budget_micro_g: u64,
}

/// What an [`AppSettings`] holds.
pub struct SettingsView {
    pub region: Seq<char>,
    pub pue_micros: u64,
    pub hardware_profile: Seq<char>,
    pub max_carbon_micro_g: u64,
    pub max_energy_micro_wh: u64,
    pub fail_on_threshold: bool,
    pub suggestions_enabled: bool,
    pub auto_start: bool,
    pub daily_carbon_budget_micro_g: u64,
    pub weekly_carbon_budget_micro_g: u64,
}

impl View for AppSettings {
    type V = SettingsView;

    open spec fn view(&self) -> SettingsView {
        SettingsView {
            region: self.region@,
            pue_micros: self.pue_micros,
            hardware_profile: self.hardware_profile@,
            max_carbon_micro_g: self.max_carbon_micro_g,
            max_energy_micro_wh: self.max_energy_micro_wh,
            fail_on_threshold: self.fail_on_threshold,
            suggestions_enabled: self.suggestions_enabled,
            auto_start: self.auto_start,
            daily_carbon_budget_micro_g: self.daily_carbon_budget_micro_g,
            weekly_carbon_budget_micro_g: self.weekly_carbon_budget_micro_g,
        }
    }
}

/// The settings of an installation that has saved none.
pub open spec fn default_settings() -> SettingsView {
    SettingsView {
        region: "GLOBAL-AVG"@,
        pue_micros: 1_000_000,
        hardware_profile: "laptop"@,
        max_carbon_micro_g: 100_000_000,
        max_energy_micro_wh: 500_000_000,
        fail_on_threshold: false,
        suggestions_enabled: true,
        auto_start: false,
        daily_carbon_budget_micro_g: 50_000_000,
        weekly_carbon_budget_micro_g: 250_000_000,
    }
}

/// The daily carbon budget of settings that name none: 50 g.
pub fn default_daily_budget() -> (budget: u64)
    ensures
        budget == 50_000_000,
{
    50_000_000
}

/// The weekly carbon budget of settings that name none: 250 g.
pub fn default_weekly_budget() -> (budget: u64)
    ensures
        budget == 250_000_000,
{
    250_000_000
}

impl Default for AppSettings {
    fn default() -> (settings: AppSettings)
        ensures
            settings@ == default_settings(),
    {
        AppSettings {
            region: "GLOBAL-AVG".to_owned(),
            pue_micros: 1_000_000,
            hardware_profile: "laptop".to_owned(),
            max_carbon_micro_g: 100_000_000,
            max_energy_micro_wh: 500_000_000,
            fail_on_threshold: false,
            suggestions_enabled: true,
            auto_start: false,
            daily_carbon_budget_micro_g: default_daily_budget(),
            weekly_carbon_budget_micro_g: default_weekly_budget(),
        }
    }
}

} // verus!
