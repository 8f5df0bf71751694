use crate::target::{ChangeFile, ChangeFileView};
use vstd::prelude::*;
use vstd::string::*;

verus! {

/// The current energy-performance preference; the file is there exactly
/// where the processor offers one.
pub const ENERGY_PERFORMANCE_PREFERENCE: &'static str =
    "/sys/devices/system/cpu/cpu0/cpufreq/energy_performance_preference";

/// The preferences that can be chosen.
pub const ENERGY_PERFORMANCE_AVAILABLE: &'static str =
    "/sys/devices/system/cpu/cpu0/cpufreq/energy_performance_available_preferences";

/// The current scaling governor.
pub const SCALING_GOVERNOR: &'static str = "/sys/devices/system/cpu/cpu0/cpufreq/scaling_governor";

/// The governors that can be chosen.
pub const SCALING_GOVERNOR_AVAILABLE: &'static str =
    "/sys/devices/system/cpu/cpu0/cpufreq/scaling_available_governors";

/// The current performance level of the graphics card; the file is there
/// exactly where the card offers one.
pub const AMD_GPU_GOVERNOR: &'static str = "/sys/class/drm/card0/device/power_dpm_force_performance_level";

/// The directories, one for each frequency policy, whose files are written.
pub const CPUFREQ: &'static str = "/sys/devices/system/cpu/cpufreq/*";

/// The file in such a directory that takes the energy-performance preference.
pub const ENERGY_FILE: &'static str = "energy_performance_preference";

/// The file in such a directory that takes the scaling governor.
pub const SCALING_FILE: &'static str = "scaling_governor";

/// The files that the settings are read from and written to.
#[derive(Debug, PartialEq, Eq)]
pub struct Config {
    /// The file with the current scaling governor.
    pub governor_current: String,
    /// The file with the governors on offer.
    pub governor_available: String,
    /// The file with the current energy-performance preference.
    pub pstate_current: String,
    /// The file with the preferences on offer.
    pub pstate_available: String,
    /// The file with the current performance level of the graphics card,
    /// which also takes the new one.
    pub amd_current: String,
    /// The pattern of the directories whose files are written.
    pub cpufreq_pattern: String,
    /// The name of the governor file in such a directory.
    pub governor_file: String,
    /// The name of the preference file in such a directory.
    pub pstate_file: String,
}

/// The performance levels that a graphics card takes, in the order of the
/// menu. The kernel lists them nowhere.
pub open spec fn amd_level_names() -> Seq<Seq<char>> {
    seq![
        "auto"@,
        "low"@,
        "high"@,
        "manual"@,
        "profile_standard"@,
        "profile_min_sclk"@,
        "profile_min_mclk"@,
        "profile_peak"@,
    ]
}

/// The performance levels that a graphics card takes, in the order of the
/// menu.
pub fn amd_levels() -> (levels: Vec<String>)
    ensures
        levels.deep_view() == amd_level_names(),
{
    let mut levels: Vec<String> = Vec::new();
    levels.push(String::from_str("auto"));
    levels.push(String::from_str("low"));
    levels.push(String::from_str("high"));
    levels.push(String::from_str("manual"));
    levels.push(String::from_str("profile_standard"));
    levels.push(String::from_str("profile_min_sclk"));
    levels.push(String::from_str("profile_min_mclk"));
    levels.push(String::from_str("profile_peak"));
    assert(levels.deep_view() =~= amd_level_names());
    levels
}

impl Config {
    /// Whether these are the files of a running Linux system.
    pub open spec fn is_system(&self) -> bool {
        &&& self.governor_current@ == SCALING_GOVERNOR@
        &&& self.governor_available@ == SCALING_GOVERNOR_AVAILABLE@
        &&& self.pstate_current@ == ENERGY_PERFORMANCE_PREFERENCE@
        &&& self.pstate_available@ == ENERGY_PERFORMANCE_AVAILABLE@
        &&& self.amd_current@ == AMD_GPU_GOVERNOR@
        &&& self.cpufreq_pattern@ == CPUFREQ@
        &&& self.governor_file@ == SCALING_FILE@
        &&& self.pstate_file@ == ENERGY_FILE@
    }

    /// The files of a running Linux system.
    pub fn system() -> (config: Config)
        ensures
            config.is_system(),
    {
        Config {
            governor_current: String::from_str(SCALING_GOVERNOR),
            governor_available: String::from_str(SCALING_GOVERNOR_AVAILABLE),
            pstate_current: String::from_str(ENERGY_PERFORMANCE_PREFERENCE),
            pstate_available: String::from_str(ENERGY_PERFORMANCE_AVAILABLE),
            amd_current: String::from_str(AMD_GPU_GOVERNOR),
            cpufreq_pattern: String::from_str(CPUFREQ),
            governor_file: String::from_str(SCALING_FILE),
            pstate_file: String::from_str(ENERGY_FILE),
        }
    }

    /// Where the scaling governor goes: the governor file of every policy.
    pub open spec fn spec_governor_target(&self) -> ChangeFileView {
        ChangeFileView::Glob { pattern: self.cpufreq_pattern@, file: self.governor_file@ }
    }

    /// Where the energy-performance preference goes: the preference file of
    /// every policy.
    pub open spec fn spec_pstate_target(&self) -> ChangeFileView {
        ChangeFileView::Glob { pattern: self.cpufreq_pattern@, file: self.pstate_file@ }
    }

    /// Where the performance level of the graphics card goes: the file that
    /// it was read from.
    pub open spec fn spec_amd_target(&self) -> ChangeFileView {
        ChangeFileView::Path { path: self.amd_current@ }
    }

    /// Where the scaling governor goes.
    pub fn governor_target(&self) -> (target: ChangeFile)
        ensures
            target@ == self.spec_governor_target(),
    {
        ChangeFile::Glob { pattern: self.cpufreq_pattern.clone(), file: self.governor_file.clone() }
    }

    /// Where the energy-performance preference goes.
    pub fn pstate_target(&self) -> (target: ChangeFile)
        ensures
            target@ == self.spec_pstate_target(),
    {
        ChangeFile::Glob { pattern: self.cpufreq_pattern.clone(), file: self.pstate_file.clone() }
    }

    /// Where the performance level of the graphics card goes.
    pub fn amd_target(&self) -> (target: ChangeFile)
        ensures
            target@ == self.spec_amd_target(),
    {
        ChangeFile::Path { path: self.amd_current.clone() }
    }
}

} // verus!
