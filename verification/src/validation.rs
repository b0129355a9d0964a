//! Validation-layer configuration and diagnostics classification.
//!
//! Validation is switched by a single environment toggle read at startup:
//! `"1"` enables the debug layers, `"0"` or an unset variable disables
//! them, and any other value is a fatal configuration error. When enabled,
//! the engine requires one bundled validation layer to be present among the
//! instance layers the driver reports, and registers a debug messenger that
//! classifies each diagnostic by severity and category before logging it.

use vstd::prelude::*;
use crate::EngineError;

verus! {

/// Raw severity flag codes of the diagnostics interface.
pub const SEVERITY_VERBOSE: u32 = 0x1;

pub const SEVERITY_INFO: u32 = 0x10;

pub const SEVERITY_WARNING: u32 = 0x100;

pub const SEVERITY_ERROR: u32 = 0x1000;

/// Raw category flag codes of the diagnostics interface.
pub const CATEGORY_GENERAL: u32 = 0x1;

pub const CATEGORY_VALIDATION: u32 = 0x2;

pub const CATEGORY_PERFORMANCE: u32 = 0x4;

/// Parses the validation toggle: unset or `"0"` disables, `"1"` enables,
/// anything else is a fatal configuration error.
pub fn parse_validation_toggle(value: Option<String>) -> (result: Result<bool, EngineError>)
    ensures
        match value {
            None => result == Result::<bool, EngineError>::Ok(false),
            Some(v) => if v@ == "1"@ {
                result == Result::<bool, EngineError>::Ok(true)
            } else if v@ == "0"@ {
                result == Result::<bool, EngineError>::Ok(false)
            } else {
                result == Result::<bool, EngineError>::Err(EngineError::InvalidValidationToggle)
            },
        },
{
    proof {
        reveal_strlit("1");
        reveal_strlit("0");
    }
    match value {
        None => Ok(false),
        Some(v) => {
            let enabled: String = "1".to_owned();
            let disabled: String = "0".to_owned();
            if v == enabled {
                Ok(true)
            } else if v == disabled {
                Ok(false)
            } else {
                Err(EngineError::InvalidValidationToggle)
            }
        },
    }
}

/// The bundled validation layers the engine requests when the toggle is on.
pub fn required_layers() -> (layers: Vec<String>)
    ensures
        layers@.len() == 1,
        layers@[0]@ == "VK_LAYER_KHRONOS_validation"@,
{
    let mut layers: Vec<String> = Vec::new();
    layers.push("VK_LAYER_KHRONOS_validation".to_owned());
    layers
}

/// Layer `name` occurs among the reported instance layer names.
pub open spec fn layer_found(available: Seq<String>, name: Seq<char>) -> bool {
    exists|j: int| 0 <= j < available.len() && (#[trigger] available[j])@ == name
}

/// Every required layer occurs among the reported instance layer names.
pub open spec fn all_layers_found(available: Seq<String>, required: Seq<String>) -> bool {
    forall|i: int| 0 <= i < required.len() ==> layer_found(available, (#[trigger] required[i])@)
}

/// Scans the reported layer names for one layer.
fn find_layer(available: &Vec<String>, name: &String) -> (found: bool)
    ensures
        found == layer_found(available@, name@),
{
    let mut j: usize = 0;
    while j < available.len()
        invariant
            j <= available@.len(),
            forall|k: int| 0 <= k < j ==> (#[trigger] available@[k])@ != name@,
        decreases available@.len() - j,
    {
        if available[j] == *name {
            return true;
        }
        j = j + 1;
    }
    false
}

/// Checks that every required validation layer is among the instance layers
/// the driver reports. An empty report supports nothing.
pub fn check_layer_support(available: &Vec<String>, required: &Vec<String>) -> (ok: bool)
    ensures
        ok == all_layers_found(available@, required@),
{
    let mut i: usize = 0;
    while i < required.len()
        invariant
            i <= required@.len(),
            forall|k: int| 0 <= k < i ==> layer_found(available@, (#[trigger] required@[k])@),
        decreases required@.len() - i,
    {
        if !find_layer(available, &required[i]) {
            return false;
        }
        i = i + 1;
    }
    true
}

/// What the debug messenger subscribes to: warnings and errors across every
/// category; verbose and informational chatter stays off.
#[derive(Clone, Copy, PartialEq, Eq, Structural, Debug)]
pub struct DebugMessengerConfig {
    pub severity_verbose: bool,
    pub severity_info: bool,
    pub severity_warning: bool,
    pub severity_error: bool,
    pub category_general: bool,
    pub category_performance: bool,
    pub category_validation: bool,
}

/// The messenger registration the engine uses when validation is enabled.
pub fn debug_messenger_config() -> (config: DebugMessengerConfig)
    ensures
        !config.severity_verbose,
        !config.severity_info,
        config.severity_warning,
        config.severity_error,
        config.category_general,
        config.category_performance,
        config.category_validation,
{
    DebugMessengerConfig {
        severity_verbose: false,
        severity_info: false,
        severity_warning: true,
        severity_error: true,
        category_general: true,
        category_performance: true,
        category_validation: true,
    }
}

/// The label a diagnostic's severity flag is logged under. Only an exact
/// single-flag value classifies; anything else is unknown.
pub fn severity_label(severity: u32) -> (label: &'static str)
    ensures
        severity == SEVERITY_VERBOSE ==> label@ == "[Verbose]"@,
        severity == SEVERITY_INFO ==> label@ == "[Info]"@,
        severity == SEVERITY_WARNING ==> label@ == "[Warning]"@,
        severity == SEVERITY_ERROR ==> label@ == "[Error]"@,
        severity != SEVERITY_VERBOSE && severity != SEVERITY_INFO && severity != SEVERITY_WARNING
            && severity != SEVERITY_ERROR ==> label@ == "[Unknown]"@,
{
    if severity == SEVERITY_VERBOSE {
        "[Verbose]"
    } else if severity == SEVERITY_INFO {
        "[Info]"
    } else if severity == SEVERITY_WARNING {
        "[Warning]"
    } else if severity == SEVERITY_ERROR {
        "[Error]"
    } else {
        "[Unknown]"
    }
}

/// The label a diagnostic's category flag is logged under. Only an exact
/// single-flag value classifies; anything else is unknown.
pub fn category_label(category: u32) -> (label: &'static str)
    ensures
        category == CATEGORY_GENERAL ==> label@ == "[General]"@,
        category == CATEGORY_PERFORMANCE ==> label@ == "[Performance]"@,
        category == CATEGORY_VALIDATION ==> label@ == "[Validation]"@,
        category != CATEGORY_GENERAL && category != CATEGORY_PERFORMANCE && category
            != CATEGORY_VALIDATION ==> label@ == "[Unknown]"@,
{
    if category == CATEGORY_GENERAL {
        "[General]"
    } else if category == CATEGORY_PERFORMANCE {
        "[Performance]"
    } else if category == CATEGORY_VALIDATION {
        "[Validation]"
    } else {
        "[Unknown]"
    }
}

} // verus!
