//! The editor header's plain data: the preset selector.
//!
//! The widget state that draws the picker belongs to the display shell; what
//! the header knows — which preset is on display, and which presets exist —
//! lives here.

use vstd::prelude::*;

verus! {

use vstd::string::StringExecFns;

/// The header's state: the name of the preset on display.
pub struct HeaderState {
    pub preset_name: String,
}

impl HeaderState {
    /// A fresh header shows the default preset.
    pub fn new() -> (h: HeaderState)
        ensures
            h.preset_name@ == "Default"@,
    {
        HeaderState { preset_name: String::from_str("Default") }
    }

    /// The displayed preset name, as its own string.
    pub fn as_string(&self) -> (r: String)
        ensures
            r@ == self.preset_name@,
    {
        String::from_str(self.preset_name.as_str())
    }

    /// A preset was picked: the header shows it from now on.
    pub fn select_preset(&mut self, preset_name: String)
        ensures
            final(self).preset_name@ == preset_name@,
    {
        self.preset_name = preset_name;
    }
}

/// The preset names the picker offers.
pub fn preset_options() -> (r: Vec<String>)
    ensures
        r@.len() == 3,
        r@[0]@ == "Default"@,
        r@[1]@ == "Preset-1"@,
        r@[2]@ == "Preset-2"@,
{
    let mut v: Vec<String> = Vec::new();
    v.push(String::from_str("Default"));
    v.push(String::from_str("Preset-1"));
    v.push(String::from_str("Preset-2"));
    v
}

} // verus!
