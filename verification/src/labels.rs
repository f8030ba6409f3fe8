//! The words that the popup shows, in the language of the session.

use vstd::prelude::*;

verus! {

/// One text for every message that stands without an argument. The texts come
/// from the session's translations.
#[derive(Debug)]
pub struct Labels {
    pub unavailable: String,
    pub enabled: String,
    pub disabled: String,
    pub network: String,
    pub bluetooth: String,
    pub battery: String,
    pub on_battery: String,
    pub charging: String,
    pub less_than_minute: String,
    pub power_profile: String,
    pub power_saver: String,
    pub balanced: String,
    pub performance: String,
    pub settings: String,
    pub suspend: String,
    pub logout: String,
    pub restart: String,
    pub shutdown: String,
}

} // verus!
