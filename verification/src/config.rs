//! Settings of the market and of the Axle provider.
use crate::binary64::{Binary64, HUNDRED, TWENTY_SIX_POINT_ELEVEN, ZERO};
use crate::text::{blank, is_blank, starts_with};
use vstd::prelude::*;

verus! {

/// The supplier's products and tariffs of one household.
#[derive(Debug)]
pub struct MarketConfig {
    pub import_product: String,
    pub import_tariff: String,
    /// The member's active Octopus export product and tariff. Empty values keep
    /// deliberate export disabled until the tariff has been discovered or
    /// configured explicitly.
    pub export_product: String,
    pub export_tariff: String,
    /// Payment method used for the regional Flexible Octopus comparison.
    pub standard_payment_method: String,
    /// No-battery comparison tariff in p/kWh, used only when Octopus and the
    /// last persisted rate are both unavailable.
    pub standard_tariff_p: Binary64,
}

impl Clone for MarketConfig {
    fn clone(&self) -> (r: MarketConfig)
        ensures
            r == *self,
    {
        MarketConfig {
            import_product: self.import_product.clone(),
            import_tariff: self.import_tariff.clone(),
            export_product: self.export_product.clone(),
            export_tariff: self.export_tariff.clone(),
            standard_payment_method: self.standard_payment_method.clone(),
            standard_tariff_p: self.standard_tariff_p,
        }
    }
}

impl Default for MarketConfig {
    fn default() -> (r: MarketConfig)
        ensures
            r.import_product@ == "AGILE-24-10-01"@,
            r.import_tariff@ == "E-1R-AGILE-24-10-01-C"@,
            r.export_product@ == Seq::<char>::empty(),
            r.export_tariff@ == Seq::<char>::empty(),
            r.standard_payment_method@ == "DIRECT_DEBIT"@,
            r.standard_tariff_p.bits == TWENTY_SIX_POINT_ELEVEN,
    {
        MarketConfig {
            import_product: "AGILE-24-10-01".to_owned(),
            import_tariff: "E-1R-AGILE-24-10-01-C".to_owned(),
            export_product: String::new(),
            export_tariff: String::new(),
            standard_payment_method: "DIRECT_DEBIT".to_owned(),
            standard_tariff_p: Binary64 { bits: TWENTY_SIX_POINT_ELEVEN },
        }
    }
}

/// The letters of the supply regions: A to P without I and O.
pub open spec fn is_region(c: char) -> bool {
    'A' <= c <= 'P' && c != 'I' && c != 'O'
}

/// The region that a tariff code ends with: a letter alone behind the last hyphen.
pub open spec fn region_of(tariff: Seq<char>) -> Option<char> {
    let n = tariff.len();
    if n > 0 && is_region(tariff[n - 1]) && (n == 1 || tariff[n - 2] == '-') {
        Some(tariff[n - 1])
    } else {
        None
    }
}

impl MarketConfig {
    /// The supply region that the import tariff names.
    pub fn gsp_region(&self) -> (r: Option<char>)
        ensures
            r == region_of(self.import_tariff@),
    {
        let tariff = self.import_tariff.as_str();
        let n: usize = tariff.unicode_len();
        if n == 0 {
            return None;
        }
        let last = tariff.get_char(n - 1);
        if 'A' <= last && last <= 'P' && last != 'I' && last != 'O' && (n == 1 || tariff.get_char(
            n - 2,
        ) == '-') {
            Some(last)
        } else {
            None
        }
    }
}

/// A failure with a message.
pub fn err<T>(message: &str) -> (r: Result<T, String>)
    ensures
        r matches Err(m) && m@ == message@,
{
    Err(message.to_owned())
}

/// Direct, read-only access to the member's Axle VPP event feed.
#[derive(Debug)]
pub struct AxleConfig {
    /// Enable only after selecting Self-Dispatch Mode in the Axle account.
    pub self_dispatch: bool,
    /// Expected reward, additional to the export tariff; not supplied by the feed.
    pub export_reward_p_per_kwh: Binary64,
    /// Expected reward per net imported kWh (planning and measured estimates); zero unless
    /// explicitly configured.
    pub import_reward_p_per_kwh: Binary64,
    pub enabled: bool,
    pub api_url: String,
    pub api_key: String,
}

impl Clone for AxleConfig {
    fn clone(&self) -> (r: AxleConfig)
        ensures
            r == *self,
    {
        AxleConfig {
            self_dispatch: self.self_dispatch,
            export_reward_p_per_kwh: self.export_reward_p_per_kwh,
            import_reward_p_per_kwh: self.import_reward_p_per_kwh,
            enabled: self.enabled,
            api_url: self.api_url.clone(),
            api_key: self.api_key.clone(),
        }
    }
}

impl Default for AxleConfig {
    fn default() -> (r: AxleConfig)
        ensures
            r.is_default(),
    {
        AxleConfig {
            self_dispatch: false,
            export_reward_p_per_kwh: Binary64 { bits: HUNDRED },
            import_reward_p_per_kwh: Binary64 { bits: ZERO },
            enabled: false,
            api_url: "https://api.axle.energy".to_owned(),
            api_key: String::new(),
        }
    }
}

/// A finite number that is not below zero.
pub open spec fn is_reward(value: Binary64) -> bool {
    value.spec_is_finite() && (Binary64 { bits: ZERO }).le(value)
}

/// Whether a number is finite and not below zero.
pub fn reward_is_usable(value: Binary64) -> (r: bool)
    ensures
        r == is_reward(value),
{
    value.is_finite() && (Binary64 { bits: ZERO }).at_most(value)
}

/// An address on this machine, or one that is reached over HTTPS.
pub open spec fn is_safe_url(url: Seq<char>) -> bool {
    ||| "https://"@.is_prefix_of(url)
    ||| "http://localhost/"@.is_prefix_of(url)
    ||| "http://localhost:"@.is_prefix_of(url)
    ||| "http://127.0.0.1/"@.is_prefix_of(url)
    ||| "http://127.0.0.1:"@.is_prefix_of(url)
    ||| "http://[::1]/"@.is_prefix_of(url)
    ||| "http://[::1]:"@.is_prefix_of(url)
}

fn safe_url(url: &str) -> (r: bool)
    ensures
        r == is_safe_url(url@),
{
    starts_with(url, "https://") || starts_with(url, "http://localhost/") || starts_with(
        url,
        "http://localhost:",
    ) || starts_with(url, "http://127.0.0.1/") || starts_with(url, "http://127.0.0.1:")
        || starts_with(url, "http://[::1]/") || starts_with(url, "http://[::1]:")
}

impl AxleConfig {
    /// The settings before a member changes any: a disabled feed at Axle's address, and a
    /// reward of 100 for export alone.
    pub open spec fn is_default(self) -> bool {
        &&& !self.self_dispatch
        &&& self.export_reward_p_per_kwh.bits == HUNDRED
        &&& self.import_reward_p_per_kwh.bits == ZERO
        &&& !self.enabled
        &&& self.api_url@ == "https://api.axle.energy"@
        &&& self.api_key@ == Seq::<char>::empty()
    }

    /// Both rewards are usable.
    pub open spec fn has_rewards(self) -> bool {
        is_reward(self.export_reward_p_per_kwh) && is_reward(self.import_reward_p_per_kwh)
    }

    /// The settings can be used: the rewards are usable, and an enabled feed has a safe
    /// address and a key.
    pub open spec fn is_usable(self) -> bool {
        &&& self.has_rewards()
        &&& self.enabled ==> is_safe_url(self.api_url@) && !is_blank(self.api_key@)
    }

    /// What is wrong with settings that cannot be used.
    pub open spec fn complaint(self) -> Seq<char> {
        if !self.has_rewards() {
            "Axle planning rewards must be finite and non-negative"@
        } else if !is_safe_url(self.api_url@) {
            "axle.api_url must use HTTPS (HTTP is allowed only for loopback development)"@
        } else {
            "axle.api_key is required when axle is enabled"@
        }
    }

    /// Check the settings. A disabled feed needs neither address nor key.
    pub fn validate(&self) -> (r: Result<(), String>)
        ensures
            r is Ok <==> self.is_usable(),
            r matches Err(message) ==> message@ == self.complaint(),
    {
        if !reward_is_usable(self.export_reward_p_per_kwh) || !reward_is_usable(
            self.import_reward_p_per_kwh,
        ) {
            return err("Axle planning rewards must be finite and non-negative");
        }
        if self.enabled {
            if !safe_url(self.api_url.as_str()) {
                return err(
                    "axle.api_url must use HTTPS (HTTP is allowed only for loopback development)",
                );
            }
            if blank(self.api_key.as_str()) {
                return err("axle.api_key is required when axle is enabled");
            }
        }
        Ok(())
    }
}

} // verus!
