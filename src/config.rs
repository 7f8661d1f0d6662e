//! Validation and defaulting of the settings that a completion runs with.
use vstd::prelude::*;

use crate::registry::{resolve_model, resolved, LookupError, Model};

verus! {

/// A temperature setting as it was read: text that does not denote a
/// number, or the IEEE 754 binary32 bit pattern of the number it denotes.
#[derive(Debug, Clone, Copy, PartialEq, Eq, Structural)]
pub enum TemperatureReading {
    NotANumber,
    Bits(u32),
}

/// The settings as read from the configuration store; `None` where a key
/// is absent.
#[derive(Debug)]
pub struct ConfigValues {
    pub api_key: Option<String>,
    pub account_id: Option<String>,
    pub model: Option<String>,
    pub temperature: Option<TemperatureReading>,
    pub role: Option<String>,
}

/// A validated configuration for one completion request.
#[derive(Debug)]
pub struct RequestConfig {
    pub api_key: String,
    pub account_id: String,
    pub model: Model,
    /// The binary32 bit pattern of the sampling temperature.
    pub temperature_bits: u32,
    /// The system prompt; may be empty.
    pub role: String,
}

/// Why a configuration was refused.
#[derive(Debug, Clone, Copy, PartialEq, Eq, Structural)]
pub enum ConfigError {
    MissingApiKey,
    MissingAccountId,
    ModelNotFound,
    InvalidTemperature,
}

/// The binary32 bit pattern of 0.7, the temperature used when none is set.
pub const DEFAULT_TEMPERATURE_BITS: u32 = 0x3f33_3333;

/// A binary32 bit pattern denotes a number in the closed interval [0, 1]:
/// a non-negative number whose biased exponent is below that of 1.0, or 1.0
/// itself, or negative zero. Infinities and NaNs are excluded.
pub open spec fn in_unit_interval(b: u32) -> bool {
    let sign = b >> 31u32;
    let exponent = (b >> 23u32) & 0xffu32;
    let mantissa = b & 0x7f_ffffu32;
    (sign == 0 && (exponent < 127 || (exponent == 127 && mantissa == 0)))
        || (sign == 1 && exponent == 0 && mantissa == 0)
}

/// A reading is a valid temperature when it denotes a number in [0, 1].
pub open spec fn temperature_valid(t: TemperatureReading) -> bool {
    match t {
        TemperatureReading::NotANumber => false,
        TemperatureReading::Bits(b) => in_unit_interval(b),
    }
}

/// A setting is given when it is present and not empty.
pub open spec fn given(o: Option<String>) -> bool {
    o matches Some(s) && s@.len() > 0
}

/// The characters of an optional setting.
pub open spec fn setting_chars(o: Option<String>) -> Option<Seq<char>> {
    match o {
        Some(s) => Some(s@),
        None => None,
    }
}

/// Tells whether a binary32 bit pattern denotes a number in [0, 1].
pub fn temperature_in_range(b: u32) -> (r: bool)
    ensures
        r == in_unit_interval(b),
{
    assert((b <= 0x3f80_0000u32 || b == 0x8000_0000u32) == ({
        let sign = b >> 31u32;
        let exponent = (b >> 23u32) & 0xffu32;
        let mantissa = b & 0x7f_ffffu32;
        (sign == 0 && (exponent < 127 || (exponent == 127 && mantissa == 0)))
            || (sign == 1 && exponent == 0 && mantissa == 0)
    })) by (bit_vector);
    b <= 0x3f80_0000u32 || b == 0x8000_0000u32
}

/// Validates the settings and fills in defaults. The fields are examined
/// in this order and the first failure is returned: the API key (absent or
/// empty), the account id (absent or empty), the model (no catalog entry
/// answers to it), the temperature (not a number, or outside [0, 1]). An
/// absent temperature is 0.7, an absent model the first catalog entry, an
/// absent role the empty string.
pub fn resolve_config(values: ConfigValues) -> (r: Result<RequestConfig, ConfigError>)
    ensures
        !given(values.api_key) ==> r == Err::<RequestConfig, ConfigError>(
            ConfigError::MissingApiKey,
        ),
        given(values.api_key) && !given(values.account_id) ==> r == Err::<
            RequestConfig,
            ConfigError,
        >(ConfigError::MissingAccountId),
        given(values.api_key) && given(values.account_id) && resolved(
            setting_chars(values.model),
        ) is None ==> r == Err::<RequestConfig, ConfigError>(ConfigError::ModelNotFound),
        given(values.api_key) && given(values.account_id) && resolved(
            setting_chars(values.model),
        ) is Some && (values.temperature matches Some(t) && !temperature_valid(t)) ==> r == Err::<
            RequestConfig,
            ConfigError,
        >(ConfigError::InvalidTemperature),
        r is Ok <==> given(values.api_key) && given(values.account_id) && resolved(
            setting_chars(values.model),
        ) is Some && (values.temperature matches Some(t) ==> temperature_valid(t)),
        r matches Ok(c) ==> {
            &&& values.api_key matches Some(k) && c.api_key@ == k@
            &&& values.account_id matches Some(a) && c.account_id@ == a@
            &&& resolved(setting_chars(values.model)) == Some(c.model@)
            &&& c.temperature_bits == match values.temperature {
                Some(TemperatureReading::Bits(b)) => b,
                _ => DEFAULT_TEMPERATURE_BITS,
            }
            &&& c.role@ == match values.role {
                Some(s) => s@,
                None => Seq::<char>::empty(),
            }
            &&& c.wf()
        },
{
    let ConfigValues { api_key, account_id, model, temperature, role } = values;
    let api_key = match api_key {
        Some(k) if !k.as_str().is_empty() => k,
        _ => return Err(ConfigError::MissingApiKey),
    };
    let account_id = match account_id {
        Some(a) if !a.as_str().is_empty() => a,
        _ => return Err(ConfigError::MissingAccountId),
    };
    let found = match &model {
        Some(m) => resolve_model(Some(m.as_str())),
        None => resolve_model(None),
    };
    let model = match found {
        Ok(m) => m,
        Err(LookupError::ModelNotFound) => return Err(ConfigError::ModelNotFound),
    };
    let temperature_bits = match temperature {
        None => {
            assert(((0x3f33_3333u32 >> 23u32) & 0xffu32) < 127 && (0x3f33_3333u32 >> 31u32) == 0)
                by (bit_vector);
            DEFAULT_TEMPERATURE_BITS
        },
        Some(TemperatureReading::NotANumber) => return Err(ConfigError::InvalidTemperature),
        Some(TemperatureReading::Bits(b)) => {
            if !temperature_in_range(b) {
                return Err(ConfigError::InvalidTemperature);
            }
            b
        },
    };
    let role = match role {
        Some(s) => s,
        None => String::new(),
    };
    Ok(RequestConfig { api_key, account_id, model, temperature_bits, role })
}

impl RequestConfig {
    /// The key and the account id are not empty and the temperature lies
    /// in [0, 1].
    pub open spec fn wf(&self) -> bool {
        &&& self.api_key@.len() > 0
        &&& self.account_id@.len() > 0
        &&& in_unit_interval(self.temperature_bits)
    }
}

} // verus!
