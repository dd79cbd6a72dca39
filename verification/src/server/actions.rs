use vstd::prelude::*;

use crate::server::dates::{spec_parse_date, Date};
use crate::server::errors::{
    ApiError, ApiResult, STATUS_BAD_REQUEST, STATUS_NOT_FOUND,
};
use crate::server::query::{
    find_param, parse_u16_param, parse_u8_param, spec_first_value, spec_parse_uint,
};
use crate::server::state::{contains_name, LoadedConfig};
use crate::server::text::string_eq;

verus! {

/// Every device model the gateway knows how to drive.
#[derive(Clone, Copy, Debug, PartialEq, Eq, Structural)]
pub enum TapoDeviceType {
    L510,
    L520,
    L530,
    L535,
    L610,
    L630,
    L900,
    L920,
    L930,
    P100,
    P105,
    P110,
    P110M,
    P115,
    P300,
    P304,
    P304M,
    P316,
}

/// A set of models that expose one identical action set. A route of one
/// model accepts any device whose model belongs to the same group.
#[derive(Clone, Copy, Debug, PartialEq, Eq, Structural)]
pub enum CapabilityGroup {
    /// Dimmable bulbs: L510, L520, L610.
    Bulb,
    /// Color bulbs: L530, L535, L630.
    ColorBulb,
    /// RGB light strips: L900.
    RgbStrip,
    /// RGBIC light strips with lighting effects: L920, L930.
    RgbicStrip,
    /// Simple plugs: P100, P105.
    Plug,
    /// Energy-monitoring plugs: P110, P110M, P115.
    EnergyPlug,
    /// Power strips: P300, P304, P304M, P316.
    PowerStrip,
}

/// The capability group of each model.
pub open spec fn spec_group_of(t: TapoDeviceType) -> CapabilityGroup {
    match t {
        TapoDeviceType::L510 => CapabilityGroup::Bulb,
        TapoDeviceType::L520 => CapabilityGroup::Bulb,
        TapoDeviceType::L610 => CapabilityGroup::Bulb,
        TapoDeviceType::L530 => CapabilityGroup::ColorBulb,
        TapoDeviceType::L535 => CapabilityGroup::ColorBulb,
        TapoDeviceType::L630 => CapabilityGroup::ColorBulb,
        TapoDeviceType::L900 => CapabilityGroup::RgbStrip,
        TapoDeviceType::L920 => CapabilityGroup::RgbicStrip,
        TapoDeviceType::L930 => CapabilityGroup::RgbicStrip,
        TapoDeviceType::P100 => CapabilityGroup::Plug,
        TapoDeviceType::P105 => CapabilityGroup::Plug,
        TapoDeviceType::P110 => CapabilityGroup::EnergyPlug,
        TapoDeviceType::P110M => CapabilityGroup::EnergyPlug,
        TapoDeviceType::P115 => CapabilityGroup::EnergyPlug,
        TapoDeviceType::P300 => CapabilityGroup::PowerStrip,
        TapoDeviceType::P304 => CapabilityGroup::PowerStrip,
        TapoDeviceType::P304M => CapabilityGroup::PowerStrip,
        TapoDeviceType::P316 => CapabilityGroup::PowerStrip,
    }
}

/// The model whose driver protocol a device actually speaks: a few models
/// are fully protocol-compatible aliases of another model and reuse its
/// driver constructor.
pub open spec fn spec_driver_model(t: TapoDeviceType) -> TapoDeviceType {
    match t {
        TapoDeviceType::P110M => TapoDeviceType::P110,
        TapoDeviceType::P304M => TapoDeviceType::P304,
        _ => t,
    }
}

impl TapoDeviceType {
    /// The display name of each model.
    pub open spec fn spec_model_name(&self) -> Seq<char> {
        match self {
            TapoDeviceType::L510 => "L510"@,
            TapoDeviceType::L520 => "L520"@,
            TapoDeviceType::L530 => "L530"@,
            TapoDeviceType::L535 => "L535"@,
            TapoDeviceType::L610 => "L610"@,
            TapoDeviceType::L630 => "L630"@,
            TapoDeviceType::L900 => "L900"@,
            TapoDeviceType::L920 => "L920"@,
            TapoDeviceType::L930 => "L930"@,
            TapoDeviceType::P100 => "P100"@,
            TapoDeviceType::P105 => "P105"@,
            TapoDeviceType::P110 => "P110"@,
            TapoDeviceType::P110M => "P110M"@,
            TapoDeviceType::P115 => "P115"@,
            TapoDeviceType::P300 => "P300"@,
            TapoDeviceType::P304 => "P304"@,
            TapoDeviceType::P304M => "P304M"@,
            TapoDeviceType::P316 => "P316"@,
        }
    }

    /// The lower-case route segment of each model.
    pub open spec fn spec_route_segment(&self) -> Seq<char> {
        match self {
            TapoDeviceType::L510 => "l510"@,
            TapoDeviceType::L520 => "l520"@,
            TapoDeviceType::L530 => "l530"@,
            TapoDeviceType::L535 => "l535"@,
            TapoDeviceType::L610 => "l610"@,
            TapoDeviceType::L630 => "l630"@,
            TapoDeviceType::L900 => "l900"@,
            TapoDeviceType::L920 => "l920"@,
            TapoDeviceType::L930 => "l930"@,
            TapoDeviceType::P100 => "p100"@,
            TapoDeviceType::P105 => "p105"@,
            TapoDeviceType::P110 => "p110"@,
            TapoDeviceType::P110M => "p110m"@,
            TapoDeviceType::P115 => "p115"@,
            TapoDeviceType::P300 => "p300"@,
            TapoDeviceType::P304 => "p304"@,
            TapoDeviceType::P304M => "p304m"@,
            TapoDeviceType::P316 => "p316"@,
        }
    }

    /// The kind of appliance a model is, for error and boot messages.
    pub open spec fn spec_type_description(&self) -> Seq<char> {
        match spec_group_of(*self) {
            CapabilityGroup::Bulb => "bulb"@,
            CapabilityGroup::ColorBulb => "bulb"@,
            CapabilityGroup::RgbStrip => "light strip"@,
            CapabilityGroup::RgbicStrip => "light strip"@,
            CapabilityGroup::Plug => "plug"@,
            CapabilityGroup::EnergyPlug => "plug"@,
            CapabilityGroup::PowerStrip => "power strip"@,
        }
    }

    pub fn model_name(&self) -> (r: &'static str)
        ensures
            r@ == self.spec_model_name(),
    {
        match self {
            TapoDeviceType::L510 => "L510",
            TapoDeviceType::L520 => "L520",
            TapoDeviceType::L530 => "L530",
            TapoDeviceType::L535 => "L535",
            TapoDeviceType::L610 => "L610",
            TapoDeviceType::L630 => "L630",
            TapoDeviceType::L900 => "L900",
            TapoDeviceType::L920 => "L920",
            TapoDeviceType::L930 => "L930",
            TapoDeviceType::P100 => "P100",
            TapoDeviceType::P105 => "P105",
            TapoDeviceType::P110 => "P110",
            TapoDeviceType::P110M => "P110M",
            TapoDeviceType::P115 => "P115",
            TapoDeviceType::P300 => "P300",
            TapoDeviceType::P304 => "P304",
            TapoDeviceType::P304M => "P304M",
            TapoDeviceType::P316 => "P316",
        }
    }

    pub fn route_segment(&self) -> (r: &'static str)
        ensures
            r@ == self.spec_route_segment(),
    {
        match self {
            TapoDeviceType::L510 => "l510",
            TapoDeviceType::L520 => "l520",
            TapoDeviceType::L530 => "l530",
            TapoDeviceType::L535 => "l535",
            TapoDeviceType::L610 => "l610",
            TapoDeviceType::L630 => "l630",
            TapoDeviceType::L900 => "l900",
            TapoDeviceType::L920 => "l920",
            TapoDeviceType::L930 => "l930",
            TapoDeviceType::P100 => "p100",
            TapoDeviceType::P105 => "p105",
            TapoDeviceType::P110 => "p110",
            TapoDeviceType::P110M => "p110m",
            TapoDeviceType::P115 => "p115",
            TapoDeviceType::P300 => "p300",
            TapoDeviceType::P304 => "p304",
            TapoDeviceType::P304M => "p304m",
            TapoDeviceType::P316 => "p316",
        }
    }

    pub fn type_description(&self) -> (r: &'static str)
        ensures
            r@ == self.spec_type_description(),
    {
        match self {
            TapoDeviceType::L510 => "bulb",
            TapoDeviceType::L520 => "bulb",
            TapoDeviceType::L530 => "bulb",
            TapoDeviceType::L535 => "bulb",
            TapoDeviceType::L610 => "bulb",
            TapoDeviceType::L630 => "bulb",
            TapoDeviceType::L900 => "light strip",
            TapoDeviceType::L920 => "light strip",
            TapoDeviceType::L930 => "light strip",
            TapoDeviceType::P100 => "plug",
            TapoDeviceType::P105 => "plug",
            TapoDeviceType::P110 => "plug",
            TapoDeviceType::P110M => "plug",
            TapoDeviceType::P115 => "plug",
            TapoDeviceType::P300 => "power strip",
            TapoDeviceType::P304 => "power strip",
            TapoDeviceType::P304M => "power strip",
            TapoDeviceType::P316 => "power strip",
        }
    }

    /// The capability group of this model.
    pub fn group(&self) -> (r: CapabilityGroup)
        ensures
            r == spec_group_of(*self),
    {
        match self {
            TapoDeviceType::L510 => CapabilityGroup::Bulb,
            TapoDeviceType::L520 => CapabilityGroup::Bulb,
            TapoDeviceType::L610 => CapabilityGroup::Bulb,
            TapoDeviceType::L530 => CapabilityGroup::ColorBulb,
            TapoDeviceType::L535 => CapabilityGroup::ColorBulb,
            TapoDeviceType::L630 => CapabilityGroup::ColorBulb,
            TapoDeviceType::L900 => CapabilityGroup::RgbStrip,
            TapoDeviceType::L920 => CapabilityGroup::RgbicStrip,
            TapoDeviceType::L930 => CapabilityGroup::RgbicStrip,
            TapoDeviceType::P100 => CapabilityGroup::Plug,
            TapoDeviceType::P105 => CapabilityGroup::Plug,
            TapoDeviceType::P110 => CapabilityGroup::EnergyPlug,
            TapoDeviceType::P110M => CapabilityGroup::EnergyPlug,
            TapoDeviceType::P115 => CapabilityGroup::EnergyPlug,
            TapoDeviceType::P300 => CapabilityGroup::PowerStrip,
            TapoDeviceType::P304 => CapabilityGroup::PowerStrip,
            TapoDeviceType::P304M => CapabilityGroup::PowerStrip,
            TapoDeviceType::P316 => CapabilityGroup::PowerStrip,
        }
    }

    /// The model whose driver protocol this model speaks; see
    /// `spec_driver_model`.
    pub fn driver_model(&self) -> (r: TapoDeviceType)
        ensures
            r == spec_driver_model(*self),
    {
        match self {
            TapoDeviceType::P110M => TapoDeviceType::P110,
            TapoDeviceType::P304M => TapoDeviceType::P304,
            _ => *self,
        }
    }
}

/// The model a route segment names.
pub open spec fn spec_parse_model_segment(s: Seq<char>) -> Option<TapoDeviceType> {
    if s == "l510"@ {
        Some(TapoDeviceType::L510)
    } else if s == "l520"@ {
        Some(TapoDeviceType::L520)
    } else if s == "l530"@ {
        Some(TapoDeviceType::L530)
    } else if s == "l535"@ {
        Some(TapoDeviceType::L535)
    } else if s == "l610"@ {
        Some(TapoDeviceType::L610)
    } else if s == "l630"@ {
        Some(TapoDeviceType::L630)
    } else if s == "l900"@ {
        Some(TapoDeviceType::L900)
    } else if s == "l920"@ {
        Some(TapoDeviceType::L920)
    } else if s == "l930"@ {
        Some(TapoDeviceType::L930)
    } else if s == "p100"@ {
        Some(TapoDeviceType::P100)
    } else if s == "p105"@ {
        Some(TapoDeviceType::P105)
    } else if s == "p110"@ {
        Some(TapoDeviceType::P110)
    } else if s == "p110m"@ {
        Some(TapoDeviceType::P110M)
    } else if s == "p115"@ {
        Some(TapoDeviceType::P115)
    } else if s == "p300"@ {
        Some(TapoDeviceType::P300)
    } else if s == "p304"@ {
        Some(TapoDeviceType::P304)
    } else if s == "p304m"@ {
        Some(TapoDeviceType::P304M)
    } else if s == "p316"@ {
        Some(TapoDeviceType::P316)
    } else {
        None
    }
}

/// Parses a route's model segment; mirrors `spec_parse_model_segment`.
pub fn parse_model_segment(s: &str) -> (r: Option<TapoDeviceType>)
    ensures
        r == spec_parse_model_segment(s@),
{
    if string_eq(s, "l510") {
        Some(TapoDeviceType::L510)
    } else if string_eq(s, "l520") {
        Some(TapoDeviceType::L520)
    } else if string_eq(s, "l530") {
        Some(TapoDeviceType::L530)
    } else if string_eq(s, "l535") {
        Some(TapoDeviceType::L535)
    } else if string_eq(s, "l610") {
        Some(TapoDeviceType::L610)
    } else if string_eq(s, "l630") {
        Some(TapoDeviceType::L630)
    } else if string_eq(s, "l900") {
        Some(TapoDeviceType::L900)
    } else if string_eq(s, "l920") {
        Some(TapoDeviceType::L920)
    } else if string_eq(s, "l930") {
        Some(TapoDeviceType::L930)
    } else if string_eq(s, "p100") {
        Some(TapoDeviceType::P100)
    } else if string_eq(s, "p105") {
        Some(TapoDeviceType::P105)
    } else if string_eq(s, "p110") {
        Some(TapoDeviceType::P110)
    } else if string_eq(s, "p110m") {
        Some(TapoDeviceType::P110M)
    } else if string_eq(s, "p115") {
        Some(TapoDeviceType::P115)
    } else if string_eq(s, "p300") {
        Some(TapoDeviceType::P300)
    } else if string_eq(s, "p304") {
        Some(TapoDeviceType::P304)
    } else if string_eq(s, "p304m") {
        Some(TapoDeviceType::P304M)
    } else if string_eq(s, "p316") {
        Some(TapoDeviceType::P316)
    } else {
        None
    }
}

/// Every action the gateway exposes, over all capability groups.
#[derive(Clone, Copy, Debug, PartialEq, Eq, Structural)]
pub enum ActionKind {
    On,
    Off,
    SetBrightness,
    SetColor,
    SetHueSaturation,
    SetColorTemperature,
    SetLightingEffect,
    GetDeviceInfo,
    GetDeviceUsage,
    GetEnergyUsage,
    GetHourlyEnergyData,
    GetDailyEnergyData,
    GetMonthlyEnergyData,
    GetCurrentPower,
    GetChildDeviceList,
}

impl ActionKind {
    /// The route segment of each action.
    pub open spec fn spec_route_name(&self) -> Seq<char> {
        match self {
            ActionKind::On => "on"@,
            ActionKind::Off => "off"@,
            ActionKind::SetBrightness => "set-brightness"@,
            ActionKind::SetColor => "set-color"@,
            ActionKind::SetHueSaturation => "set-hue-saturation"@,
            ActionKind::SetColorTemperature => "set-color-temperature"@,
            ActionKind::SetLightingEffect => "set-lighting-effect"@,
            ActionKind::GetDeviceInfo => "get-device-info"@,
            ActionKind::GetDeviceUsage => "get-device-usage"@,
            ActionKind::GetEnergyUsage => "get-energy-usage"@,
            ActionKind::GetHourlyEnergyData => "get-hourly-energy-data"@,
            ActionKind::GetDailyEnergyData => "get-daily-energy-data"@,
            ActionKind::GetMonthlyEnergyData => "get-monthly-energy-data"@,
            ActionKind::GetCurrentPower => "get-current-power"@,
            ActionKind::GetChildDeviceList => "get-child-device-list"@,
        }
    }

    pub fn route_name(&self) -> (r: &'static str)
        ensures
            r@ == self.spec_route_name(),
    {
        match self {
            ActionKind::On => "on",
            ActionKind::Off => "off",
            ActionKind::SetBrightness => "set-brightness",
            ActionKind::SetColor => "set-color",
            ActionKind::SetHueSaturation => "set-hue-saturation",
            ActionKind::SetColorTemperature => "set-color-temperature",
            ActionKind::SetLightingEffect => "set-lighting-effect",
            ActionKind::GetDeviceInfo => "get-device-info",
            ActionKind::GetDeviceUsage => "get-device-usage",
            ActionKind::GetEnergyUsage => "get-energy-usage",
            ActionKind::GetHourlyEnergyData => "get-hourly-energy-data",
            ActionKind::GetDailyEnergyData => "get-daily-energy-data",
            ActionKind::GetMonthlyEnergyData => "get-monthly-energy-data",
            ActionKind::GetCurrentPower => "get-current-power",
            ActionKind::GetChildDeviceList => "get-child-device-list",
        }
    }
}

/// The action a route segment names.
pub open spec fn spec_parse_action_name(s: Seq<char>) -> Option<ActionKind> {
    if s == "on"@ {
        Some(ActionKind::On)
    } else if s == "off"@ {
        Some(ActionKind::Off)
    } else if s == "set-brightness"@ {
        Some(ActionKind::SetBrightness)
    } else if s == "set-color"@ {
        Some(ActionKind::SetColor)
    } else if s == "set-hue-saturation"@ {
        Some(ActionKind::SetHueSaturation)
    } else if s == "set-color-temperature"@ {
        Some(ActionKind::SetColorTemperature)
    } else if s == "set-lighting-effect"@ {
        Some(ActionKind::SetLightingEffect)
    } else if s == "get-device-info"@ {
        Some(ActionKind::GetDeviceInfo)
    } else if s == "get-device-usage"@ {
        Some(ActionKind::GetDeviceUsage)
    } else if s == "get-energy-usage"@ {
        Some(ActionKind::GetEnergyUsage)
    } else if s == "get-hourly-energy-data"@ {
        Some(ActionKind::GetHourlyEnergyData)
    } else if s == "get-daily-energy-data"@ {
        Some(ActionKind::GetDailyEnergyData)
    } else if s == "get-monthly-energy-data"@ {
        Some(ActionKind::GetMonthlyEnergyData)
    } else if s == "get-current-power"@ {
        Some(ActionKind::GetCurrentPower)
    } else if s == "get-child-device-list"@ {
        Some(ActionKind::GetChildDeviceList)
    } else {
        None
    }
}

/// Parses a route's action segment; mirrors `spec_parse_action_name`.
pub fn parse_action_name(s: &str) -> (r: Option<ActionKind>)
    ensures
        r == spec_parse_action_name(s@),
{
    if string_eq(s, "on") {
        Some(ActionKind::On)
    } else if string_eq(s, "off") {
        Some(ActionKind::Off)
    } else if string_eq(s, "set-brightness") {
        Some(ActionKind::SetBrightness)
    } else if string_eq(s, "set-color") {
        Some(ActionKind::SetColor)
    } else if string_eq(s, "set-hue-saturation") {
        Some(ActionKind::SetHueSaturation)
    } else if string_eq(s, "set-color-temperature") {
        Some(ActionKind::SetColorTemperature)
    } else if string_eq(s, "set-lighting-effect") {
        Some(ActionKind::SetLightingEffect)
    } else if string_eq(s, "get-device-info") {
        Some(ActionKind::GetDeviceInfo)
    } else if string_eq(s, "get-device-usage") {
        Some(ActionKind::GetDeviceUsage)
    } else if string_eq(s, "get-energy-usage") {
        Some(ActionKind::GetEnergyUsage)
    } else if string_eq(s, "get-hourly-energy-data") {
        Some(ActionKind::GetHourlyEnergyData)
    } else if string_eq(s, "get-daily-energy-data") {
        Some(ActionKind::GetDailyEnergyData)
    } else if string_eq(s, "get-monthly-energy-data") {
        Some(ActionKind::GetMonthlyEnergyData)
    } else if string_eq(s, "get-current-power") {
        Some(ActionKind::GetCurrentPower)
    } else if string_eq(s, "get-child-device-list") {
        Some(ActionKind::GetChildDeviceList)
    } else {
        None
    }
}

/// The action set of each capability group, in route order. This table is
/// the whole authority on what a device may be asked to do.
pub open spec fn spec_group_actions(g: CapabilityGroup) -> Seq<ActionKind> {
    match g {
        CapabilityGroup::Bulb => seq![
            ActionKind::On,
            ActionKind::Off,
            ActionKind::SetBrightness,
            ActionKind::GetDeviceInfo,
            ActionKind::GetDeviceUsage,
        ],
        CapabilityGroup::ColorBulb => seq![
            ActionKind::On,
            ActionKind::Off,
            ActionKind::SetBrightness,
            ActionKind::SetColor,
            ActionKind::SetHueSaturation,
            ActionKind::SetColorTemperature,
            ActionKind::GetDeviceInfo,
            ActionKind::GetDeviceUsage,
        ],
        CapabilityGroup::RgbStrip => seq![
            ActionKind::On,
            ActionKind::Off,
            ActionKind::SetBrightness,
            ActionKind::SetColor,
            ActionKind::SetHueSaturation,
            ActionKind::SetColorTemperature,
            ActionKind::GetDeviceInfo,
            ActionKind::GetDeviceUsage,
        ],
        CapabilityGroup::RgbicStrip => seq![
            ActionKind::On,
            ActionKind::Off,
            ActionKind::SetBrightness,
            ActionKind::SetColor,
            ActionKind::SetHueSaturation,
            ActionKind::SetColorTemperature,
            ActionKind::SetLightingEffect,
            ActionKind::GetDeviceInfo,
            ActionKind::GetDeviceUsage,
        ],
        CapabilityGroup::Plug => seq![
            ActionKind::On,
            ActionKind::Off,
            ActionKind::GetDeviceInfo,
            ActionKind::GetDeviceUsage,
        ],
        CapabilityGroup::EnergyPlug => seq![
            ActionKind::On,
            ActionKind::Off,
            ActionKind::GetDeviceInfo,
            ActionKind::GetDeviceUsage,
            ActionKind::GetEnergyUsage,
            ActionKind::GetHourlyEnergyData,
            ActionKind::GetDailyEnergyData,
            ActionKind::GetMonthlyEnergyData,
            ActionKind::GetCurrentPower,
        ],
        CapabilityGroup::PowerStrip => seq![ActionKind::GetDeviceInfo, ActionKind::GetChildDeviceList],
    }
}

/// Whether a capability group declares an action. An action is invoked on a
/// device only when the device's group declares it.
pub open spec fn spec_action_supported(g: CapabilityGroup, a: ActionKind) -> bool {
    spec_group_actions(g).contains(a)
}

/// Exec check of `spec_action_supported`.
pub fn action_supported(g: CapabilityGroup, a: ActionKind) -> (r: bool)
    ensures
        r == spec_action_supported(g, a),
{
    let list = group_action_list(g);
    let mut i: usize = 0;
    while i < list.len()
        invariant
            0 <= i <= list@.len(),
            list@ == spec_group_actions(g),
            forall|j: int| 0 <= j < i ==> list@[j] != a,
        decreases list@.len() - i,
    {
        if list[i] == a {
            return true;
        }
        i += 1;
    }
    proof {
        assert(forall|j: int| 0 <= j < list@.len() ==> list@[j] != a);
    }
    false
}

/// The action set of a group, in route order; mirrors
/// `spec_group_actions`.
pub fn group_action_list(g: CapabilityGroup) -> (r: Vec<ActionKind>)
    ensures
        r@ == spec_group_actions(g),
{
    let mut v: Vec<ActionKind> = Vec::new();
    match g {
        CapabilityGroup::Bulb => {
            v.push(ActionKind::On);
            v.push(ActionKind::Off);
            v.push(ActionKind::SetBrightness);
            v.push(ActionKind::GetDeviceInfo);
            v.push(ActionKind::GetDeviceUsage);
        },
        CapabilityGroup::ColorBulb => {
            v.push(ActionKind::On);
            v.push(ActionKind::Off);
            v.push(ActionKind::SetBrightness);
            v.push(ActionKind::SetColor);
            v.push(ActionKind::SetHueSaturation);
            v.push(ActionKind::SetColorTemperature);
            v.push(ActionKind::GetDeviceInfo);
            v.push(ActionKind::GetDeviceUsage);
        },
        CapabilityGroup::RgbStrip => {
            v.push(ActionKind::On);
            v.push(ActionKind::Off);
            v.push(ActionKind::SetBrightness);
            v.push(ActionKind::SetColor);
            v.push(ActionKind::SetHueSaturation);
            v.push(ActionKind::SetColorTemperature);
            v.push(ActionKind::GetDeviceInfo);
            v.push(ActionKind::GetDeviceUsage);
        },
        CapabilityGroup::RgbicStrip => {
            v.push(ActionKind::On);
            v.push(ActionKind::Off);
            v.push(ActionKind::SetBrightness);
            v.push(ActionKind::SetColor);
            v.push(ActionKind::SetHueSaturation);
            v.push(ActionKind::SetColorTemperature);
            v.push(ActionKind::SetLightingEffect);
            v.push(ActionKind::GetDeviceInfo);
            v.push(ActionKind::GetDeviceUsage);
        },
        CapabilityGroup::Plug => {
            v.push(ActionKind::On);
            v.push(ActionKind::Off);
            v.push(ActionKind::GetDeviceInfo);
            v.push(ActionKind::GetDeviceUsage);
        },
        CapabilityGroup::EnergyPlug => {
            v.push(ActionKind::On);
            v.push(ActionKind::Off);
            v.push(ActionKind::GetDeviceInfo);
            v.push(ActionKind::GetDeviceUsage);
            v.push(ActionKind::GetEnergyUsage);
            v.push(ActionKind::GetHourlyEnergyData);
            v.push(ActionKind::GetDailyEnergyData);
            v.push(ActionKind::GetMonthlyEnergyData);
            v.push(ActionKind::GetCurrentPower);
        },
        CapabilityGroup::PowerStrip => {
            v.push(ActionKind::GetDeviceInfo);
            v.push(ActionKind::GetChildDeviceList);
        },
    }
    proof {
        assert(v@ =~= spec_group_actions(g));
    }
    v
}

/// The named preset colors a color-capable device accepts, as the driver
/// library defines them.
#[derive(Clone, Copy, Debug, PartialEq, Eq, Structural)]
pub enum Color {
    CoolWhite,
    Daylight,
    Ivory,
    WarmWhite,
    Incandescent,
    Candlelight,
    Snow,
    GhostWhite,
    AliceBlue,
    LightGoldenrod,
    LemonChiffon,
    AntiqueWhite,
    Gold,
    Peru,
    Chocolate,
    SandyBrown,
    Coral,
    Pumpkin,
    Tomato,
    Vermilion,
    OrangeRed,
    Pink,
    Crimson,
    DarkRed,
    HotPink,
    Smitten,
    MediumPurple,
    BlueViolet,
    Indigo,
    LightSkyBlue,
    CornflowerBlue,
    Ultramarine,
    DeepSkyBlue,
    Azure,
    NavyBlue,
    LightTurquoise,
    Aquamarine,
    Turquoise,
    LightGreen,
    Lime,
    ForestGreen,
}

/// The named color a parameter text names.
pub open spec fn spec_parse_color(s: Seq<char>) -> Option<Color> {
    if s == "CoolWhite"@ {
        Some(Color::CoolWhite)
    } else if s == "Daylight"@ {
        Some(Color::Daylight)
    } else if s == "Ivory"@ {
        Some(Color::Ivory)
    } else if s == "WarmWhite"@ {
        Some(Color::WarmWhite)
    } else if s == "Incandescent"@ {
        Some(Color::Incandescent)
    } else if s == "Candlelight"@ {
        Some(Color::Candlelight)
    } else if s == "Snow"@ {
        Some(Color::Snow)
    } else if s == "GhostWhite"@ {
        Some(Color::GhostWhite)
    } else if s == "AliceBlue"@ {
        Some(Color::AliceBlue)
    } else if s == "LightGoldenrod"@ {
        Some(Color::LightGoldenrod)
    } else if s == "LemonChiffon"@ {
        Some(Color::LemonChiffon)
    } else if s == "AntiqueWhite"@ {
        Some(Color::AntiqueWhite)
    } else if s == "Gold"@ {
        Some(Color::Gold)
    } else if s == "Peru"@ {
        Some(Color::Peru)
    } else if s == "Chocolate"@ {
        Some(Color::Chocolate)
    } else if s == "SandyBrown"@ {
        Some(Color::SandyBrown)
    } else if s == "Coral"@ {
        Some(Color::Coral)
    } else if s == "Pumpkin"@ {
        Some(Color::Pumpkin)
    } else if s == "Tomato"@ {
        Some(Color::Tomato)
    } else if s == "Vermilion"@ {
        Some(Color::Vermilion)
    } else if s == "OrangeRed"@ {
        Some(Color::OrangeRed)
    } else if s == "Pink"@ {
        Some(Color::Pink)
    } else if s == "Crimson"@ {
        Some(Color::Crimson)
    } else if s == "DarkRed"@ {
        Some(Color::DarkRed)
    } else if s == "HotPink"@ {
        Some(Color::HotPink)
    } else if s == "Smitten"@ {
        Some(Color::Smitten)
    } else if s == "MediumPurple"@ {
        Some(Color::MediumPurple)
    } else if s == "BlueViolet"@ {
        Some(Color::BlueViolet)
    } else if s == "Indigo"@ {
        Some(Color::Indigo)
    } else if s == "LightSkyBlue"@ {
        Some(Color::LightSkyBlue)
    } else if s == "CornflowerBlue"@ {
        Some(Color::CornflowerBlue)
    } else if s == "Ultramarine"@ {
        Some(Color::Ultramarine)
    } else if s == "DeepSkyBlue"@ {
        Some(Color::DeepSkyBlue)
    } else if s == "Azure"@ {
        Some(Color::Azure)
    } else if s == "NavyBlue"@ {
        Some(Color::NavyBlue)
    } else if s == "LightTurquoise"@ {
        Some(Color::LightTurquoise)
    } else if s == "Aquamarine"@ {
        Some(Color::Aquamarine)
    } else if s == "Turquoise"@ {
        Some(Color::Turquoise)
    } else if s == "LightGreen"@ {
        Some(Color::LightGreen)
    } else if s == "Lime"@ {
        Some(Color::Lime)
    } else if s == "ForestGreen"@ {
        Some(Color::ForestGreen)
    } else {
        None
    }
}

/// Parses a named color parameter; mirrors `spec_parse_color`.
pub fn parse_color(s: &str) -> (r: Option<Color>)
    ensures
        r == spec_parse_color(s@),
{
    if string_eq(s, "CoolWhite") {
        Some(Color::CoolWhite)
    } else if string_eq(s, "Daylight") {
        Some(Color::Daylight)
    } else if string_eq(s, "Ivory") {
        Some(Color::Ivory)
    } else if string_eq(s, "WarmWhite") {
        Some(Color::WarmWhite)
    } else if string_eq(s, "Incandescent") {
        Some(Color::Incandescent)
    } else if string_eq(s, "Candlelight") {
        Some(Color::Candlelight)
    } else if string_eq(s, "Snow") {
        Some(Color::Snow)
    } else if string_eq(s, "GhostWhite") {
        Some(Color::GhostWhite)
    } else if string_eq(s, "AliceBlue") {
        Some(Color::AliceBlue)
    } else if string_eq(s, "LightGoldenrod") {
        Some(Color::LightGoldenrod)
    } else if string_eq(s, "LemonChiffon") {
        Some(Color::LemonChiffon)
    } else if string_eq(s, "AntiqueWhite") {
        Some(Color::AntiqueWhite)
    } else if string_eq(s, "Gold") {
        Some(Color::Gold)
    } else if string_eq(s, "Peru") {
        Some(Color::Peru)
    } else if string_eq(s, "Chocolate") {
        Some(Color::Chocolate)
    } else if string_eq(s, "SandyBrown") {
        Some(Color::SandyBrown)
    } else if string_eq(s, "Coral") {
        Some(Color::Coral)
    } else if string_eq(s, "Pumpkin") {
        Some(Color::Pumpkin)
    } else if string_eq(s, "Tomato") {
        Some(Color::Tomato)
    } else if string_eq(s, "Vermilion") {
        Some(Color::Vermilion)
    } else if string_eq(s, "OrangeRed") {
        Some(Color::OrangeRed)
    } else if string_eq(s, "Pink") {
        Some(Color::Pink)
    } else if string_eq(s, "Crimson") {
        Some(Color::Crimson)
    } else if string_eq(s, "DarkRed") {
        Some(Color::DarkRed)
    } else if string_eq(s, "HotPink") {
        Some(Color::HotPink)
    } else if string_eq(s, "Smitten") {
        Some(Color::Smitten)
    } else if string_eq(s, "MediumPurple") {
        Some(Color::MediumPurple)
    } else if string_eq(s, "BlueViolet") {
        Some(Color::BlueViolet)
    } else if string_eq(s, "Indigo") {
        Some(Color::Indigo)
    } else if string_eq(s, "LightSkyBlue") {
        Some(Color::LightSkyBlue)
    } else if string_eq(s, "CornflowerBlue") {
        Some(Color::CornflowerBlue)
    } else if string_eq(s, "Ultramarine") {
        Some(Color::Ultramarine)
    } else if string_eq(s, "DeepSkyBlue") {
        Some(Color::DeepSkyBlue)
    } else if string_eq(s, "Azure") {
        Some(Color::Azure)
    } else if string_eq(s, "NavyBlue") {
        Some(Color::NavyBlue)
    } else if string_eq(s, "LightTurquoise") {
        Some(Color::LightTurquoise)
    } else if string_eq(s, "Aquamarine") {
        Some(Color::Aquamarine)
    } else if string_eq(s, "Turquoise") {
        Some(Color::Turquoise)
    } else if string_eq(s, "LightGreen") {
        Some(Color::LightGreen)
    } else if string_eq(s, "Lime") {
        Some(Color::Lime)
    } else if string_eq(s, "ForestGreen") {
        Some(Color::ForestGreen)
    } else {
        None
    }
}

/// The lighting-effect presets an RGBIC light strip accepts, as the driver
/// library defines them.
#[derive(Clone, Copy, Debug, PartialEq, Eq, Structural)]
pub enum LightingEffectPreset {
    Aurora,
    BubblingCauldron,
    CandyCane,
    Christmas,
    Flicker,
    GrandmasChristmasLights,
    Hanukkah,
    HauntedMansion,
    Icicle,
    Lightning,
    Ocean,
    Rainbow,
    Raindrop,
    Spring,
    Sunrise,
    Sunset,
    Valentines,
}

/// The lighting-effect preset a parameter text names.
pub open spec fn spec_parse_preset(s: Seq<char>) -> Option<LightingEffectPreset> {
    if s == "Aurora"@ {
        Some(LightingEffectPreset::Aurora)
    } else if s == "BubblingCauldron"@ {
        Some(LightingEffectPreset::BubblingCauldron)
    } else if s == "CandyCane"@ {
        Some(LightingEffectPreset::CandyCane)
    } else if s == "Christmas"@ {
        Some(LightingEffectPreset::Christmas)
    } else if s == "Flicker"@ {
        Some(LightingEffectPreset::Flicker)
    } else if s == "GrandmasChristmasLights"@ {
        Some(LightingEffectPreset::GrandmasChristmasLights)
    } else if s == "Hanukkah"@ {
        Some(LightingEffectPreset::Hanukkah)
    } else if s == "HauntedMansion"@ {
        Some(LightingEffectPreset::HauntedMansion)
    } else if s == "Icicle"@ {
        Some(LightingEffectPreset::Icicle)
    } else if s == "Lightning"@ {
        Some(LightingEffectPreset::Lightning)
    } else if s == "Ocean"@ {
        Some(LightingEffectPreset::Ocean)
    } else if s == "Rainbow"@ {
        Some(LightingEffectPreset::Rainbow)
    } else if s == "Raindrop"@ {
        Some(LightingEffectPreset::Raindrop)
    } else if s == "Spring"@ {
        Some(LightingEffectPreset::Spring)
    } else if s == "Sunrise"@ {
        Some(LightingEffectPreset::Sunrise)
    } else if s == "Sunset"@ {
        Some(LightingEffectPreset::Sunset)
    } else if s == "Valentines"@ {
        Some(LightingEffectPreset::Valentines)
    } else {
        None
    }
}

/// Parses a lighting-effect parameter; mirrors `spec_parse_preset`.
pub fn parse_preset(s: &str) -> (r: Option<LightingEffectPreset>)
    ensures
        r == spec_parse_preset(s@),
{
    if string_eq(s, "Aurora") {
        Some(LightingEffectPreset::Aurora)
    } else if string_eq(s, "BubblingCauldron") {
        Some(LightingEffectPreset::BubblingCauldron)
    } else if string_eq(s, "CandyCane") {
        Some(LightingEffectPreset::CandyCane)
    } else if string_eq(s, "Christmas") {
        Some(LightingEffectPreset::Christmas)
    } else if string_eq(s, "Flicker") {
        Some(LightingEffectPreset::Flicker)
    } else if string_eq(s, "GrandmasChristmasLights") {
        Some(LightingEffectPreset::GrandmasChristmasLights)
    } else if string_eq(s, "Hanukkah") {
        Some(LightingEffectPreset::Hanukkah)
    } else if string_eq(s, "HauntedMansion") {
        Some(LightingEffectPreset::HauntedMansion)
    } else if string_eq(s, "Icicle") {
        Some(LightingEffectPreset::Icicle)
    } else if string_eq(s, "Lightning") {
        Some(LightingEffectPreset::Lightning)
    } else if string_eq(s, "Ocean") {
        Some(LightingEffectPreset::Ocean)
    } else if string_eq(s, "Rainbow") {
        Some(LightingEffectPreset::Rainbow)
    } else if string_eq(s, "Raindrop") {
        Some(LightingEffectPreset::Raindrop)
    } else if string_eq(s, "Spring") {
        Some(LightingEffectPreset::Spring)
    } else if string_eq(s, "Sunrise") {
        Some(LightingEffectPreset::Sunrise)
    } else if string_eq(s, "Sunset") {
        Some(LightingEffectPreset::Sunset)
    } else if string_eq(s, "Valentines") {
        Some(LightingEffectPreset::Valentines)
    } else {
        None
    }
}

/// One fully validated call into the device driver: the action and its
/// checked parameters, ready to run against a device handle.
#[derive(Clone, Copy, Debug, PartialEq, Eq, Structural)]
pub enum Invocation {
    On,
    Off,
    SetBrightness { level: u8 },
    SetColor { color: Color },
    SetHueSaturation { hue: u16, saturation: u8 },
    SetColorTemperature { kelvin: u16 },
    SetLightingEffect { preset: LightingEffectPreset },
    GetDeviceInfo,
    GetDeviceUsage,
    GetEnergyUsage,
    GetHourlyEnergyData { start: Date, end: Date },
    GetDailyEnergyData { start: Date },
    GetMonthlyEnergyData { start: Date },
    GetCurrentPower,
    GetChildDeviceList,
}

/// The invocation an action's query parameters describe, when they are well
/// formed: brightness runs 0 to 100, hue 0 to 360, saturation 0 to 100, a
/// date range is forwarded exactly as given, and a missing end date falls
/// back to the start date.
pub open spec fn spec_parse_invocation(a: ActionKind, ps: Seq<(String, String)>) -> Option<
    Invocation,
> {
    match a {
        ActionKind::On => Some(Invocation::On),
        ActionKind::Off => Some(Invocation::Off),
        ActionKind::GetDeviceInfo => Some(Invocation::GetDeviceInfo),
        ActionKind::GetDeviceUsage => Some(Invocation::GetDeviceUsage),
        ActionKind::GetEnergyUsage => Some(Invocation::GetEnergyUsage),
        ActionKind::GetCurrentPower => Some(Invocation::GetCurrentPower),
        ActionKind::GetChildDeviceList => Some(Invocation::GetChildDeviceList),
        ActionKind::SetBrightness => match spec_first_value(ps, "level"@) {
            Some(v) => match spec_parse_uint(v, 255) {
                Some(n) => if n <= 100 {
                    Some(Invocation::SetBrightness { level: n as u8 })
                } else {
                    None
                },
                None => None,
            },
            None => None,
        },
        ActionKind::SetColor => match spec_first_value(ps, "color"@) {
            Some(v) => match spec_parse_color(v) {
                Some(c) => Some(Invocation::SetColor { color: c }),
                None => None,
            },
            None => None,
        },
        ActionKind::SetHueSaturation => match spec_first_value(ps, "hue"@) {
            Some(hv) => match spec_parse_uint(hv, 65535) {
                Some(h) => if h <= 360 {
                    match spec_first_value(ps, "saturation"@) {
                        Some(sv) => match spec_parse_uint(sv, 255) {
                            Some(sat) => if sat <= 100 {
                                Some(
                                    Invocation::SetHueSaturation {
                                        hue: h as u16,
                                        saturation: sat as u8,
                                    },
                                )
                            } else {
                                None
                            },
                            None => None,
                        },
                        None => None,
                    }
                } else {
                    None
                },
                None => None,
            },
            None => None,
        },
        ActionKind::SetColorTemperature => match spec_first_value(ps, "color_temperature"@) {
            Some(v) => match spec_parse_uint(v, 65535) {
                Some(k) => Some(Invocation::SetColorTemperature { kelvin: k as u16 }),
                None => None,
            },
            None => None,
        },
        ActionKind::SetLightingEffect => match spec_first_value(ps, "lighting_effect"@) {
            Some(v) => match spec_parse_preset(v) {
                Some(p) => Some(Invocation::SetLightingEffect { preset: p }),
                None => None,
            },
            None => None,
        },
        ActionKind::GetHourlyEnergyData => match spec_first_value(ps, "start_date"@) {
            Some(sv) => match spec_parse_date(sv) {
                Some(start) => match spec_first_value(ps, "end_date"@) {
                    None => Some(Invocation::GetHourlyEnergyData { start, end: start }),
                    Some(ev) => match spec_parse_date(ev) {
                        Some(end) => Some(Invocation::GetHourlyEnergyData { start, end }),
                        None => None,
                    },
                },
                None => None,
            },
            None => None,
        },
        ActionKind::GetDailyEnergyData => match spec_first_value(ps, "start_date"@) {
            Some(sv) => match spec_parse_date(sv) {
                Some(start) => Some(Invocation::GetDailyEnergyData { start }),
                None => None,
            },
            None => None,
        },
        ActionKind::GetMonthlyEnergyData => match spec_first_value(ps, "start_date"@) {
            Some(sv) => match spec_parse_date(sv) {
                Some(start) => Some(Invocation::GetMonthlyEnergyData { start }),
                None => None,
            },
            None => None,
        },
    }
}

/// Parses and validates an action's query parameters; mirrors
/// `spec_parse_invocation`.
pub fn parse_invocation(a: ActionKind, pairs: &Vec<(String, String)>) -> (r: Option<Invocation>)
    ensures
        r == spec_parse_invocation(a, pairs@),
{
    match a {
        ActionKind::On => Some(Invocation::On),
        ActionKind::Off => Some(Invocation::Off),
        ActionKind::GetDeviceInfo => Some(Invocation::GetDeviceInfo),
        ActionKind::GetDeviceUsage => Some(Invocation::GetDeviceUsage),
        ActionKind::GetEnergyUsage => Some(Invocation::GetEnergyUsage),
        ActionKind::GetCurrentPower => Some(Invocation::GetCurrentPower),
        ActionKind::GetChildDeviceList => Some(Invocation::GetChildDeviceList),
        ActionKind::SetBrightness => {
            match find_param(pairs, "level") {
                Some(v) => match parse_u8_param(v.as_str()) {
                    Some(n) => if n <= 100 {
                        Some(Invocation::SetBrightness { level: n })
                    } else {
                        None
                    },
                    None => None,
                },
                None => None,
            }
        },
        ActionKind::SetColor => {
            match find_param(pairs, "color") {
                Some(v) => match parse_color(v.as_str()) {
                    Some(c) => Some(Invocation::SetColor { color: c }),
                    None => None,
                },
                None => None,
            }
        },
        ActionKind::SetHueSaturation => {
            match find_param(pairs, "hue") {
                Some(hv) => match parse_u16_param(hv.as_str()) {
                    Some(h) => if h <= 360 {
                        match find_param(pairs, "saturation") {
                            Some(sv) => match parse_u8_param(sv.as_str()) {
                                Some(sat) => if sat <= 100 {
                                    Some(Invocation::SetHueSaturation { hue: h, saturation: sat })
                                } else {
                                    None
                                },
                                None => None,
                            },
                            None => None,
                        }
                    } else {
                        None
                    },
                    None => None,
                },
                None => None,
            }
        },
        ActionKind::SetColorTemperature => {
            match find_param(pairs, "color_temperature") {
                Some(v) => match parse_u16_param(v.as_str()) {
                    Some(k) => Some(Invocation::SetColorTemperature { kelvin: k }),
                    None => None,
                },
                None => None,
            }
        },
        ActionKind::SetLightingEffect => {
            match find_param(pairs, "lighting_effect") {
                Some(v) => match parse_preset(v.as_str()) {
                    Some(p) => Some(Invocation::SetLightingEffect { preset: p }),
                    None => None,
                },
                None => None,
            }
        },
        ActionKind::GetHourlyEnergyData => {
            match find_param(pairs, "start_date") {
                Some(sv) => match crate::server::dates::parse_date(sv.as_str()) {
                    Some(start) => match find_param(pairs, "end_date") {
                        None => Some(Invocation::GetHourlyEnergyData { start, end: start }),
                        Some(ev) => match crate::server::dates::parse_date(ev.as_str()) {
                            Some(end) => Some(Invocation::GetHourlyEnergyData { start, end }),
                            None => None,
                        },
                    },
                    None => None,
                },
                None => None,
            }
        },
        ActionKind::GetDailyEnergyData => {
            match find_param(pairs, "start_date") {
                Some(sv) => match crate::server::dates::parse_date(sv.as_str()) {
                    Some(start) => Some(Invocation::GetDailyEnergyData { start }),
                    None => None,
                },
                None => None,
            }
        },
        ActionKind::GetMonthlyEnergyData => {
            match find_param(pairs, "start_date") {
                Some(sv) => match crate::server::dates::parse_date(sv.as_str()) {
                    Some(start) => Some(Invocation::GetMonthlyEnergyData { start }),
                    None => None,
                },
                None => None,
            }
        },
    }
}

impl CapabilityGroup {
    /// The model names of a group's members, joined for the mismatch
    /// message.
    pub open spec fn spec_members_text(&self) -> Seq<char> {
        match self {
            CapabilityGroup::Bulb => "L510, L520, L610"@,
            CapabilityGroup::ColorBulb => "L530, L535, L630"@,
            CapabilityGroup::RgbStrip => "L900"@,
            CapabilityGroup::RgbicStrip => "L920, L930"@,
            CapabilityGroup::Plug => "P100, P105"@,
            CapabilityGroup::EnergyPlug => "P110, P110M, P115"@,
            CapabilityGroup::PowerStrip => "P300, P304, P304M, P316"@,
        }
    }

    pub fn members_text(&self) -> (r: &'static str)
        ensures
            r@ == self.spec_members_text(),
    {
        match self {
            CapabilityGroup::Bulb => "L510, L520, L610",
            CapabilityGroup::ColorBulb => "L530, L535, L630",
            CapabilityGroup::RgbStrip => "L900",
            CapabilityGroup::RgbicStrip => "L920, L930",
            CapabilityGroup::Plug => "P100, P105",
            CapabilityGroup::EnergyPlug => "P110, P110M, P115",
            CapabilityGroup::PowerStrip => "P300, P304, P304M, P316",
        }
    }
}

/// The error text of a category mismatch, naming the permitted models and
/// the model the request actually reached.
pub open spec fn spec_mismatch_message(route_model: TapoDeviceType, dt: TapoDeviceType) -> Seq<
    char,
> {
    "This route is reserved to "@ + spec_group_of(route_model).spec_members_text()
        + " devices, but the provided name refers to a "@ + dt.spec_model_name() + " device"@
}

/// Builds the category-mismatch message; mirrors `spec_mismatch_message`.
pub fn mismatch_message(route_model: TapoDeviceType, dt: TapoDeviceType) -> (r: String)
    ensures
        r@ == spec_mismatch_message(route_model, dt),
{
    let group = route_model.group();
    let r = String::from_str("This route is reserved to ").concat(group.members_text()).concat(
        " devices, but the provided name refers to a ",
    ).concat(dt.model_name()).concat(" device");
    proof {
        assert(r@ =~= spec_mismatch_message(route_model, dt));
    }
    r
}

/// The index of the device carrying a name; under the registry invariant it
/// is the only one.
pub open spec fn spec_device_index(ds: Seq<crate::devices::TapoDevice>, name: Seq<char>) -> int {
    choose|i: int| 0 <= i < ds.len() && (#[trigger] ds[i]).spec_conn_infos().name@ == name
}

/// Routes one action request: validates its parameters, resolves the device
/// by name in the current generation, and checks the device's category
/// against the route's, in that order. Only a request that passes all three
/// yields an invocation; in particular, an action invoked against a device
/// of another capability group is refused as a client error naming the
/// permitted models, before any driver call can exist.
pub fn dispatch(
    loaded: &LoadedConfig,
    route_model: TapoDeviceType,
    action: ActionKind,
    pairs: &Vec<(String, String)>,
) -> (r: ApiResult<(usize, Invocation)>)
    requires
        loaded.wf(),
    ensures
        match spec_first_value(pairs@, "device"@) {
            None => {
                &&& r is Err
                &&& r->Err_0.spec_code() == STATUS_BAD_REQUEST
                &&& r->Err_0.spec_message() == "Invalid query parameters"@
            },
            Some(name) => match spec_parse_invocation(action, pairs@) {
                None => {
                    &&& r is Err
                    &&& r->Err_0.spec_code() == STATUS_BAD_REQUEST
                    &&& r->Err_0.spec_message() == "Invalid query parameters"@
                },
                Some(inv) => if !contains_name(loaded.devices@, name) {
                    &&& r is Err
                    &&& r->Err_0.spec_code() == STATUS_NOT_FOUND
                    &&& r->Err_0.spec_message() == "Provided device name was not found"@
                } else {
                    let i = spec_device_index(loaded.devices@, name);
                    let dt = loaded.devices@[i].spec_conn_infos().device_type;
                    if spec_group_of(dt) == spec_group_of(route_model) {
                        r == Ok::<(usize, Invocation), ApiError>((i as usize, inv))
                    } else {
                        &&& r is Err
                        &&& r->Err_0.spec_code() == STATUS_BAD_REQUEST
                        &&& r->Err_0.spec_message() == spec_mismatch_message(route_model, dt)
                    }
                },
            },
        },
{
    let device_param = match find_param(pairs, "device") {
        Some(v) => v,
        None => {
            return Err(
                ApiError::new(STATUS_BAD_REQUEST, String::from_str("Invalid query parameters")),
            );
        },
    };
    let inv = match parse_invocation(action, pairs) {
        Some(x) => x,
        None => {
            return Err(
                ApiError::new(STATUS_BAD_REQUEST, String::from_str("Invalid query parameters")),
            );
        },
    };
    match loaded.find_device(device_param.as_str()) {
        None => Err(
            ApiError::new(STATUS_NOT_FOUND, String::from_str("Provided device name was not found")),
        ),
        Some(i) => {
            proof {
                assert(contains_name(loaded.devices@, device_param@));
                let j = spec_device_index(loaded.devices@, device_param@);
                if j != i as int {
                    assert(loaded.devices@[j].spec_conn_infos().name@ == device_param@);
                    assert(loaded.devices@[i as int].spec_conn_infos().name@ == device_param@);
                    assert(false);
                }
            }
            let dt = loaded.devices[i].conn_infos().device_type;
            if dt.group() == route_model.group() {
                Ok((i, inv))
            } else {
                Err(ApiError::new(STATUS_BAD_REQUEST, mismatch_message(route_model, dt)))
            }
        },
    }
}

/// Resolves the two route segments of an action request: the route exists
/// exactly when the model is known and its group declares the action.
pub fn resolve_route(model_seg: &str, action_seg: &str) -> (r: Option<(TapoDeviceType, ActionKind)>)
    ensures
        r == match (spec_parse_model_segment(model_seg@), spec_parse_action_name(action_seg@)) {
            (Some(m), Some(a)) => if spec_action_supported(spec_group_of(m), a) {
                Some((m, a))
            } else {
                None::<(TapoDeviceType, ActionKind)>
            },
            _ => None::<(TapoDeviceType, ActionKind)>,
        },
{
    match (parse_model_segment(model_seg), parse_action_name(action_seg)) {
        (Some(m), Some(a)) => {
            if action_supported(m.group(), a) {
                Some((m, a))
            } else {
                None
            }
        },
        _ => None,
    }
}

/// Every model, in the order the route table lists them: group by group,
/// each group's primary model first, then its aliases.
pub open spec fn spec_model_order() -> Seq<TapoDeviceType> {
    seq![
        TapoDeviceType::L510,
        TapoDeviceType::L520,
        TapoDeviceType::L610,
        TapoDeviceType::L530,
        TapoDeviceType::L535,
        TapoDeviceType::L630,
        TapoDeviceType::L900,
        TapoDeviceType::L920,
        TapoDeviceType::L930,
        TapoDeviceType::P100,
        TapoDeviceType::P105,
        TapoDeviceType::P110,
        TapoDeviceType::P110M,
        TapoDeviceType::P115,
        TapoDeviceType::P300,
        TapoDeviceType::P304,
        TapoDeviceType::P304M,
        TapoDeviceType::P316,
    ]
}

/// The route of one action on one model.
pub open spec fn spec_action_uri(m: TapoDeviceType, a: ActionKind) -> Seq<char> {
    seq!['/'] + m.spec_route_segment() + seq!['/'] + a.spec_route_name()
}

/// The routes of one model, in its group's action order.
pub open spec fn spec_model_uris(m: TapoDeviceType) -> Seq<Seq<char>> {
    spec_group_actions(spec_group_of(m)).map_values(|a: ActionKind| spec_action_uri(m, a))
}

/// The routes of a list of models, in order.
pub open spec fn spec_uris_from(ms: Seq<TapoDeviceType>) -> Seq<Seq<char>>
    decreases ms.len(),
{
    if ms.len() == 0 {
        Seq::empty()
    } else {
        spec_uris_from(ms.drop_last()) + spec_model_uris(ms.last())
    }
}

/// Every action route the gateway installs, in route-table order.
pub open spec fn spec_action_uris() -> Seq<Seq<char>> {
    spec_uris_from(spec_model_order())
}

/// The models in route-table order; mirrors `spec_model_order`.
pub fn model_order() -> (r: Vec<TapoDeviceType>)
    ensures
        r@ == spec_model_order(),
{
    let mut v: Vec<TapoDeviceType> = Vec::new();
    v.push(TapoDeviceType::L510);
    v.push(TapoDeviceType::L520);
    v.push(TapoDeviceType::L610);
    v.push(TapoDeviceType::L530);
    v.push(TapoDeviceType::L535);
    v.push(TapoDeviceType::L630);
    v.push(TapoDeviceType::L900);
    v.push(TapoDeviceType::L920);
    v.push(TapoDeviceType::L930);
    v.push(TapoDeviceType::P100);
    v.push(TapoDeviceType::P105);
    v.push(TapoDeviceType::P110);
    v.push(TapoDeviceType::P110M);
    v.push(TapoDeviceType::P115);
    v.push(TapoDeviceType::P300);
    v.push(TapoDeviceType::P304);
    v.push(TapoDeviceType::P304M);
    v.push(TapoDeviceType::P316);
    proof {
        assert(v@ =~= spec_model_order());
    }
    v
}

/// Lists every installed action route, for the route index; mirrors
/// `spec_action_uris`.
pub fn action_uris() -> (r: Vec<String>)
    ensures
        r.deep_view() == spec_action_uris(),
{
    let models = model_order();
    let mut out: Vec<String> = Vec::new();
    proof {
        assert(models@.take(0) =~= Seq::<TapoDeviceType>::empty());
    }
    let mut i: usize = 0;
    while i < models.len()
        invariant
            0 <= i <= models@.len(),
            models@ == spec_model_order(),
            out@.len() == spec_uris_from(models@.take(i as int)).len(),
            forall|k: int|
                0 <= k < out@.len() ==> out@[k]@ == spec_uris_from(models@.take(i as int))[k],
        decreases models@.len() - i,
    {
        let m = models[i];
        let actions = group_action_list(m.group());
        let ghost entered = spec_uris_from(models@.take(i as int));
        let mut j: usize = 0;
        while j < actions.len()
            invariant
                0 <= j <= actions@.len(),
                actions@ == spec_group_actions(spec_group_of(m)),
                entered == spec_uris_from(models@.take(i as int)),
                out@.len() == entered.len() + j,
                forall|k: int| 0 <= k < entered.len() ==> out@[k]@ == entered[k],
                forall|k: int|
                    0 <= k < j ==> out@[entered.len() + k]@ == spec_action_uri(
                        m,
                        actions@[k],
                    ),
            decreases actions@.len() - j,
        {
            let a = actions[j];
            let uri = String::from_str("/").concat(m.route_segment()).concat("/").concat(
                a.route_name(),
            );
            proof {
                reveal_strlit("/");
                assert(uri@ =~= spec_action_uri(m, a));
            }
            out.push(uri);
            j += 1;
        }
        proof {
            assert(models@.take(i + 1).drop_last() =~= models@.take(i as int));
            assert(models@.take(i + 1).last() == m);
            assert(spec_uris_from(models@.take(i + 1)) == entered + spec_model_uris(m));
            assert(forall|k: int|
                0 <= k < spec_model_uris(m).len() ==> spec_model_uris(m)[k] == spec_action_uri(
                    m,
                    spec_group_actions(spec_group_of(m))[k],
                ));
            assert(forall|k: int|
                0 <= k < out@.len() ==> out@[k]@ == (entered + spec_model_uris(m))[k]);
        }
        i += 1;
    }
    proof {
        assert(models@.take(models@.len() as int) =~= models@);
        assert(out.deep_view() =~= spec_action_uris()) by {
            assert(forall|k: int|
                0 <= k < out@.len() ==> out.deep_view()[k] == #[trigger] out@[k]@);
        }
    }
    out
}

/// Every model stands in the route-table order.
proof fn lemma_model_order_complete(m: TapoDeviceType)
    ensures
        spec_model_order().contains(m),
{
    let ms = spec_model_order();
    match m {
        TapoDeviceType::L510 => assert(ms[0] == m),
        TapoDeviceType::L520 => assert(ms[1] == m),
        TapoDeviceType::L610 => assert(ms[2] == m),
        TapoDeviceType::L530 => assert(ms[3] == m),
        TapoDeviceType::L535 => assert(ms[4] == m),
        TapoDeviceType::L630 => assert(ms[5] == m),
        TapoDeviceType::L900 => assert(ms[6] == m),
        TapoDeviceType::L920 => assert(ms[7] == m),
        TapoDeviceType::L930 => assert(ms[8] == m),
        TapoDeviceType::P100 => assert(ms[9] == m),
        TapoDeviceType::P105 => assert(ms[10] == m),
        TapoDeviceType::P110 => assert(ms[11] == m),
        TapoDeviceType::P110M => assert(ms[12] == m),
        TapoDeviceType::P115 => assert(ms[13] == m),
        TapoDeviceType::P300 => assert(ms[14] == m),
        TapoDeviceType::P304 => assert(ms[15] == m),
        TapoDeviceType::P304M => assert(ms[16] == m),
        TapoDeviceType::P316 => assert(ms[17] == m),
    }
}

/// A route of any listed model's chunk stands in the whole listing.
proof fn lemma_uris_from_chunk(ms: Seq<TapoDeviceType>, k: int, u: Seq<char>)
    requires
        0 <= k < ms.len(),
        spec_model_uris(ms[k]).contains(u),
    ensures
        spec_uris_from(ms).contains(u),
    decreases ms.len(),
{
    let pre = spec_uris_from(ms.drop_last());
    if k == ms.len() - 1 {
        let j = choose|j: int| 0 <= j < spec_model_uris(ms[k]).len() && spec_model_uris(ms[k])[j] == u;
        assert(spec_uris_from(ms)[pre.len() + j] == u);
    } else {
        assert(ms.drop_last()[k] == ms[k]);
        lemma_uris_from_chunk(ms.drop_last(), k, u);
        let i = choose|i: int| 0 <= i < pre.len() && pre[i] == u;
        assert(spec_uris_from(ms)[i] == u);
    }
}

/// Whether a text is the route of some model and an action its group
/// declares.
pub open spec fn spec_is_route(u: Seq<char>) -> bool {
    exists|m: TapoDeviceType, a: ActionKind|
        spec_action_supported(spec_group_of(m), a) && u == #[trigger] spec_action_uri(m, a)
}

/// Every entry of the listing is the route of some listed model and an
/// action its group declares.
proof fn lemma_uris_from_sound(ms: Seq<TapoDeviceType>, i: int)
    requires
        0 <= i < spec_uris_from(ms).len(),
    ensures
        spec_is_route(spec_uris_from(ms)[i]),
    decreases ms.len(),
{
    let pre = spec_uris_from(ms.drop_last());
    if i < pre.len() {
        lemma_uris_from_sound(ms.drop_last(), i);
        assert(spec_uris_from(ms)[i] == pre[i]);
    } else {
        let last = ms.last();
        let j = i - pre.len();
        let g = spec_group_of(last);
        let a = spec_group_actions(g)[j];
        assert(spec_group_actions(g).contains(a));
        assert(spec_uris_from(ms)[i] == spec_action_uri(last, a));
    }
}

/// The route index lists exactly the gateway's action routes: each model
/// and action whose capability group declares the action has its route in
/// the listing, and every listed route is of that form. The listing and
/// the dispatcher's capability check therefore agree on what exists.
pub proof fn lemma_action_uris_exactly_the_routes()
    ensures
        forall|m: TapoDeviceType, a: ActionKind|
            spec_action_supported(spec_group_of(m), a) ==> spec_action_uris().contains(
                #[trigger] spec_action_uri(m, a),
            ),
        forall|i: int|
            0 <= i < spec_action_uris().len() ==> spec_is_route(#[trigger] spec_action_uris()[i]),
{
    let ms = spec_model_order();
    assert forall|m: TapoDeviceType, a: ActionKind|
        spec_action_supported(spec_group_of(m), a) implies spec_action_uris().contains(
        #[trigger] spec_action_uri(m, a),
    ) by {
        lemma_model_order_complete(m);
        let k = choose|k: int| 0 <= k < ms.len() && ms[k] == m;
        let j = choose|j: int|
            0 <= j < spec_group_actions(spec_group_of(m)).len() && spec_group_actions(
                spec_group_of(m),
            )[j] == a;
        assert(spec_model_uris(m)[j] == spec_action_uri(m, a));
        lemma_uris_from_chunk(ms, k, spec_action_uri(m, a));
    }
    assert forall|i: int|
        0 <= i < spec_action_uris().len() implies spec_is_route(
        #[trigger] spec_action_uris()[i],
    ) by {
        lemma_uris_from_sound(ms, i);
    }
}

/// The newline-joined text of a route listing.
pub open spec fn spec_joined_lines(us: Seq<Seq<char>>) -> Seq<char>
    decreases us.len(),
{
    if us.len() == 0 {
        Seq::empty()
    } else if us.len() == 1 {
        us[0]
    } else {
        spec_joined_lines(us.drop_last()) + seq!['\n'] + us.last()
    }
}

/// Joins the route listing into the text the route index serves; mirrors
/// `spec_joined_lines`.
pub fn actions_index_text(uris: &Vec<String>) -> (r: String)
    ensures
        r@ == spec_joined_lines(uris.deep_view()),
{
    let mut out = String::new();
    proof {
        assert(out@ =~= spec_joined_lines(uris.deep_view().take(0)));
    }
    let mut i: usize = 0;
    while i < uris.len()
        invariant
            0 <= i <= uris@.len(),
            out@ == spec_joined_lines(uris.deep_view().take(i as int)),
        decreases uris@.len() - i,
    {
        if i > 0 {
            out.append("\n");
        }
        out.append(uris[i].as_str());
        proof {
            reveal_strlit("\n");
            assert(uris.deep_view().take(i + 1).drop_last() =~= uris.deep_view().take(i as int));
            assert(uris.deep_view().take(i + 1).last() == uris@[i as int]@);
            assert(out@ =~= spec_joined_lines(uris.deep_view().take(i + 1)));
        }
        i += 1;
    }
    proof {
        assert(uris.deep_view().take(uris@.len() as int) =~= uris.deep_view());
    }
    out
}

} // verus!
