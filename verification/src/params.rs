use vstd::prelude::*;

verus! {

/// The tunable parameters of a theme.
#[derive(Debug, Clone, Copy, PartialEq, Eq, Hash, Structural)]
pub enum ParamKey {
    BackgroundHue,
    BackgroundLightness,
    BackgroundSaturation,
    Contrast,
    AccentHue,
    AccentSaturation,
    AccentLightness,
    SelectionMix,
    Vibrancy,
}

/// The label shown next to a parameter.
pub open spec fn param_label(k: ParamKey) -> Seq<char> {
    match k {
        ParamKey::BackgroundHue => "Background Hue"@,
        ParamKey::BackgroundLightness => "Background Light"@,
        ParamKey::BackgroundSaturation => "Background Sat"@,
        ParamKey::Contrast => "Contrast"@,
        ParamKey::AccentHue => "Accent Hue"@,
        ParamKey::AccentSaturation => "Accent Sat"@,
        ParamKey::AccentLightness => "Accent Light"@,
        ParamKey::SelectionMix => "Selection Mix"@,
        ParamKey::Vibrancy => "Vibrancy"@,
    }
}

impl ParamKey {
    /// Every parameter, in editing order.
    pub fn all() -> (r: [ParamKey; 9])
        ensures
            r@ == seq![
                ParamKey::BackgroundHue,
                ParamKey::BackgroundLightness,
                ParamKey::BackgroundSaturation,
                ParamKey::Contrast,
                ParamKey::AccentHue,
                ParamKey::AccentSaturation,
                ParamKey::AccentLightness,
                ParamKey::SelectionMix,
                ParamKey::Vibrancy,
            ],
    {
        [
            ParamKey::BackgroundHue,
            ParamKey::BackgroundLightness,
            ParamKey::BackgroundSaturation,
            ParamKey::Contrast,
            ParamKey::AccentHue,
            ParamKey::AccentSaturation,
            ParamKey::AccentLightness,
            ParamKey::SelectionMix,
            ParamKey::Vibrancy,
        ]
    }

    /// The label shown next to the parameter.
    pub fn label(self) -> (r: &'static str)
        ensures
            r@ == param_label(self),
    {
        match self {
            ParamKey::BackgroundHue => "Background Hue",
            ParamKey::BackgroundLightness => "Background Light",
            ParamKey::BackgroundSaturation => "Background Sat",
            ParamKey::Contrast => "Contrast",
            ParamKey::AccentHue => "Accent Hue",
            ParamKey::AccentSaturation => "Accent Sat",
            ParamKey::AccentLightness => "Accent Light",
            ParamKey::SelectionMix => "Selection Mix",
            ParamKey::Vibrancy => "Vibrancy",
        }
    }
}

} // verus!
