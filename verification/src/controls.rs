use vstd::prelude::*;

verus! {

/// Which color reference of a rule a picker edits.
#[derive(Debug, Clone, Copy, PartialEq, Eq, Hash, Structural)]
pub enum ReferenceField {
    AliasSource,
    MixA,
    MixB,
    AdjustSource,
}

impl ReferenceField {
    /// The field's name in control labels.
    pub fn label(self) -> (r: &'static str)
        ensures
            r@ == (match self {
                ReferenceField::AliasSource | ReferenceField::AdjustSource => "source"@,
                ReferenceField::MixA => "color A"@,
                ReferenceField::MixB => "color B"@,
            }),
    {
        match self {
            ReferenceField::AliasSource | ReferenceField::AdjustSource => "source",
            ReferenceField::MixA => "color A",
            ReferenceField::MixB => "color B",
        }
    }
}

} // verus!
