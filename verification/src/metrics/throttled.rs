//! The throttling metric families' label vocabulary.

use vstd::prelude::*;

use crate::registry::{LabelPair, LabelPairModel};

verus! {

/// The four throttling condition classes. Each is backed by one
/// instantaneous flag and one historical flag in the decoded state.
#[derive(Clone, Copy, Debug, Hash, PartialEq, Eq, Structural)]
pub enum ThrottlingKind {
    Undervoltage,
    ArmFrequency,
    Throttled,
    SoftTemperatureLimit,
}

impl ThrottlingKind {
    /// The kind's label value in the exposition text.
    pub open spec fn label_text(self) -> Seq<char> {
        match self {
            ThrottlingKind::Undervoltage => "undervoltage"@,
            ThrottlingKind::ArmFrequency => "arm frequency"@,
            ThrottlingKind::Throttled => "throttled"@,
            ThrottlingKind::SoftTemperatureLimit => "soft temperature limit"@,
        }
    }

    /// The kind's label value, as text.
    pub fn as_label(&self) -> (r: &'static str)
        ensures
            r@ == self.label_text(),
    {
        match self {
            ThrottlingKind::Undervoltage => "undervoltage",
            ThrottlingKind::ArmFrequency => "arm frequency",
            ThrottlingKind::Throttled => "throttled",
            ThrottlingKind::SoftTemperatureLimit => "soft temperature limit",
        }
    }

    /// The `kind="..."` label pair that marks this kind's samples.
    pub fn label_pair(&self) -> (r: LabelPair)
        ensures
            r@ == (LabelPairModel { name: "kind"@, value: self.label_text() }),
    {
        LabelPair { name: String::from_str("kind"), value: String::from_str(self.as_label()) }
    }
}

/// The label set of one sample of the active family.
#[derive(Clone, Copy, Debug, Hash, PartialEq, Eq, Structural)]
pub struct ThrottlingActiveLabels {
    pub kind: ThrottlingKind,
}

/// The label set of one sample of the occurred family.
#[derive(Clone, Copy, Debug, Hash, PartialEq, Eq, Structural)]
pub struct ThrottlingOccurredLabels {
    pub kind: ThrottlingKind,
}

impl ThrottlingActiveLabels {
    /// The label pairs of this label set, in exposition order.
    pub fn to_pairs(&self) -> (r: Vec<LabelPair>)
        ensures
            r@.map_values(|l: LabelPair| l@) == seq![
                LabelPairModel { name: "kind"@, value: self.kind.label_text() },
            ],
    {
        let mut pairs: Vec<LabelPair> = Vec::new();
        pairs.push(self.kind.label_pair());
        proof {
            assert(pairs@.map_values(|l: LabelPair| l@) =~= seq![
                LabelPairModel { name: "kind"@, value: self.kind.label_text() },
            ]);
        }
        pairs
    }
}

impl ThrottlingOccurredLabels {
    /// The label pairs of this label set, in exposition order.
    pub fn to_pairs(&self) -> (r: Vec<LabelPair>)
        ensures
            r@.map_values(|l: LabelPair| l@) == seq![
                LabelPairModel { name: "kind"@, value: self.kind.label_text() },
            ],
    {
        let mut pairs: Vec<LabelPair> = Vec::new();
        pairs.push(self.kind.label_pair());
        proof {
            assert(pairs@.map_values(|l: LabelPair| l@) =~= seq![
                LabelPairModel { name: "kind"@, value: self.kind.label_text() },
            ]);
        }
        pairs
    }
}

} // verus!
