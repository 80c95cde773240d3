//! Projection of a decoded throttling record onto the registry's two gauge
//! families, with latch semantics for the historical flags.
//!
//! The active family is overwritten on every successful poll; each occurred
//! gauge is a latch: it moves from 0 to 1 when its historical flag is first
//! seen set, and never changes again. The families are registered exactly
//! once, when the registerer is constructed; polls only update gauge values.

use vstd::prelude::*;

use crate::gauge_of;
use crate::gauge_value;
use crate::metrics::throttled::{ThrottlingKind, ThrottlingOccurredLabels, ThrottlingActiveLabels};
use crate::metrics::{RegisterError, Registerer};
use crate::parser::throttled::ThrottledState;
use crate::registry::{FamilyModel, MetricFamily, Registry, RegistryModel, Sample, SampleModel};

verus! {

/// Updates the registry's throttling families from decoded states. Holds the
/// positions of its two families in the registry; [`ThrottledRegisterer::new`]
/// registers them and establishes `wf`.
#[derive(Clone, Copy, Debug)]
pub struct ThrottledRegisterer {
    pub active_idx: usize,
    pub occurred_idx: usize,
}

/// The state's instantaneous flag for the kind at position `i` of the
/// exposition order.
pub open spec fn active_flag(s: ThrottledState, i: int) -> bool {
    if i == 0 {
        s.undervoltage_detected
    } else if i == 1 {
        s.arm_frequency_capped
    } else if i == 2 {
        s.currently_throttled
    } else if i == 3 {
        s.soft_temperature_limit_active
    } else {
        false
    }
}

/// The state's historical flag for the kind at position `i` of the
/// exposition order.
pub open spec fn occurred_flag(s: ThrottledState, i: int) -> bool {
    if i == 0 {
        s.undervoltage_has_occurred
    } else if i == 1 {
        s.arm_frequency_capping_has_occurred
    } else if i == 2 {
        s.throttling_has_occurred
    } else if i == 3 {
        s.soft_temperature_limit_has_occurred
    } else {
        false
    }
}

/// One step of the occurred latch: a gauge at 0 moves to 1 when the flag is
/// set; any other value stays as it is.
pub open spec fn latch(v: u64, flag: bool) -> u64 {
    if v == 0 && flag {
        1
    } else {
        v
    }
}

/// The kinds in exposition order.
pub open spec fn kind_order() -> Seq<ThrottlingKind> {
    seq![
        ThrottlingKind::Undervoltage,
        ThrottlingKind::ArmFrequency,
        ThrottlingKind::Throttled,
        ThrottlingKind::SoftTemperatureLimit,
    ]
}

/// A gauge sample for one kind, at the given value.
pub open spec fn spec_kind_sample(kind: ThrottlingKind, value: u64) -> SampleModel {
    SampleModel {
        labels: seq![
            crate::registry::LabelPairModel { name: "kind"@, value: kind.label_text() },
        ],
        value: value,
    }
}

/// The active family as registered, all gauges at zero.
pub open spec fn spec_active_family() -> FamilyModel {
    FamilyModel {
        name: "raspi_throttling_active"@,
        help: "State about throttling active currently"@,
        samples: kind_order().map_values(|k: ThrottlingKind| spec_kind_sample(k, 0)),
    }
}

/// The occurred family as registered, all gauges at zero.
pub open spec fn spec_occurred_family() -> FamilyModel {
    FamilyModel {
        name: "raspi_throttling_occurred"@,
        help: "State about throttling occurred in the past"@,
        samples: kind_order().map_values(|k: ThrottlingKind| spec_kind_sample(k, 0)),
    }
}

impl ThrottledRegisterer {
    /// Registers the two throttling families at the end of the registry,
    /// all gauges at zero, and returns the registerer that owns them. This
    /// happens once, at collector construction; polls never re-register.
    pub fn new(registry: &mut Registry) -> (r: ThrottledRegisterer)
        ensures
            r.active_idx == old(registry)@.families.len(),
            r.occurred_idx == old(registry)@.families.len() + 1,
            final(registry)@.families == old(registry)@.families + seq![
                spec_active_family(),
                spec_occurred_family(),
            ],
            r.wf(final(registry)@),
    {
        let active_idx = registry.families.len();
        let active = MetricFamily {
            name: String::from_str("raspi_throttling_active"),
            help: String::from_str("State about throttling active currently"),
            samples: active_zero_samples(),
        };
        proof {
            assert(active@ =~~= spec_active_family());
        }
        registry.families.push(active);
        let occurred_idx = registry.families.len();
        let occurred = MetricFamily {
            name: String::from_str("raspi_throttling_occurred"),
            help: String::from_str("State about throttling occurred in the past"),
            samples: occurred_zero_samples(),
        };
        proof {
            assert(occurred@ =~~= spec_occurred_family());
        }
        registry.families.push(occurred);
        let r = ThrottledRegisterer { active_idx, occurred_idx };
        proof {
            assert(registry@.families =~~= old(registry)@.families + seq![
                spec_active_family(),
                spec_occurred_family(),
            ]);
        }
        r
    }
}

/// The active family's four zero-valued gauge samples, in kind order.
fn active_zero_samples() -> (r: Vec<Sample>)
    ensures
        r@.map_values(|s: Sample| s@) == kind_order().map_values(
            |k: ThrottlingKind| spec_kind_sample(k, 0),
        ),
{
    let mut samples: Vec<Sample> = Vec::new();
    samples.push(active_kind_sample(ThrottlingKind::Undervoltage));
    samples.push(active_kind_sample(ThrottlingKind::ArmFrequency));
    samples.push(active_kind_sample(ThrottlingKind::Throttled));
    samples.push(active_kind_sample(ThrottlingKind::SoftTemperatureLimit));
    proof {
        assert(samples@.map_values(|s: Sample| s@) =~~= kind_order().map_values(
            |k: ThrottlingKind| spec_kind_sample(k, 0),
        ));
    }
    samples
}

/// The occurred family's four zero-valued gauge samples, in kind order.
fn occurred_zero_samples() -> (r: Vec<Sample>)
    ensures
        r@.map_values(|s: Sample| s@) == kind_order().map_values(
            |k: ThrottlingKind| spec_kind_sample(k, 0),
        ),
{
    let mut samples: Vec<Sample> = Vec::new();
    samples.push(occurred_kind_sample(ThrottlingKind::Undervoltage));
    samples.push(occurred_kind_sample(ThrottlingKind::ArmFrequency));
    samples.push(occurred_kind_sample(ThrottlingKind::Throttled));
    samples.push(occurred_kind_sample(ThrottlingKind::SoftTemperatureLimit));
    proof {
        assert(samples@.map_values(|s: Sample| s@) =~~= kind_order().map_values(
            |k: ThrottlingKind| spec_kind_sample(k, 0),
        ));
    }
    samples
}

/// A zero-valued active-family sample for one kind.
fn active_kind_sample(kind: ThrottlingKind) -> (r: Sample)
    ensures
        r@ == spec_kind_sample(kind, 0),
{
    let labels = ThrottlingActiveLabels { kind }.to_pairs();
    let r = Sample { labels, value: 0 };
    proof {
        assert(r@ =~~= spec_kind_sample(kind, 0));
    }
    r
}

/// A zero-valued occurred-family sample for one kind.
fn occurred_kind_sample(kind: ThrottlingKind) -> (r: Sample)
    ensures
        r@ == spec_kind_sample(kind, 0),
{
    let labels = ThrottlingOccurredLabels { kind }.to_pairs();
    let r = Sample { labels, value: 0 };
    proof {
        assert(r@ =~~= spec_kind_sample(kind, 0));
    }
    r
}

impl Registerer for ThrottledRegisterer {
    type Item = ThrottledState;

    /// The registerer's families stand at its two distinct positions, with
    /// one sample per kind.
    open spec fn wf(&self, reg: RegistryModel) -> bool {
        &&& self.active_idx < reg.families.len()
        &&& self.occurred_idx < reg.families.len()
        &&& self.active_idx != self.occurred_idx
        &&& reg.families[self.active_idx as int].samples.len() == 4
        &&& reg.families[self.occurred_idx as int].samples.len() == 4
    }

    /// The projection of one decoded record: every active gauge is
    /// overwritten with its instantaneous flag, every occurred gauge takes
    /// one latch step on its historical flag; labels, names, help text and
    /// all other families stay as they are.
    open spec fn apply(&self, reg: RegistryModel, item: ThrottledState) -> RegistryModel {
        let af = reg.families[self.active_idx as int];
        let of = reg.families[self.occurred_idx as int];
        let af2 = FamilyModel {
            name: af.name,
            help: af.help,
            samples: af.samples.map(
                |i: int, sm: SampleModel| SampleModel {
                    labels: sm.labels,
                    value: gauge_of(active_flag(item, i)),
                },
            ),
        };
        let of2 = FamilyModel {
            name: of.name,
            help: of.help,
            samples: of.samples.map(
                |i: int, sm: SampleModel| SampleModel {
                    labels: sm.labels,
                    value: latch(sm.value, occurred_flag(item, i)),
                },
            ),
        };
        RegistryModel {
            families: reg.families.update(self.active_idx as int, af2).update(
                self.occurred_idx as int,
                of2,
            ),
        }
    }

    #[verifier::rlimit(60)]
    fn register(&self, item: ThrottledState, registry: &mut Registry) -> (r: Result<
        (),
        RegisterError,
    >) {
        // The families must be where construction put them.
        if self.active_idx >= registry.families.len() || self.occurred_idx
            >= registry.families.len() || self.active_idx == self.occurred_idx {
            return Err(RegisterError::FamiliesNotRegistered);
        }
        if registry.families[self.active_idx].samples.len() != 4
            || registry.families[self.occurred_idx].samples.len() != 4 {
            return Err(RegisterError::FamiliesNotRegistered);
        }

        // Overwrite the active gauges with the instantaneous flags.
        registry.families[self.active_idx].samples[0].value = gauge_value(
            item.undervoltage_detected,
        );
        registry.families[self.active_idx].samples[1].value = gauge_value(
            item.arm_frequency_capped,
        );
        registry.families[self.active_idx].samples[2].value = gauge_value(
            item.currently_throttled,
        );
        registry.families[self.active_idx].samples[3].value = gauge_value(
            item.soft_temperature_limit_active,
        );

        // Latch the occurred gauges on the historical flags.
        if item.undervoltage_has_occurred && registry.families[self.occurred_idx].samples[0].value
            == 0 {
            registry.families[self.occurred_idx].samples[0].value = 1;
        }
        if item.arm_frequency_capping_has_occurred
            && registry.families[self.occurred_idx].samples[1].value == 0 {
            registry.families[self.occurred_idx].samples[1].value = 1;
        }
        if item.throttling_has_occurred && registry.families[self.occurred_idx].samples[2].value
            == 0 {
            registry.families[self.occurred_idx].samples[2].value = 1;
        }
        if item.soft_temperature_limit_has_occurred
            && registry.families[self.occurred_idx].samples[3].value == 0 {
            registry.families[self.occurred_idx].samples[3].value = 1;
        }

        proof {
            assert(registry@ =~~= self.apply(old(registry)@, item));
        }
        Ok(())
    }
}

/// The registry after a whole run of polls, applied in order.
pub open spec fn apply_all(
    r: ThrottledRegisterer,
    reg: RegistryModel,
    states: Seq<ThrottledState>,
) -> RegistryModel
    decreases states.len(),
{
    if states.len() == 0 {
        reg
    } else {
        r.apply(apply_all(r, reg, states.drop_last()), states.last())
    }
}

/// What the active gauge of the kind at position `i` reads in `reg`.
pub open spec fn active_value(r: ThrottledRegisterer, reg: RegistryModel, i: int) -> u64 {
    reg.families[r.active_idx as int].samples[i].value
}

/// What the occurred gauge of the kind at position `i` reads in `reg`.
pub open spec fn occurred_value(r: ThrottledRegisterer, reg: RegistryModel, i: int) -> u64 {
    reg.families[r.occurred_idx as int].samples[i].value
}

/// One application of the projection: well-formedness is kept, every active
/// gauge is overwritten with the poll's instantaneous flag, and every
/// occurred gauge takes one latch step on the poll's historical flag.
pub proof fn lemma_apply_step(
    r: ThrottledRegisterer,
    reg: RegistryModel,
    s: ThrottledState,
    i: int,
)
    requires
        r.wf(reg),
        0 <= i < 4,
    ensures
        r.wf(r.apply(reg, s)),
        active_value(r, r.apply(reg, s), i) == gauge_of(active_flag(s, i)),
        occurred_value(r, r.apply(reg, s), i) == latch(occurred_value(r, reg, i), occurred_flag(
            s,
            i,
        )),
{
}

/// Well-formedness is kept over any run of polls.
pub proof fn lemma_apply_all_wf(
    r: ThrottledRegisterer,
    reg: RegistryModel,
    states: Seq<ThrottledState>,
)
    requires
        r.wf(reg),
    ensures
        r.wf(apply_all(r, reg, states)),
    decreases states.len(),
{
    if states.len() > 0 {
        lemma_apply_all_wf(r, reg, states.drop_last());
        lemma_apply_step(r, apply_all(r, reg, states.drop_last()), states.last(), 0);
    }
}

/// Latch idempotence: an occurred gauge that reads 1 still reads 1 after any
/// further poll, whatever that poll reports for the kind's historical flag.
pub proof fn lemma_latch_idempotent(
    r: ThrottledRegisterer,
    reg: RegistryModel,
    s: ThrottledState,
    i: int,
)
    requires
        r.wf(reg),
        0 <= i < 4,
        occurred_value(r, reg, i) == 1,
    ensures
        occurred_value(r, r.apply(reg, s), i) == 1,
{
    lemma_apply_step(r, reg, s, i);
}

/// Latch monotonicity: over any run of polls, an occurred gauge never
/// decreases; the reading after any earlier cut of the run is at most the
/// reading after any later one.
pub proof fn lemma_latch_monotone(
    r: ThrottledRegisterer,
    reg: RegistryModel,
    states: Seq<ThrottledState>,
    n: int,
    m: int,
    i: int,
)
    requires
        r.wf(reg),
        0 <= i < 4,
        0 <= n <= m <= states.len(),
    ensures
        occurred_value(r, apply_all(r, reg, states.take(n)), i) <= occurred_value(
            r,
            apply_all(r, reg, states.take(m)),
            i,
        ),
    decreases m - n,
{
    if n < m {
        lemma_latch_monotone(r, reg, states, n, m - 1, i);
        assert(states.take(m).drop_last() =~= states.take(m - 1));
        lemma_apply_all_wf(r, reg, states.take(m - 1));
        lemma_apply_step(r, apply_all(r, reg, states.take(m - 1)), states.take(m).last(), i);
    }
}

/// Active-gauge freshness: after a nonempty run of polls, the active gauge
/// reads exactly the last poll's instantaneous flag.
pub proof fn lemma_active_freshness(
    r: ThrottledRegisterer,
    reg: RegistryModel,
    states: Seq<ThrottledState>,
    i: int,
)
    requires
        r.wf(reg),
        0 <= i < 4,
        states.len() > 0,
    ensures
        active_value(r, apply_all(r, reg, states), i) == gauge_of(active_flag(states.last(), i)),
{
    lemma_apply_all_wf(r, reg, states.drop_last());
    lemma_apply_step(r, apply_all(r, reg, states.drop_last()), states.last(), i);
}

/// What an occurred gauge reads after a run of polls: 1 exactly when it
/// already read 1, or some poll of the run reported the kind's historical
/// flag; and it still reads 0 or 1.
pub proof fn lemma_occurred_characterization(
    r: ThrottledRegisterer,
    reg: RegistryModel,
    states: Seq<ThrottledState>,
    i: int,
)
    requires
        r.wf(reg),
        0 <= i < 4,
        occurred_value(r, reg, i) == 0 || occurred_value(r, reg, i) == 1,
    ensures
        occurred_value(r, apply_all(r, reg, states), i) == 1 <==> (occurred_value(r, reg, i) == 1
            || exists|j: int| 0 <= j < states.len() && occurred_flag(#[trigger] states[j], i)),
        occurred_value(r, apply_all(r, reg, states), i) == 0 || occurred_value(
            r,
            apply_all(r, reg, states),
            i,
        ) == 1,
    decreases states.len(),
{
    if states.len() > 0 {
        lemma_occurred_characterization(r, reg, states.drop_last(), i);
        lemma_apply_all_wf(r, reg, states.drop_last());
        lemma_apply_step(r, apply_all(r, reg, states.drop_last()), states.last(), i);
        if occurred_value(r, apply_all(r, reg, states), i) == 1 {
            if occurred_value(r, apply_all(r, reg, states.drop_last()), i) == 1 {
                if occurred_value(r, reg, i) != 1 {
                    let j = choose|j: int|
                        0 <= j < states.drop_last().len() && occurred_flag(
                            #[trigger] states.drop_last()[j],
                            i,
                        );
                    assert(occurred_flag(states[j], i));
                }
            } else {
                assert(occurred_flag(states[states.len() - 1], i));
            }
        }
        if occurred_value(r, reg, i) == 1 {
            assert(occurred_value(r, apply_all(r, reg, states), i) == 1);
        }
        if exists|j: int| 0 <= j < states.len() && occurred_flag(#[trigger] states[j], i) {
            let j = choose|j: int| 0 <= j < states.len() && occurred_flag(#[trigger] states[j], i);
            if j < states.len() - 1 {
                assert(occurred_flag(states.drop_last()[j], i));
                assert(occurred_value(r, apply_all(r, reg, states.drop_last()), i) == 1);
            }
            assert(occurred_value(r, apply_all(r, reg, states), i) == 1);
        }
    }
}

/// Occurred gauges are order-independent: two runs that are permutations of
/// one another leave every occurred gauge with the same reading, so the
/// outcome of interleaved polls matches a sequential run of the same polls.
pub proof fn lemma_occurred_order_independent(
    r: ThrottledRegisterer,
    reg: RegistryModel,
    s1: Seq<ThrottledState>,
    s2: Seq<ThrottledState>,
    i: int,
)
    requires
        r.wf(reg),
        0 <= i < 4,
        occurred_value(r, reg, i) == 0 || occurred_value(r, reg, i) == 1,
        s1.to_multiset() == s2.to_multiset(),
    ensures
        occurred_value(r, apply_all(r, reg, s1), i) == occurred_value(r, apply_all(r, reg, s2), i),
{
    broadcast use vstd::seq_lib::group_to_multiset_ensures;

    lemma_occurred_characterization(r, reg, s1, i);
    lemma_occurred_characterization(r, reg, s2, i);
    assert((exists|j: int| 0 <= j < s1.len() && occurred_flag(#[trigger] s1[j], i)) <==> (exists|
        j: int,
    | 0 <= j < s2.len() && occurred_flag(#[trigger] s2[j], i))) by {
        if exists|j: int| 0 <= j < s1.len() && occurred_flag(#[trigger] s1[j], i) {
            let j = choose|j: int| 0 <= j < s1.len() && occurred_flag(#[trigger] s1[j], i);
            assert(s1.contains(s1[j]));
            assert(s2.to_multiset().count(s1[j]) > 0);
            assert(s2.contains(s1[j]));
            let k = choose|k: int| 0 <= k < s2.len() && s2[k] == s1[j];
            assert(occurred_flag(s2[k], i));
        }
        if exists|j: int| 0 <= j < s2.len() && occurred_flag(#[trigger] s2[j], i) {
            let j = choose|j: int| 0 <= j < s2.len() && occurred_flag(#[trigger] s2[j], i);
            assert(s2.contains(s2[j]));
            assert(s1.to_multiset().count(s2[j]) > 0);
            assert(s1.contains(s2[j]));
            let k = choose|k: int| 0 <= k < s1.len() && s1[k] == s2[j];
            assert(occurred_flag(s1[k], i));
        }
    }
}

} // verus!
