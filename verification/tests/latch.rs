use raspi_exporter::metrics::Registerer;
use raspi_exporter::parser::throttled::ThrottledState;
use raspi_exporter::registerer::throttled::ThrottledRegisterer;
use raspi_exporter::registry::Registry;

fn state(active: [bool; 4], occurred: [bool; 4]) -> ThrottledState {
    ThrottledState {
        undervoltage_detected: active[0],
        arm_frequency_capped: active[1],
        currently_throttled: active[2],
        soft_temperature_limit_active: active[3],
        undervoltage_has_occurred: occurred[0],
        arm_frequency_capping_has_occurred: occurred[1],
        throttling_has_occurred: occurred[2],
        soft_temperature_limit_has_occurred: occurred[3],
    }
}

fn active_values(registry: &Registry, registerer: &ThrottledRegisterer) -> [u64; 4] {
    let samples = &registry.families[registerer.active_idx].samples;
    [samples[0].value, samples[1].value, samples[2].value, samples[3].value]
}

fn occurred_values(registry: &Registry, registerer: &ThrottledRegisterer) -> [u64; 4] {
    let samples = &registry.families[registerer.occurred_idx].samples;
    [samples[0].value, samples[1].value, samples[2].value, samples[3].value]
}

#[test]
fn registration_starts_all_gauges_at_zero() {
    let mut registry = Registry::new();
    let registerer = ThrottledRegisterer::new(&mut registry);
    assert_eq!(registry.families.len(), 2);
    assert_eq!(active_values(&registry, &registerer), [0, 0, 0, 0]);
    assert_eq!(occurred_values(&registry, &registerer), [0, 0, 0, 0]);
}

#[test]
fn register_overwrites_active_and_latches_occurred() {
    let mut registry = Registry::new();
    let registerer = ThrottledRegisterer::new(&mut registry);

    registerer
        .register(state([true, false, true, false], [true, false, true, true]), &mut registry)
        .unwrap();
    assert_eq!(active_values(&registry, &registerer), [1, 0, 1, 0]);
    assert_eq!(occurred_values(&registry, &registerer), [1, 0, 1, 1]);
}

#[test]
fn latch_keeps_one_when_flag_clears() {
    let mut registry = Registry::new();
    let registerer = ThrottledRegisterer::new(&mut registry);

    registerer
        .register(state([false; 4], [true, false, false, false]), &mut registry)
        .unwrap();
    assert_eq!(occurred_values(&registry, &registerer), [1, 0, 0, 0]);

    // The historical flag is clear now, but the latch must not go back.
    registerer.register(state([false; 4], [false; 4]), &mut registry).unwrap();
    assert_eq!(occurred_values(&registry, &registerer), [1, 0, 0, 0]);

    // A redundant "still true" is a no-op as well.
    registerer
        .register(state([false; 4], [true, false, false, false]), &mut registry)
        .unwrap();
    assert_eq!(occurred_values(&registry, &registerer), [1, 0, 0, 0]);
}

#[test]
fn occurred_never_decreases_over_a_run() {
    let mut registry = Registry::new();
    let registerer = ThrottledRegisterer::new(&mut registry);

    let polls = [
        state([false; 4], [false, true, false, false]),
        state([true; 4], [false; 4]),
        state([false; 4], [true, false, false, true]),
        state([false; 4], [false; 4]),
    ];
    let mut previous = occurred_values(&registry, &registerer);
    for poll in polls {
        registerer.register(poll, &mut registry).unwrap();
        let current = occurred_values(&registry, &registerer);
        for k in 0..4 {
            assert!(current[k] >= previous[k]);
        }
        previous = current;
    }
    assert_eq!(previous, [1, 1, 0, 1]);
}

#[test]
fn active_reflects_only_the_latest_poll() {
    let mut registry = Registry::new();
    let registerer = ThrottledRegisterer::new(&mut registry);

    registerer.register(state([true, true, false, false], [false; 4]), &mut registry).unwrap();
    assert_eq!(active_values(&registry, &registerer), [1, 1, 0, 0]);

    registerer.register(state([false, false, true, true], [false; 4]), &mut registry).unwrap();
    assert_eq!(active_values(&registry, &registerer), [0, 0, 1, 1]);

    registerer.register(state([false; 4], [false; 4]), &mut registry).unwrap();
    assert_eq!(active_values(&registry, &registerer), [0, 0, 0, 0]);
}

#[test]
fn occurred_outcome_is_order_independent() {
    let polls = [
        state([false; 4], [true, false, false, false]),
        state([false; 4], [false, false, true, false]),
        state([false; 4], [false; 4]),
    ];
    let mut orders: Vec<Vec<usize>> = Vec::new();
    orders.push(vec![0, 1, 2]);
    orders.push(vec![2, 1, 0]);
    orders.push(vec![1, 2, 0]);

    let mut outcomes: Vec<[u64; 4]> = Vec::new();
    for order in orders {
        let mut registry = Registry::new();
        let registerer = ThrottledRegisterer::new(&mut registry);
        for idx in order {
            registerer.register(polls[idx], &mut registry).unwrap();
        }
        outcomes.push(occurred_values(&registry, &registerer));
    }
    assert_eq!(outcomes[0], [1, 0, 1, 0]);
    assert_eq!(outcomes[0], outcomes[1]);
    assert_eq!(outcomes[0], outcomes[2]);
}

#[test]
fn register_refuses_a_foreign_registry() {
    let mut registry = Registry::new();
    let registerer = ThrottledRegisterer::new(&mut registry);

    let mut other = Registry::new();
    let result = registerer.register(state([false; 4], [false; 4]), &mut other);
    assert!(result.is_err());
    assert!(other.families.is_empty());
}
