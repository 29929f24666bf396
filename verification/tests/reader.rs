use state_consistency::reader::{state_value_url, StateValue};

#[test]
fn addresses_of_the_three_values() {
    assert_eq!(
        state_value_url("http://localhost:12346", StateValue::LatestVisibleSlotNumber),
        "http://localhost:12346/modules/state-consistency/state/latest-visible-slot-number/"
    );
    assert_eq!(
        state_value_url("http://localhost:12346", StateValue::LatestStateRoot),
        "http://localhost:12346/modules/state-consistency/state/latest-state-root/"
    );
    assert_eq!(
        state_value_url("http://localhost:12346", StateValue::LatestRollupHeight),
        "http://localhost:12346/modules/state-consistency/state/latest-rollup-height/"
    );
}

#[test]
fn names_of_the_three_values() {
    assert_eq!(StateValue::LatestVisibleSlotNumber.name(), "latest-visible-slot-number");
    assert_eq!(StateValue::LatestStateRoot.name(), "latest-state-root");
    assert_eq!(StateValue::LatestRollupHeight.name(), "latest-rollup-height");
}

#[test]
fn base_url_is_taken_as_it_is() {
    assert_eq!(
        state_value_url("", StateValue::LatestRollupHeight),
        "/modules/state-consistency/state/latest-rollup-height/"
    );
    assert_eq!(
        state_value_url("http://h\u{f4}te/", StateValue::LatestStateRoot),
        "http://h\u{f4}te//modules/state-consistency/state/latest-state-root/"
    );
}
