use city_points::scenario::{PredictionSystem, Scenario};
use city_points::training::{
    is_well_posed, target_column, FEATURE_COUNT, RECORD_WIDTH, SEATS_COLUMN,
};

fn numbered() -> PredictionSystem<u32> {
    PredictionSystem {
        stopover_same: 10,
        direct_same: 11,
        stopover_twice: 20,
        direct_twice: 21,
        stopover_thrice: 30,
        direct_thrice: 31,
    }
}

#[test]
fn all_lists_the_six_scenarios_in_order() {
    assert_eq!(
        Scenario::all(),
        vec![
            Scenario::StopoverSame,
            Scenario::DirectSame,
            Scenario::StopoverTwice,
            Scenario::DirectTwice,
            Scenario::StopoverThrice,
            Scenario::DirectThrice,
        ]
    );
}

#[test]
fn labels_are_the_selector_texts() {
    assert_eq!(Scenario::StopoverSame.to_str(), "Stopover (Both Cities Same Size)");
    assert_eq!(Scenario::DirectSame.to_str(), "Direct (Both Cities Same Size)");
    assert_eq!(Scenario::StopoverTwice.to_str(), "Stopover (One City Twice as Big)");
    assert_eq!(Scenario::DirectTwice.to_str(), "Direct (One City Twice as Big)");
    assert_eq!(Scenario::StopoverThrice.to_str(), "Stopover (One City 3x Bigger)");
    assert_eq!(Scenario::DirectThrice.to_str(), "Direct (One City 3x Bigger)");
}

#[test]
fn directness_and_ratio_of_each_scenario() {
    let expected = [(false, 1u8), (true, 1), (false, 2), (true, 2), (false, 3), (true, 3)];
    for (sc, (direct, ratio)) in Scenario::all().into_iter().zip(expected) {
        assert_eq!(sc.is_direct(), direct);
        assert_eq!(sc.size_ratio(), ratio);
    }
}

#[test]
fn registry_returns_the_model_of_the_scenario() {
    let sys = numbered();
    assert_eq!(*sys.model(Scenario::StopoverSame), 10);
    assert_eq!(*sys.model(Scenario::DirectSame), 11);
    assert_eq!(*sys.model(Scenario::StopoverTwice), 20);
    assert_eq!(*sys.model(Scenario::DirectTwice), 21);
    assert_eq!(*sys.model(Scenario::StopoverThrice), 30);
    assert_eq!(*sys.model(Scenario::DirectThrice), 31);
}

#[test]
fn target_columns_follow_the_seats_column() {
    assert_eq!(SEATS_COLUMN, 1);
    assert_eq!(RECORD_WIDTH, 8);
    let columns: Vec<usize> = Scenario::all().into_iter().map(target_column).collect();
    assert_eq!(columns, vec![2, 3, 4, 5, 6, 7]);
}

#[test]
fn target_column_is_twice_the_ratio_plus_directness() {
    for sc in Scenario::all() {
        let direct = if sc.is_direct() { 1 } else { 0 };
        assert_eq!(target_column(sc), 2 * sc.size_ratio() as usize + direct);
    }
}

#[test]
fn a_fit_needs_more_rows_than_features() {
    assert_eq!(FEATURE_COUNT, 5);
    assert!(!is_well_posed(0));
    assert!(!is_well_posed(3));
    assert!(!is_well_posed(5));
    assert!(is_well_posed(6));
    assert!(is_well_posed(600));
}
