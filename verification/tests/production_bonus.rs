//! Per-kind production bonus values for a freshly rested crew member.

use outpost::crew::CrewMember;
use outpost::stats::Stats;

#[test]
fn farm_calculate_production_bonus() {
    let assert_bonus = |expected: i64, biology: i32| {
        let mut member = CrewMember::new("test".to_string());
        member.stats = Stats::biology(biology);

        assert_eq!(
            expected,
            outpost::modules::farm::production_bonus(&member),
            "{} biology should create production bonus {}",
            biology,
            expected
        );
    };
    assert_bonus(1, 0);
    assert_bonus(1, 10);
    assert_bonus(2, 20);
    assert_bonus(2, 30);
    assert_bonus(3, 40);
    assert_bonus(3, 50);
    assert_bonus(4, 60);
    assert_bonus(4, 70);
    assert_bonus(5, 80);
    assert_bonus(5, 90);
    assert_bonus(5, 100);
}

#[test]
fn mine_calculate_production_bonus() {
    let assert_bonus = |expected: i64, geology: i32| {
        let mut member = CrewMember::new("test".to_string());
        member.stats = Stats::geology(geology);

        assert_eq!(
            expected,
            outpost::modules::mine::production_bonus(&member),
            "{} geology should create production bonus {}",
            geology,
            expected
        );
    };
    assert_bonus(1, 0);
    assert_bonus(2, 10);
    assert_bonus(3, 20);
    assert_bonus(4, 30);
    assert_bonus(5, 40);
    assert_bonus(6, 50);
    assert_bonus(7, 60);
    assert_bonus(8, 70);
    assert_bonus(9, 80);
    assert_bonus(9, 90);
    assert_bonus(10, 100);
}

#[test]
fn water_extractor_calculate_production_bonus() {
    let assert_bonus = |expected: i64, chemistry: i32| {
        let mut member = CrewMember::new("test".to_string());
        member.stats = Stats::chemistry(chemistry);

        assert_eq!(
            expected,
            outpost::modules::water_extractor::production_bonus(&member),
            "{} chemistry should create production bonus {}",
            chemistry,
            expected
        );
    };
    assert_bonus(2, 0);
    assert_bonus(2, 10);
    assert_bonus(3, 20);
    assert_bonus(3, 30);
    assert_bonus(4, 40);
    assert_bonus(5, 50);
    assert_bonus(5, 60);
    assert_bonus(6, 70);
    assert_bonus(6, 80);
    assert_bonus(7, 90);
    assert_bonus(8, 100);
}
