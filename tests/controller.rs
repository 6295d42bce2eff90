use enterprise::{combination_rules, generation_rules, EnterpriseAi};

use common_game::components::resource::{BasicResourceType, ComplexResourceType};

#[test]
fn ai_initial_state_should_not_be_running() {
    let ai = EnterpriseAi::new(67);
    assert!(!ai.is_running());
}

#[test]
fn test_ai_initial_state() {
    let ai = EnterpriseAi::new(67);

    assert_eq!(ai.planet_id(), 67);
    assert!(!ai.is_running());
    assert_eq!(ai.num_explorers(), 0);
}

#[test]
fn start_runs_and_clears_explorers() {
    let mut ai = EnterpriseAi::new(5);
    ai.on_start();
    ai.on_explorer_arrival();
    ai.on_explorer_arrival();
    assert_eq!(ai.num_explorers(), 2);

    ai.on_start();
    assert!(ai.is_running());
    assert_eq!(ai.num_explorers(), 0);
    assert_eq!(ai.planet_id(), 5);
}

#[test]
fn stop_halts_and_clears_explorers() {
    let mut ai = EnterpriseAi::new(5);
    ai.on_start();
    ai.on_explorer_arrival();
    ai.on_stop();
    assert!(!ai.is_running());
    assert_eq!(ai.num_explorers(), 0);

    ai.on_stop();
    assert!(!ai.is_running());
    assert_eq!(ai.num_explorers(), 0);
}

#[test]
fn arrival_then_departure_restores_count() {
    let mut ai = EnterpriseAi::new(1);
    ai.on_start();
    ai.on_explorer_arrival();
    ai.on_explorer_arrival();
    ai.on_explorer_arrival();
    assert_eq!(ai.num_explorers(), 3);

    ai.on_explorer_arrival();
    assert_eq!(ai.num_explorers(), 4);
    ai.on_explorer_departure();
    assert_eq!(ai.num_explorers(), 3);
}

#[test]
fn departure_without_arrival_stays_at_zero() {
    let mut ai = EnterpriseAi::new(1);
    ai.on_start();
    ai.on_explorer_departure();
    assert_eq!(ai.num_explorers(), 0);
    ai.on_explorer_arrival();
    ai.on_explorer_departure();
    ai.on_explorer_departure();
    assert_eq!(ai.num_explorers(), 0);
}

#[test]
fn arrivals_stop_at_largest_count() {
    let mut ai = EnterpriseAi::new(1);
    ai.on_start();
    for _ in 0..300 {
        ai.on_explorer_arrival();
    }
    assert_eq!(ai.num_explorers(), 255);
    ai.on_explorer_departure();
    assert_eq!(ai.num_explorers(), 254);
}

#[test]
fn stopped_controller_counts_no_explorer() {
    let mut ai = EnterpriseAi::new(1);
    ai.on_explorer_arrival();
    assert_eq!(ai.num_explorers(), 0);
    ai.on_explorer_departure();
    assert_eq!(ai.num_explorers(), 0);
    assert!(!ai.is_running());
}

#[test]
fn generation_rules_are_carbon_alone() {
    let rules = generation_rules();
    assert_eq!(rules.len(), 1);
    assert!(matches!(rules[0], BasicResourceType::Carbon));
}

#[test]
fn combination_rules_are_all_six() {
    let rules = combination_rules();
    assert_eq!(rules.len(), 6);
    assert!(matches!(rules[0], ComplexResourceType::Water));
    assert!(matches!(rules[1], ComplexResourceType::Diamond));
    assert!(matches!(rules[2], ComplexResourceType::Life));
    assert!(matches!(rules[3], ComplexResourceType::Robot));
    assert!(matches!(rules[4], ComplexResourceType::Dolphin));
    assert!(matches!(rules[5], ComplexResourceType::AIPartner));
}
