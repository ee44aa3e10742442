use traffic_controller::lane::Lane;
use traffic_controller::traffic_system::{Served, TrafficSystem};

fn lane(id: &str, vehicle_count: usize, priority: usize) -> Lane {
    Lane { id: id.to_string(), vehicle_count, priority }
}

fn ids(entries: &[Lane]) -> Vec<String> {
    entries.iter().map(|entry| entry.id.clone()).collect()
}

#[test]
fn new_scheduler_is_empty() {
    let system = TrafficSystem::new();
    assert!(system.snapshot().is_empty());
    assert_eq!(system.lane("AL2"), None);
}

#[test]
fn priority_is_the_vehicle_count() {
    assert_eq!(TrafficSystem::calculate_priority("BL1", 0), 0);
    assert_eq!(TrafficSystem::calculate_priority("BL1", 3), 3);
    assert_eq!(TrafficSystem::calculate_priority("BL1", 11), 11);
    assert_eq!(TrafficSystem::calculate_priority("CL1", 4096), 4096);
    assert_eq!(TrafficSystem::calculate_priority("", 12), 12);
    assert_eq!(TrafficSystem::calculate_priority("DL1", usize::MAX), usize::MAX);
}

#[test]
fn arterial_lane_over_the_threshold_has_the_override_priority() {
    assert_eq!(TrafficSystem::calculate_priority("AL2", 11), 1000);
    assert_eq!(TrafficSystem::calculate_priority("AL2", 500), 1000);
    assert_eq!(TrafficSystem::calculate_priority("AL2", 1000), 1000);
    assert_eq!(TrafficSystem::calculate_priority("AL2", 5000), 1000);
    assert_eq!(TrafficSystem::calculate_priority("AL2", usize::MAX), 1000);
}

#[test]
fn arterial_lane_up_to_the_threshold_has_its_count_as_priority() {
    assert_eq!(TrafficSystem::calculate_priority("AL2", 0), 0);
    assert_eq!(TrafficSystem::calculate_priority("AL2", 9), 9);
    assert_eq!(TrafficSystem::calculate_priority("AL2", 10), 10);
}

#[test]
fn override_is_for_the_exact_identifier_only() {
    assert_eq!(TrafficSystem::calculate_priority("AL", 11), 11);
    assert_eq!(TrafficSystem::calculate_priority("AL22", 11), 11);
    assert_eq!(TrafficSystem::calculate_priority("al2", 11), 11);
    assert_eq!(TrafficSystem::calculate_priority("AL3", 11), 11);
    assert_eq!(TrafficSystem::calculate_priority("BL2", 11), 11);
    assert_eq!(TrafficSystem::calculate_priority(" AL2", 11), 11);
}

#[test]
fn another_lane_reaches_the_override_value_by_its_count() {
    assert_eq!(TrafficSystem::calculate_priority("BL1", 1000), 1000);
}

#[test]
fn add_lane_registers_and_queues() {
    let mut system = TrafficSystem::new();
    system.add_lane("BL1", 3);
    assert_eq!(system.lane("BL1"), Some(&lane("BL1", 3, 3)));
    assert_eq!(system.lane("CL1"), None);
    assert_eq!(system.snapshot(), vec![lane("BL1", 3, 3)]);
}

#[test]
fn add_lane_twice_keeps_the_stale_snapshot_queued() {
    let mut system = TrafficSystem::new();
    system.add_lane("BL1", 3);
    system.add_lane("BL1", 7);
    assert_eq!(system.lane("BL1"), Some(&lane("BL1", 7, 7)));
    assert_eq!(system.snapshot(), vec![lane("BL1", 7, 7), lane("BL1", 3, 3)]);
}

#[test]
fn add_lane_without_vehicles_is_queued_too() {
    let mut system = TrafficSystem::new();
    system.add_lane("DL1", 0);
    assert_eq!(system.lane("DL1"), Some(&lane("DL1", 0, 0)));
    assert_eq!(system.snapshot(), vec![lane("DL1", 0, 0)]);
    assert_eq!(
        system.serve_vehicle(),
        Some(Served {
            id: "DL1".to_string(),
            vehicles_before: 0,
            vehicles_after: 0,
            priority: 0,
            requeued: false,
        })
    );
    assert!(system.snapshot().is_empty());
    assert_eq!(system.lane("DL1"), Some(&lane("DL1", 0, 0)));
}

#[test]
fn override_scenario() {
    let mut system = TrafficSystem::new();
    system.add_lane("AL2", 11);
    assert_eq!(system.lane("AL2").map(|found| found.priority), Some(1000));
    system.add_lane("BL1", 3);
    assert_eq!(system.lane("BL1").map(|found| found.priority), Some(3));
    assert_eq!(system.snapshot(), vec![lane("AL2", 11, 1000), lane("BL1", 3, 3)]);

    let served = system.serve_vehicle();
    assert_eq!(
        served,
        Some(Served {
            id: "AL2".to_string(),
            vehicles_before: 11,
            vehicles_after: 10,
            priority: 10,
            requeued: true,
        })
    );
    assert_eq!(system.lane("AL2"), Some(&lane("AL2", 10, 10)));
    assert_eq!(system.lane("BL1"), Some(&lane("BL1", 3, 3)));
    assert_eq!(system.snapshot(), vec![lane("AL2", 10, 10), lane("BL1", 3, 3)]);
}

#[test]
fn override_scenario_in_the_other_order_of_adding() {
    let mut system = TrafficSystem::new();
    system.add_lane("BL1", 3);
    system.add_lane("AL2", 11);
    assert_eq!(system.snapshot(), vec![lane("AL2", 11, 1000), lane("BL1", 3, 3)]);
    let served = system.serve_vehicle().map(|report| report.id);
    assert_eq!(served, Some("AL2".to_string()));
}

#[test]
fn depletion_scenario() {
    let mut system = TrafficSystem::new();
    system.add_lane("CL1", 1);

    let first = system.serve_vehicle();
    assert_eq!(
        first,
        Some(Served {
            id: "CL1".to_string(),
            vehicles_before: 1,
            vehicles_after: 0,
            priority: 0,
            requeued: true,
        })
    );
    assert_eq!(system.lane("CL1"), Some(&lane("CL1", 0, 0)));
    assert_eq!(system.snapshot(), vec![lane("CL1", 0, 0)]);

    let second = system.serve_vehicle();
    assert_eq!(
        second,
        Some(Served {
            id: "CL1".to_string(),
            vehicles_before: 0,
            vehicles_after: 0,
            priority: 0,
            requeued: false,
        })
    );
    assert_eq!(system.lane("CL1"), Some(&lane("CL1", 0, 0)));
    assert!(system.snapshot().is_empty());

    assert_eq!(system.serve_vehicle(), None);

    system.add_lane("CL1", 2);
    assert_eq!(system.snapshot(), vec![lane("CL1", 2, 2)]);
    assert_eq!(system.serve_vehicle().map(|report| report.vehicles_after), Some(1));
}

#[test]
fn serving_an_empty_queue_changes_nothing() {
    let mut system = TrafficSystem::new();
    for _ in 0..5 {
        assert_eq!(system.serve_vehicle(), None);
        assert!(system.snapshot().is_empty());
        assert_eq!(system.lane("AL2"), None);
    }

    system.add_lane("DL1", 0);
    assert!(system.serve_vehicle().is_some());
    for _ in 0..5 {
        assert_eq!(system.serve_vehicle(), None);
        assert!(system.snapshot().is_empty());
        assert_eq!(system.lane("DL1"), Some(&lane("DL1", 0, 0)));
    }
}

#[test]
fn equal_priorities_are_served_oldest_first() {
    let mut system = TrafficSystem::new();
    system.add_lane("BL1", 2);
    system.add_lane("CL1", 2);
    system.add_lane("DL1", 2);
    assert_eq!(ids(&system.snapshot()), vec!["BL1", "CL1", "DL1"]);

    assert_eq!(system.serve_vehicle().map(|report| report.id), Some("BL1".to_string()));
    assert_eq!(ids(&system.snapshot()), vec!["CL1", "DL1", "BL1"]);
    assert_eq!(system.serve_vehicle().map(|report| report.id), Some("CL1".to_string()));
    assert_eq!(system.serve_vehicle().map(|report| report.id), Some("DL1".to_string()));
    assert_eq!(ids(&system.snapshot()), vec!["BL1", "CL1", "DL1"]);
    assert_eq!(
        system.snapshot(),
        vec![lane("BL1", 1, 1), lane("CL1", 1, 1), lane("DL1", 1, 1)]
    );
}

#[test]
fn stale_snapshot_serves_the_current_lane() {
    let mut system = TrafficSystem::new();
    system.add_lane("BL1", 5);
    system.add_lane("BL1", 1);
    // The stale snapshot of five vehicles comes first; the registry holds one.
    assert_eq!(
        system.serve_vehicle(),
        Some(Served {
            id: "BL1".to_string(),
            vehicles_before: 1,
            vehicles_after: 0,
            priority: 0,
            requeued: true,
        })
    );
    assert_eq!(system.snapshot(), vec![lane("BL1", 1, 1), lane("BL1", 0, 0)]);
    assert_eq!(
        system.serve_vehicle(),
        Some(Served {
            id: "BL1".to_string(),
            vehicles_before: 0,
            vehicles_after: 0,
            priority: 0,
            requeued: true,
        })
    );
    assert_eq!(system.snapshot(), vec![lane("BL1", 0, 0), lane("BL1", 0, 0)]);
    assert_eq!(system.serve_vehicle().map(|report| report.requeued), Some(false));
    assert_eq!(system.serve_vehicle().map(|report| report.requeued), Some(false));
    assert_eq!(system.serve_vehicle(), None);
    assert_eq!(system.lane("BL1"), Some(&lane("BL1", 0, 0)));
}

#[test]
fn arterial_lane_falls_back_to_its_count_at_the_threshold() {
    let mut system = TrafficSystem::new();
    system.add_lane("AL2", 12);
    system.add_lane("BL1", 11);
    assert_eq!(ids(&system.snapshot()), vec!["AL2", "BL1"]);
    assert_eq!(system.serve_vehicle().map(|report| report.priority), Some(1000));
    assert_eq!(system.lane("AL2"), Some(&lane("AL2", 11, 1000)));
    assert_eq!(system.serve_vehicle().map(|report| report.priority), Some(10));
    assert_eq!(system.lane("AL2"), Some(&lane("AL2", 10, 10)));
    assert_eq!(system.snapshot(), vec![lane("BL1", 11, 11), lane("AL2", 10, 10)]);
    assert_eq!(system.serve_vehicle().map(|report| report.id), Some("BL1".to_string()));
}

#[test]
fn vehicle_counts_never_rise_and_never_wrap() {
    let mut system = TrafficSystem::new();
    system.add_lane("AL2", 13);
    system.add_lane("BL1", 4);
    system.add_lane("CL1", 0);
    system.add_lane("DL1", 7);
    let names = ["AL2", "BL1", "CL1", "DL1"];
    let mut last: Vec<usize> =
        names.iter().map(|name| system.lane(name).unwrap().vehicle_count).collect();
    assert_eq!(last, vec![13, 4, 0, 7]);
    for _ in 0..60 {
        system.serve_vehicle();
        let now: Vec<usize> =
            names.iter().map(|name| system.lane(name).unwrap().vehicle_count).collect();
        let mut taken = 0;
        for (before, after) in last.iter().zip(now.iter()) {
            assert!(after <= before);
            taken += before - after;
        }
        assert!(taken <= 1);
        last = now;
    }
    assert_eq!(last, vec![0, 0, 0, 0]);
    assert!(system.snapshot().is_empty());
}

#[test]
fn lanes_with_vehicles_stay_queued() {
    let mut system = TrafficSystem::new();
    let names = ["AL2", "BL1", "CL1", "DL1"];
    system.add_lane("AL2", 12);
    system.add_lane("BL1", 2);
    system.add_lane("CL1", 0);
    system.add_lane("BL1", 6);
    system.add_lane("DL1", 3);
    system.add_lane("CL1", 1);
    for round in 0..40 {
        if round == 10 {
            system.add_lane("CL1", 4);
        }
        if round == 15 {
            system.add_lane("AL2", 0);
        }
        system.serve_vehicle();
        let queued = ids(&system.snapshot());
        for name in names.iter() {
            let current = system.lane(name).unwrap();
            if current.vehicle_count > 0 {
                assert!(queued.iter().any(|id| id == name));
            }
            assert_eq!(
                current.priority,
                TrafficSystem::calculate_priority(name, current.vehicle_count)
            );
        }
    }
}

#[test]
fn snapshot_is_sorted_by_descending_priority() {
    let mut system = TrafficSystem::new();
    system.add_lane("BL1", 3);
    system.add_lane("AL2", 40);
    system.add_lane("CL1", 9);
    system.add_lane("DL1", 1);
    system.add_lane("BL1", 1200);
    system.add_lane("CL1", 0);
    assert_eq!(
        system.snapshot(),
        vec![
            lane("BL1", 1200, 1200),
            lane("AL2", 40, 1000),
            lane("CL1", 9, 9),
            lane("BL1", 3, 3),
            lane("DL1", 1, 1),
            lane("CL1", 0, 0),
        ]
    );
    for _ in 0..30 {
        system.serve_vehicle();
        let entries = system.snapshot();
        for pair in entries.windows(2) {
            assert!(pair[0].priority >= pair[1].priority);
        }
    }
}

#[test]
fn snapshot_does_not_change_the_scheduler() {
    let mut system = TrafficSystem::new();
    system.add_lane("BL1", 2);
    system.add_lane("CL1", 5);
    let first = system.snapshot();
    let second = system.snapshot();
    assert_eq!(first, second);
    assert_eq!(first, vec![lane("CL1", 5, 5), lane("BL1", 2, 2)]);
    assert_eq!(system.serve_vehicle().map(|report| report.id), Some("CL1".to_string()));
}

#[test]
fn snapshot_entries_are_independent_copies() {
    let mut system = TrafficSystem::new();
    system.add_lane("BL1", 2);
    let mut entries = system.snapshot();
    entries[0].vehicle_count = 99;
    entries[0].priority = 99;
    assert_eq!(system.snapshot(), vec![lane("BL1", 2, 2)]);
    assert_eq!(system.lane("BL1"), Some(&lane("BL1", 2, 2)));
}

#[test]
fn serve_reports_the_registry_counts() {
    let mut system = TrafficSystem::new();
    system.add_lane("DL1", 3);
    let mut reports = Vec::new();
    while let Some(report) = system.serve_vehicle() {
        reports.push((report.vehicles_before, report.vehicles_after, report.priority, report.requeued));
    }
    assert_eq!(
        reports,
        vec![(3, 2, 2, true), (2, 1, 1, true), (1, 0, 0, true), (0, 0, 0, false)]
    );
}
