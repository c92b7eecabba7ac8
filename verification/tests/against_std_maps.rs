use std::collections::HashMap;

use camunda_external_task_client_rust::{
    group_by_activity, Json, SubscriptionManager, Task, Topic, Variable, VariableMap,
};

/// A small generator of numbers, the same on every run.
struct Numbers(u64);

impl Numbers {
    fn next(&mut self, below: u64) -> u64 {
        self.0 = self.0.wrapping_mul(6364136223846793005).wrapping_add(1442695040888963407);
        (self.0 >> 33) % below
    }
}

fn task(id: usize, activity: u64) -> Task {
    Task { id: id.to_string(), activity_id: format!("activity-{}", activity), ..Task::default() }
}

#[test]
fn groups_are_those_of_a_hash_map_by_activity() {
    let mut numbers = Numbers(7);
    for round in 0..200 {
        let size = numbers.next(40) as usize;
        let kinds = 1 + numbers.next(1 + round % 9);
        let batch: Vec<Task> = (0..size).map(|id| task(id, numbers.next(kinds))).collect();

        let mut by_activity: HashMap<String, Vec<Task>> = HashMap::new();
        for task in batch.clone() {
            by_activity.entry(task.activity_id.to_owned()).or_insert_with(Vec::new).push(task);
        }

        let groups = group_by_activity(batch.clone());
        assert_eq!(groups.len(), by_activity.len());
        for group in &groups {
            assert!(!group.is_empty());
            assert_eq!(Some(group), by_activity.get(&group[0].activity_id));
        }
        let firsts: Vec<usize> =
            groups.iter().map(|g| g[0].id.parse::<usize>().unwrap()).collect();
        assert!(firsts.windows(2).all(|pair| pair[0] < pair[1]));
        let total: usize = groups.iter().map(|g| g.len()).sum();
        assert_eq!(total, batch.len());
    }
}

#[test]
fn a_variable_map_holds_what_a_hash_map_holds() {
    let mut numbers = Numbers(11);
    for _ in 0..100 {
        let mut map = VariableMap::new();
        let mut reference: HashMap<String, Variable> = HashMap::new();
        let steps = numbers.next(60);
        for _ in 0..steps {
            let name = format!("v{}", numbers.next(12));
            let variable = Variable::new("long", Json::Unsigned(numbers.next(1000)));
            assert_eq!(
                map.insert(name.clone(), variable.clone()),
                reference.insert(name, variable)
            );
            assert_eq!(map.len(), reference.len());
        }
        for probe in 0..14 {
            let name = format!("v{}", probe);
            assert_eq!(map.get(&name), reference.get(&name));
            assert_eq!(map.contains_key(&name), reference.contains_key(&name));
        }
        assert_eq!(map.is_empty(), reference.is_empty());
        let mut names: Vec<&str> = map.entries().iter().map(|e| e.0.as_str()).collect();
        names.sort();
        names.dedup();
        assert_eq!(names.len(), map.len());
        assert_eq!(VariableMap::from_json(&map.to_json()), Some(map));
    }
}

#[test]
fn a_registry_holds_what_two_hash_maps_hold() {
    let mut numbers = Numbers(13);
    for _ in 0..100 {
        let mut manager: SubscriptionManager<u64> = SubscriptionManager::new();
        let mut topics: HashMap<String, Topic> = HashMap::new();
        let mut handlers: HashMap<String, u64> = HashMap::new();
        let steps = numbers.next(40);
        for step in 0..steps {
            let mut topic = Topic::new(&format!("topic-{}", numbers.next(10)));
            topic.lock_duration = step as u32;
            let taken = topics.contains_key(&topic.topic_name);
            let outcome = manager.add_subscription(topic.clone(), step);
            assert_eq!(outcome.is_err(), taken);
            if !taken {
                handlers.insert(topic.topic_name.clone(), step);
                topics.insert(topic.topic_name.clone(), topic);
            }
            let snapshot = manager.subscriptions();
            assert_eq!(snapshot.len(), topics.len());
            for topic in &snapshot {
                assert_eq!(Some(topic), topics.get(&topic.topic_name));
            }
        }
        for probe in 0..12 {
            let name = format!("topic-{}", probe);
            assert_eq!(manager.get_handler(&name), handlers.get(&name));
        }
    }
}
