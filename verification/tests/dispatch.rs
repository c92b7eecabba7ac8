use camunda_external_task_client_rust::{
    group_by_activity, leased_tasks, Client, Config, Error, Task,
};

fn task(id: &str, activity: &str) -> Task {
    Task { id: id.to_string(), activity_id: activity.to_string(), ..Task::default() }
}

fn ids(groups: &Vec<Vec<Task>>) -> Vec<Vec<String>> {
    groups.iter().map(|g| g.iter().map(|t| t.id.clone()).collect()).collect()
}

fn texts(groups: &[&[&str]]) -> Vec<Vec<String>> {
    groups.iter().map(|g| g.iter().map(|t| t.to_string()).collect()).collect()
}

#[test]
fn an_empty_batch_has_no_group() {
    assert!(group_by_activity(vec![]).is_empty());
}

#[test]
fn one_task_makes_one_group() {
    let groups = group_by_activity(vec![task("1", "A")]);
    assert_eq!(ids(&groups), texts(&[&["1"]]));
}

#[test]
fn tasks_of_one_activity_stay_in_order_in_one_group() {
    let groups = group_by_activity(vec![task("1", "A"), task("2", "B"), task("3", "A")]);
    assert_eq!(ids(&groups), texts(&[&["1", "3"], &["2"]]));
    assert_eq!(groups[0][0].activity_id, "A");
    assert_eq!(groups[0][1].activity_id, "A");
    assert_eq!(groups[1][0].activity_id, "B");
}

#[test]
fn groups_stand_in_the_order_of_their_first_task() {
    let batch = vec![
        task("1", "C"),
        task("2", "A"),
        task("3", "C"),
        task("4", "B"),
        task("5", "A"),
        task("6", "C"),
    ];
    let groups = group_by_activity(batch);
    assert_eq!(ids(&groups), texts(&[&["1", "3", "6"], &["2", "5"], &["4"]]));
}

#[test]
fn a_batch_of_one_activity_is_one_group() {
    let groups = group_by_activity(vec![task("1", "A"), task("2", "A"), task("3", "A")]);
    assert_eq!(ids(&groups), texts(&[&["1", "2", "3"]]));
}

#[test]
fn a_batch_of_distinct_activities_has_a_group_for_each() {
    let groups = group_by_activity(vec![task("1", "A"), task("2", "B"), task("3", "")]);
    assert_eq!(ids(&groups), texts(&[&["1"], &["2"], &["3"]]));
}

#[test]
fn grouping_moves_the_tasks_unchanged() {
    let mut full = task("1", "A");
    full.topic_name = "invoice".to_string();
    full.priority = 7;
    full.retries = Some("3".to_string());
    let groups = group_by_activity(vec![full.clone(), task("2", "B")]);
    assert_eq!(groups[0], vec![full]);
}

#[test]
fn activities_are_compared_exactly() {
    let groups = group_by_activity(vec![task("1", "a"), task("2", "A"), task("3", "a ")]);
    assert_eq!(groups.len(), 3);
}

#[test]
fn a_group_is_run_in_the_order_of_the_batch() {
    fn invoice(task: &Task) -> String {
        format!("invoice:{}", task.id)
    }
    fn shipping(task: &Task) -> String {
        format!("shipping:{}", task.id)
    }
    let mut client: Client<fn(&Task) -> String> =
        Client::new(Config::new("http://engine").with_auto_poll(false));
    let mut a = client.subscribe("invoice");
    a.handler(invoice);
    client.open(&mut a).unwrap();
    let mut b = client.subscribe("shipping");
    b.handler(shipping);
    client.open(&mut b).unwrap();
    let mut batch = vec![task("1", "A"), task("2", "B"), task("3", "A"), task("4", "B")];
    batch[0].topic_name = "invoice".to_string();
    batch[1].topic_name = "shipping".to_string();
    batch[2].topic_name = "invoice".to_string();
    batch[3].topic_name = "unknown".to_string();
    let runs: Vec<Vec<String>> = group_by_activity(batch)
        .iter()
        .map(|group| {
            group.iter().filter_map(|t| client.handler_for(t).map(|run| run(t))).collect()
        })
        .collect();
    assert_eq!(runs, texts(&[&["invoice:1", "invoice:3"], &["shipping:2"]]));
}

#[test]
fn a_failed_lease_yields_no_tasks() {
    let failed = Err(Error::BackendRequestError("request failed".to_string()));
    assert!(leased_tasks(failed).is_empty());
}

#[test]
fn a_lease_yields_its_tasks() {
    let leased = leased_tasks(Ok(vec![task("1", "A"), task("2", "B")]));
    assert_eq!(leased, vec![task("1", "A"), task("2", "B")]);
}
