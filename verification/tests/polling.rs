use camunda_external_task_client_rust::{
    join_outcome, spawn_outcome, Client, Config, Error, FetchAndLockRequest, TaskPolling, Topic,
};

fn client(auto_poll: bool) -> Client<u32> {
    Client::new(Config::new("http://engine").with_auto_poll(auto_poll))
}

#[test]
fn a_new_engine_is_idle() {
    let polling = TaskPolling::new(1000);
    assert!(!polling.is_active());
    assert_eq!(polling.interval(), 1000);
}

#[test]
fn start_makes_an_idle_engine_poll() {
    let mut polling = TaskPolling::new(5);
    assert_eq!(polling.start(), Ok(()));
    assert!(polling.is_active());
    assert_eq!(polling.interval(), 5);
}

#[test]
fn a_second_start_is_refused() {
    let mut polling = TaskPolling::new(5);
    assert_eq!(polling.start(), Ok(()));
    assert_eq!(polling.start(), Err(Error::ClientError("client already started".to_string())));
    assert!(polling.is_active());
    assert_eq!(polling.start(), Err(Error::ClientError("client already started".to_string())));
}

#[test]
fn stop_makes_the_engine_idle_and_start_works_again() {
    let mut polling = TaskPolling::new(5);
    polling.start().unwrap();
    polling.stop();
    assert!(!polling.is_active());
    assert_eq!(polling.start(), Ok(()));
    assert!(polling.is_active());
}

#[test]
fn stop_on_an_idle_engine_changes_nothing() {
    let mut polling = TaskPolling::new(5);
    polling.stop();
    assert!(!polling.is_active());
    assert_eq!(polling.interval(), 5);
}

#[test]
fn a_client_polls_from_the_start_where_the_options_say_so() {
    let mut polling = client(true);
    assert!(polling.is_active());
    assert_eq!(polling.interval(), 1000);
    assert_eq!(polling.start(), Err(Error::ClientError("client already started".to_string())));
    assert_eq!(polling.join(), Ok(()));
}

#[test]
fn a_client_is_idle_where_the_options_say_so() {
    let idle = client(false);
    assert!(!idle.is_active());
}

#[test]
fn start_twice_without_stop_fails_the_second_time() {
    let mut client = client(false);
    assert_eq!(client.start(), Ok(()));
    assert!(client.is_active());
    assert_eq!(client.start(), Err(Error::ClientError("client already started".to_string())));
    assert!(client.is_active());
}

#[test]
fn start_after_stop_is_accepted() {
    let mut client = client(false);
    client.start().unwrap();
    client.stop();
    assert!(!client.is_active());
    assert_eq!(client.start(), Ok(()));
}

#[test]
fn join_before_start_fails() {
    let mut client = client(false);
    assert_eq!(
        client.join(),
        Err(Error::ClientError("client not active, cannot join".to_string()))
    );
    client.stop();
    assert_eq!(
        client.join(),
        Err(Error::ClientError("client not active, cannot join".to_string()))
    );
}

#[test]
fn join_after_start_is_accepted_once() {
    let mut client = client(false);
    client.start().unwrap();
    assert_eq!(client.join(), Ok(()));
    assert_eq!(
        client.join(),
        Err(Error::ClientError("client not active, cannot join".to_string()))
    );
}

#[test]
fn join_after_stop_still_waits_for_the_started_loop() {
    let mut client = client(false);
    client.start().unwrap();
    client.stop();
    assert_eq!(client.join(), Ok(()));
}

#[test]
fn a_refused_start_gives_nothing_to_wait_for() {
    let mut client = client(false);
    client.start().unwrap();
    client.join().unwrap();
    assert!(client.start().is_err());
    assert!(client.join().is_err());
}

#[test]
fn the_outcomes_of_spawning_and_waiting() {
    assert_eq!(spawn_outcome(true), Ok(()));
    assert_eq!(
        spawn_outcome(false),
        Err(Error::ClientError("failed to spawn polling thread".to_string()))
    );
    assert_eq!(join_outcome(true), Ok(()));
    assert_eq!(
        join_outcome(false),
        Err(Error::ClientError("could not join client thread".to_string()))
    );
}

#[test]
fn the_lease_request_of_a_client_without_subscriptions() {
    let client = client(false);
    let expected = FetchAndLockRequest {
        worker_id: "some-random-id".to_string(),
        max_tasks: 10,
        use_priority: Some(true),
        async_response_timeout: None,
        topics: vec![],
    };
    assert_eq!(client.fetch_request(), expected);
}

#[test]
fn the_lease_request_covers_all_topics_at_once() {
    let config = Config::new("http://engine")
        .with_auto_poll(false)
        .with_worker_id("w1")
        .with_max_tasks(3)
        .with_use_priority(false)
        .with_lock_duration(20);
    let mut client: Client<u32> = Client::new(config);
    let mut a = client.subscribe("a");
    a.handler(1);
    client.open(&mut a).unwrap();
    let mut b = client.subscribe("b");
    b.handler(2).lock_duration(30);
    client.open(&mut b).unwrap();
    let mut topic_a = Topic::new("a");
    topic_a.lock_duration = 20;
    let mut topic_b = Topic::new("b");
    topic_b.lock_duration = 30;
    let expected = FetchAndLockRequest {
        worker_id: "w1".to_string(),
        max_tasks: 3,
        use_priority: Some(false),
        async_response_timeout: None,
        topics: vec![topic_a, topic_b],
    };
    assert_eq!(client.fetch_request(), expected);
}

#[test]
fn the_gateway_of_a_client_follows_its_options() {
    let config = Config::new("http://engine/rest").with_auto_poll(false).with_worker_id("w9");
    let client: Client<u32> = Client::new(config);
    assert_eq!(client.config().worker_id(), "w9");
    let call = client.engine_service().fetch_and_lock(&client.fetch_request());
    assert_eq!(call.url, "http://engine/rest/external-task/fetchAndLock");
    assert_eq!(
        call.body,
        "{\"maxTasks\":10,\"topics\":[],\"usePriority\":true,\"workerId\":\"w9\"}"
    );
}
