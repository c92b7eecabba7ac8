use camunda_external_task_client_rust::{
    Client, Config, Error, SubscriptionBuilder, SubscriptionManager, Task, Topic,
};

type Handler = fn(&Task) -> u32;

fn first(_: &Task) -> u32 {
    1
}

fn second(_: &Task) -> u32 {
    2
}

fn idle_client() -> Client<Handler> {
    Client::new(Config::new("http://engine").with_auto_poll(false))
}

#[test]
fn a_new_registry_is_empty() {
    let manager: SubscriptionManager<Handler> = SubscriptionManager::new();
    assert!(manager.subscriptions().is_empty());
    assert!(manager.get_handler("any").is_none());
}

#[test]
fn add_subscription_registers_topic_and_handler() {
    let mut manager: SubscriptionManager<Handler> = SubscriptionManager::new();
    assert_eq!(manager.add_subscription(Topic::new("invoice"), first), Ok(()));
    assert_eq!(manager.subscriptions(), vec![Topic::new("invoice")]);
    let handler = manager.get_handler("invoice").unwrap();
    assert_eq!(handler(&Task::default()), 1);
}

#[test]
fn a_second_subscription_to_a_topic_is_refused() {
    let mut manager: SubscriptionManager<Handler> = SubscriptionManager::new();
    let mut long = Topic::new("invoice");
    long.lock_duration = 7;
    assert_eq!(manager.add_subscription(long, first), Ok(()));
    assert_eq!(
        manager.add_subscription(Topic::new("invoice"), second),
        Err(Error::TopicSubscriptionError("topic already registered".to_string()))
    );
    let topics = manager.subscriptions();
    assert_eq!(topics.len(), 1);
    assert_eq!(topics[0].lock_duration, 7);
    assert_eq!(manager.get_handler("invoice").unwrap()(&Task::default()), 1);
}

#[test]
fn subscriptions_keep_the_order_of_registration() {
    let mut manager: SubscriptionManager<u32> = SubscriptionManager::new();
    for (place, name) in ["c", "a", "b"].iter().enumerate() {
        assert_eq!(manager.add_subscription(Topic::new(name), place as u32), Ok(()));
    }
    let names: Vec<String> = manager.subscriptions().into_iter().map(|t| t.topic_name).collect();
    assert_eq!(names, vec!["c".to_string(), "a".to_string(), "b".to_string()]);
    assert_eq!(manager.get_handler("a"), Some(&1));
    assert_eq!(manager.get_handler("b"), Some(&2));
    assert_eq!(manager.get_handler("c"), Some(&0));
    assert_eq!(manager.get_handler("d"), None);
}

#[test]
fn topic_names_are_compared_exactly() {
    let mut manager: SubscriptionManager<u32> = SubscriptionManager::new();
    assert_eq!(manager.add_subscription(Topic::new("Invoice"), 1), Ok(()));
    assert_eq!(manager.add_subscription(Topic::new("invoice"), 2), Ok(()));
    assert_eq!(manager.add_subscription(Topic::new(""), 3), Ok(()));
    assert!(manager.add_subscription(Topic::new(""), 4).is_err());
    assert_eq!(manager.get_handler("invoice"), Some(&2));
    assert_eq!(manager.get_handler(""), Some(&3));
    assert_eq!(manager.get_handler("invoic"), None);
}

#[test]
fn the_snapshot_is_a_copy() {
    let mut manager: SubscriptionManager<u32> = SubscriptionManager::new();
    manager.add_subscription(Topic::new("a"), 1).unwrap();
    let mut snapshot = manager.subscriptions();
    snapshot[0].topic_name = "changed".to_string();
    snapshot.clear();
    assert_eq!(manager.subscriptions(), vec![Topic::new("a")]);
}

#[test]
fn open_without_a_handler_fails_and_leaves_the_registry() {
    let mut client = idle_client();
    let mut builder = client.subscribe("invoice");
    assert_eq!(
        client.open(&mut builder),
        Err(Error::TopicSubscriptionError("handler cannot be none".to_string()))
    );
    assert!(client.topic_subscription_manager().subscriptions().is_empty());
    assert!(client.topic_subscription_manager().get_handler("invoice").is_none());
}

#[test]
fn open_registers_the_built_subscription() {
    let mut client = idle_client();
    let mut builder = client.subscribe("invoice");
    builder.handler(first).lock_duration(99).variables(Some(vec!["amount".to_string()]));
    assert_eq!(client.open(&mut builder), Ok(()));
    let topics = client.topic_subscription_manager().subscriptions();
    let mut expected = Topic::new("invoice");
    expected.lock_duration = 99;
    expected.variables = Some(vec!["amount".to_string()]);
    assert_eq!(topics, vec![expected]);
    let task = Task { topic_name: "invoice".to_string(), ..Task::default() };
    assert_eq!(client.handler_for(&task).unwrap()(&task), 1);
}

#[test]
fn a_second_open_for_a_topic_fails_and_keeps_the_first() {
    let mut client = idle_client();
    let mut one = client.subscribe("invoice");
    one.handler(first).lock_duration(1);
    assert_eq!(client.open(&mut one), Ok(()));
    let mut other = client.subscribe("shipping");
    other.handler(second);
    assert_eq!(client.open(&mut other), Ok(()));
    let mut two = client.subscribe("invoice");
    two.handler(second).lock_duration(2);
    assert_eq!(
        client.open(&mut two),
        Err(Error::TopicSubscriptionError("topic already registered".to_string()))
    );
    let topics = client.topic_subscription_manager().subscriptions();
    assert_eq!(topics.len(), 2);
    assert_eq!(topics[0].topic_name, "invoice");
    assert_eq!(topics[0].lock_duration, 1);
    let task = Task::default();
    assert_eq!(client.topic_subscription_manager().get_handler("invoice").unwrap()(&task), 1);
}

#[test]
fn open_takes_the_handler_from_the_builder() {
    let mut manager: SubscriptionManager<Handler> = SubscriptionManager::new();
    let config = Config::new("http://engine");
    let mut builder: SubscriptionBuilder<Handler> = SubscriptionBuilder::new(&config, "invoice");
    builder.handler(first);
    assert_eq!(builder.open(&mut manager), Ok(()));
    assert_eq!(
        builder.open(&mut manager),
        Err(Error::TopicSubscriptionError("handler cannot be none".to_string()))
    );
    assert_eq!(manager.subscriptions().len(), 1);
}

#[test]
fn a_refused_open_still_takes_the_handler() {
    let mut manager: SubscriptionManager<Handler> = SubscriptionManager::new();
    manager.add_subscription(Topic::new("invoice"), first).unwrap();
    let config = Config::new("http://engine");
    let mut builder: SubscriptionBuilder<Handler> = SubscriptionBuilder::new(&config, "invoice");
    builder.handler(second);
    assert_eq!(
        builder.open(&mut manager),
        Err(Error::TopicSubscriptionError("topic already registered".to_string()))
    );
    assert_eq!(
        builder.open(&mut manager),
        Err(Error::TopicSubscriptionError("handler cannot be none".to_string()))
    );
}

#[test]
fn a_builder_starts_from_the_lease_length_of_the_options() {
    let config = Config::new("http://engine").with_lock_duration(777);
    let mut manager: SubscriptionManager<u32> = SubscriptionManager::new();
    let mut builder = SubscriptionBuilder::new(&config, "invoice");
    builder.handler(5);
    builder.open(&mut manager).unwrap();
    let mut expected = Topic::default();
    expected.topic_name = "invoice".to_string();
    expected.lock_duration = 777;
    assert_eq!(manager.subscriptions(), vec![expected]);
}

#[test]
fn every_filter_of_the_builder_reaches_the_topic() {
    let config = Config::new("http://engine");
    let mut manager: SubscriptionManager<u32> = SubscriptionManager::new();
    let mut builder = SubscriptionBuilder::new(&config, "invoice");
    builder
        .handler(5)
        .lock_duration(10)
        .variables(Some(vec!["a".to_string(), "b".to_string()]))
        .local_variables(Some(true))
        .business_key(Some("key".to_string()))
        .process_definition_id(Some("pd".to_string()))
        .process_definition_id_in(Some(vec!["pd1".to_string()]))
        .process_definition_key(Some("pk".to_string()))
        .process_definition_key_in(Some(vec!["pk1".to_string(), "pk2".to_string()]))
        .process_definition_version_tag(Some("v1".to_string()))
        .without_tenant_id(Some(false))
        .tenant_id_in(Some(vec![]))
        .process_variables(Some(true))
        .deserialize_values(Some(false))
        .include_extension_properties(Some(true));
    builder.open(&mut manager).unwrap();
    let expected = Topic {
        topic_name: "invoice".to_string(),
        lock_duration: 10,
        variables: Some(vec!["a".to_string(), "b".to_string()]),
        local_variables: Some(true),
        business_key: Some("key".to_string()),
        process_definition_id: Some("pd".to_string()),
        process_definition_id_in: Some(vec!["pd1".to_string()]),
        process_definition_key: Some("pk".to_string()),
        process_definition_key_in: Some(vec!["pk1".to_string(), "pk2".to_string()]),
        process_definition_version_tag: Some("v1".to_string()),
        without_tenant_id: Some(false),
        tenant_id_in: Some(vec![]),
        process_variables: Some(true),
        deserialize_values: Some(false),
        include_extension_properties: Some(true),
    };
    assert_eq!(manager.subscriptions(), vec![expected]);
}

#[test]
fn a_filter_can_be_taken_back() {
    let config = Config::new("http://engine");
    let mut manager: SubscriptionManager<u32> = SubscriptionManager::new();
    let mut builder = SubscriptionBuilder::new(&config, "invoice");
    builder.handler(5).business_key(Some("key".to_string())).business_key(None);
    builder.open(&mut manager).unwrap();
    assert_eq!(manager.subscriptions(), vec![Topic::new("invoice")]);
}

#[test]
fn the_later_handler_of_a_builder_counts() {
    let mut client = idle_client();
    let mut builder = client.subscribe("invoice");
    builder.handler(first).handler(second);
    client.open(&mut builder).unwrap();
    let task = Task { topic_name: "invoice".to_string(), ..Task::default() };
    assert_eq!(client.handler_for(&task).unwrap()(&task), 2);
}

#[test]
fn a_task_of_an_unknown_topic_has_no_handler() {
    let mut client = idle_client();
    let mut builder = client.subscribe("invoice");
    builder.handler(first);
    client.open(&mut builder).unwrap();
    let task = Task { topic_name: "shipping".to_string(), ..Task::default() };
    assert!(client.handler_for(&task).is_none());
}
