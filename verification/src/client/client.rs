//! The worker: its options, its subscriptions and its polling engine.
//!
//! A [`Client`] decides; it does not act. `start` says whether a polling
//! loop may be started, and the caller starts it. Each turn of that loop
//! asks the client for the lease request, sends it, hands the leased tasks
//! to [`group_by_activity`](crate::client::dispatch::group_by_activity),
//! and looks up the handler of each task.

use vstd::prelude::*;
use crate::client::config::{Config, ConfigView};
use crate::client::subscription::{
    distinct_topics, is_registered, lemma_add_keeps_distinct, subscription_to, topics_of,
    SubscriptionBuilder, SubscriptionBuilderView, SubscriptionManager,
};
use crate::error::{unit_view, Error, ErrorView};
use crate::service::engine_service::{EngineService, EngineServiceView};
use crate::service::model::{
    unfiltered, FetchAndLockRequest, FetchAndLockRequestView, Task, TopicView,
};

verus! {

/// The mathematical value of a [`TaskPolling`].
pub ghost struct TaskPollingView {
    /// Whether the engine is polling.
    pub active: bool,
    /// Milliseconds to wait after each tick.
    pub interval: u64,
}

impl TaskPollingView {
    /// The engine after a request to start: polling, whatever it was.
    pub open spec fn started(self) -> TaskPollingView {
        TaskPollingView { active: true, ..self }
    }

    /// The answer to a request to start: refused while polling.
    pub open spec fn start_result(self) -> Result<(), ErrorView> {
        if self.active {
            Err(ErrorView::ClientError("client already started"@))
        } else {
            Ok(())
        }
    }

    /// The engine after a request to stop: idle.
    pub open spec fn stopped(self) -> TaskPollingView {
        TaskPollingView { active: false, ..self }
    }
}

/// The polling engine: idle or polling. While it is polling, the caller's
/// loop runs a tick, waits for the interval, and asks `is_active` whether
/// to go on.
pub struct TaskPolling {
    is_active: bool,
    interval: u64,
}

impl View for TaskPolling {
    type V = TaskPollingView;

    closed spec fn view(&self) -> TaskPollingView {
        TaskPollingView { active: self.is_active, interval: self.interval }
    }
}

impl TaskPolling {
    /// An idle engine.
    pub fn new(interval: u64) -> (polling: Self)
        ensures
            polling@ == (TaskPollingView { active: false, interval }),
    {
        TaskPolling { is_active: false, interval }
    }

    /// Asks to start polling. An idle engine starts; one that is polling
    /// refuses and stays as it is, so that no second loop is started.
    pub fn start(&mut self) -> (outcome: Result<(), Error>)
        ensures
            unit_view(outcome) == old(self)@.start_result(),
            final(self)@ == old(self)@.started(),
    {
        if self.is_active {
            return Err(Error::ClientError("client already started".to_string()));
        }
        self.is_active = true;
        Ok(())
    }

    /// Ends the polling after the tick that is under way, if any.
    pub fn stop(&mut self)
        ensures
            final(self)@ == old(self)@.stopped(),
    {
        self.is_active = false;
    }

    /// Whether the engine is polling.
    pub fn is_active(&self) -> (active: bool)
        ensures
            active == self@.active,
    {
        self.is_active
    }

    /// Milliseconds to wait between the end of a tick and the next.
    pub fn interval(&self) -> (interval: u64)
        ensures
            interval == self@.interval,
    {
        self.interval
    }
}

/// Of two requests to start with no stop between them, the second is
/// refused and changes nothing, whatever the engine was before the first.
pub proof fn lemma_second_start_is_refused(polling: TaskPollingView)
    ensures
        polling.started().start_result() == Err::<(), ErrorView>(
            ErrorView::ClientError("client already started"@),
        ),
        polling.started().started() == polling.started(),
{
}

/// After a stop the engine can be started again.
pub proof fn lemma_start_after_stop(polling: TaskPollingView)
    ensures
        polling.stopped().start_result() == Ok::<(), ErrorView>(()),
{
}

/// The mathematical value of a [`Client`].
pub ghost struct ClientView<H> {
    /// The options that the client was made with.
    pub config: ConfigView,
    /// The gateway, made for the endpoint and the worker of the options.
    pub gateway: EngineServiceView,
    /// The registry: topics and their handlers, in the order of opening.
    pub subscriptions: Seq<(TopicView, H)>,
    /// The polling engine.
    pub polling: TaskPollingView,
    /// Whether a polling loop has been started that nobody has waited for.
    pub joinable: bool,
}

impl<H> ClientView<H> {
    /// The client that is made from these options: without subscriptions,
    /// and polling exactly where the options say so.
    pub open spec fn initial(config: ConfigView) -> ClientView<H> {
        ClientView {
            config,
            gateway: EngineServiceView { base_url: config.base_url, worker_id: config.worker_id },
            subscriptions: Seq::empty(),
            polling: TaskPollingView { active: config.auto_poll, interval: config.interval },
            joinable: config.auto_poll,
        }
    }

    /// The client after a request to start.
    pub open spec fn started(self) -> ClientView<H> {
        ClientView {
            polling: self.polling.started(),
            joinable: self.joinable || !self.polling.active,
            ..self
        }
    }

    /// The client after a request to stop.
    pub open spec fn stopped(self) -> ClientView<H> {
        ClientView { polling: self.polling.stopped(), ..self }
    }

    /// The answer to a request to wait for the polling loop: refused where
    /// none was started since the last wait.
    pub open spec fn join_result(self) -> Result<(), ErrorView> {
        if self.joinable {
            Ok(())
        } else {
            Err(ErrorView::ClientError("client not active, cannot join"@))
        }
    }

    /// The client after a request to wait for the polling loop.
    pub open spec fn joined(self) -> ClientView<H> {
        ClientView { joinable: false, ..self }
    }

    /// What holds of every client, whatever was done with it: its gateway
    /// is the one of its options, its engine waits as its options say, and
    /// no topic has two subscriptions.
    pub open spec fn consistent(self) -> bool {
        &&& self.gateway == EngineServiceView {
            base_url: self.config.base_url,
            worker_id: self.config.worker_id,
        }
        &&& self.polling.interval == self.config.interval
        &&& distinct_topics(self.subscriptions)
    }

    /// The client after a builder was opened in its registry.
    pub open spec fn opened(self, builder: SubscriptionBuilderView<H>) -> ClientView<H> {
        ClientView { subscriptions: builder.registered(self.subscriptions), ..self }
    }

    /// The lease request of a tick: all topics of the registry at once,
    /// under the worker's name, with the cap and the priority flag of the
    /// options.
    pub open spec fn fetch_request(self) -> FetchAndLockRequestView {
        FetchAndLockRequestView {
            worker_id: self.config.worker_id,
            max_tasks: self.config.max_tasks,
            use_priority: Some(self.config.use_priority),
            async_response_timeout: None,
            topics: topics_of(self.subscriptions),
        }
    }
}

/// The worker's state: options, gateway, registry and polling engine.
pub struct Client<H> {
    config: Config,
    engine_service: EngineService,
    subscription_manager: SubscriptionManager<H>,
    task_polling: TaskPolling,
    joinable: bool,
}

impl<H> View for Client<H> {
    type V = ClientView<H>;

    closed spec fn view(&self) -> ClientView<H> {
        ClientView {
            config: self.config@,
            gateway: self.engine_service@,
            subscriptions: self.subscription_manager@,
            polling: self.task_polling@,
            joinable: self.joinable,
        }
    }
}

impl<H> Client<H> {
    /// A client with these options and no subscription. Where the options
    /// ask for it, the client is polling from the start.
    pub fn new(config: Config) -> (client: Self)
        ensures
            client@ == ClientView::<H>::initial(config@),
    {
        let engine_service = EngineService::new(&config);
        let mut task_polling = TaskPolling::new(config.interval());
        let auto_poll = config.auto_poll();
        if auto_poll {
            let _ = task_polling.start();
        }
        Client {
            config,
            engine_service,
            subscription_manager: SubscriptionManager::new(),
            task_polling,
            joinable: auto_poll,
        }
    }

    /// The options that the client was made with.
    pub fn config(&self) -> (config: &Config)
        ensures
            config@ == self@.config,
    {
        &self.config
    }

    /// The gateway to the engine.
    pub fn engine_service(&self) -> (service: &EngineService)
        ensures
            service@ == self@.gateway,
    {
        &self.engine_service
    }

    /// The registry of subscriptions.
    pub fn topic_subscription_manager(&self) -> (manager: &SubscriptionManager<H>)
        ensures
            manager@ == self@.subscriptions,
    {
        &self.subscription_manager
    }

    /// Asks to start polling. Where the answer is `Ok`, the caller starts
    /// the polling loop; where the client is polling already, the request
    /// is refused and nothing changes.
    pub fn start(&mut self) -> (outcome: Result<(), Error>)
        ensures
            unit_view(outcome) == old(self)@.polling.start_result(),
            final(self)@ == old(self)@.started(),
    {
        match self.task_polling.start() {
            Ok(()) => {
                self.joinable = true;
                Ok(())
            },
            Err(e) => Err(e),
        }
    }

    /// Ends the polling after the tick that is under way, if any.
    pub fn stop(&mut self)
        ensures
            final(self)@ == old(self)@.stopped(),
    {
        self.task_polling.stop();
    }

    /// Whether the client is polling.
    pub fn is_active(&self) -> (active: bool)
        ensures
            active == self@.polling.active,
    {
        self.task_polling.is_active()
    }

    /// Milliseconds to wait between the end of a tick and the next.
    pub fn interval(&self) -> (interval: u64)
        ensures
            interval == self@.polling.interval,
    {
        self.task_polling.interval()
    }

    /// A builder for a subscription to `topic_name`, with the lease length
    /// of the options.
    pub fn subscribe(&self, topic_name: &str) -> (builder: SubscriptionBuilder<H>)
        ensures
            builder@ == (SubscriptionBuilderView::<H> {
                topic: unfiltered(topic_name@, self@.config.lock_duration),
                handler: None,
            }),
    {
        SubscriptionBuilder::new(&self.config, topic_name)
    }

    /// Opens a subscription in this client's registry.
    pub fn open(&mut self, builder: &mut SubscriptionBuilder<H>) -> (outcome: Result<(), Error>)
        ensures
            unit_view(outcome) == old(builder)@.open_result(old(self)@.subscriptions),
            final(builder)@ == old(builder)@.opened(),
            final(self)@ == old(self)@.opened(old(builder)@),
    {
        builder.open(&mut self.subscription_manager)
    }

    /// Asks to wait for the polling loop. Where the answer is `Ok`, the
    /// caller waits for the loop it started; where no loop was started, the
    /// request is refused.
    pub fn join(&mut self) -> (outcome: Result<(), Error>)
        ensures
            unit_view(outcome) == old(self)@.join_result(),
            final(self)@ == old(self)@.joined(),
    {
        if !self.joinable {
            return Err(Error::ClientError("client not active, cannot join".to_string()));
        }
        self.joinable = false;
        Ok(())
    }

    /// The lease request of the next tick.
    pub fn fetch_request(&self) -> (request: FetchAndLockRequest)
        ensures
            request@ == self@.fetch_request(),
    {
        let mut request = FetchAndLockRequest::new(self.config.worker_id());
        request.topics = self.subscription_manager.subscriptions();
        request.use_priority = Some(self.config.use_priority());
        request.max_tasks = self.config.max_tasks();
        request
    }

    /// The handler that is to run `task`: the one of the topic under which
    /// the task was leased. A task without one is passed over.
    pub fn handler_for(&self, task: &Task) -> (handler: Option<&H>)
        ensures
            match handler {
                Some(h) => subscription_to(self@.subscriptions, task.topic_name@) matches Some(
                    found,
                ) && found.1 == *h,
                None => !is_registered(self@.subscriptions, task.topic_name@),
            },
    {
        self.subscription_manager.get_handler(task.topic_name.as_str())
    }
}

/// What became of starting the polling loop: a failure where the loop could
/// not be started.
pub fn spawn_outcome(spawned: bool) -> (outcome: Result<(), Error>)
    ensures
        unit_view(outcome) == if spawned {
            Ok::<(), ErrorView>(())
        } else {
            Err::<(), ErrorView>(ErrorView::ClientError("failed to spawn polling thread"@))
        },
{
    if spawned {
        Ok(())
    } else {
        Err(Error::ClientError("failed to spawn polling thread".to_string()))
    }
}

/// What became of waiting for the polling loop: a failure where the loop
/// did not end in order.
pub fn join_outcome(ended_in_order: bool) -> (outcome: Result<(), Error>)
    ensures
        unit_view(outcome) == if ended_in_order {
            Ok::<(), ErrorView>(())
        } else {
            Err::<(), ErrorView>(ErrorView::ClientError("could not join client thread"@))
        },
{
    if ended_in_order {
        Ok(())
    } else {
        Err(Error::ClientError("could not join client thread".to_string()))
    }
}

/// A new client is consistent, and a consistent client stays so whatever is
/// asked of it.
pub proof fn lemma_client_stays_consistent<H>(
    config: ConfigView,
    client: ClientView<H>,
    builder: SubscriptionBuilderView<H>,
)
    requires
        client.consistent(),
    ensures
        ClientView::<H>::initial(config).consistent(),
        client.started().consistent(),
        client.stopped().consistent(),
        client.joined().consistent(),
        client.opened(builder).consistent(),
{
    if let Some(handler) = builder.handler {
        lemma_add_keeps_distinct(client.subscriptions, builder.topic, handler);
    }
}

/// A client for which no loop has been started refuses to wait for one. It
/// stays so whatever is stopped or waited for, until a start is accepted.
pub proof fn lemma_join_needs_a_start<H>(client: ClientView<H>)
    requires
        !client.joinable,
    ensures
        client.join_result() == Err::<(), ErrorView>(
            ErrorView::ClientError("client not active, cannot join"@),
        ),
        !client.stopped().joinable,
        !client.joined().joinable,
        client.started().joinable <==> client.polling.start_result() is Ok,
{
}

/// A client that does not poll from the start refuses to wait for a loop
/// until it has been started.
pub proof fn lemma_join_before_start_is_refused<H>(config: ConfigView)
    requires
        !config.auto_poll,
    ensures
        ClientView::<H>::initial(config).join_result() == Err::<(), ErrorView>(
            ErrorView::ClientError("client not active, cannot join"@),
        ),
        ClientView::<H>::initial(config).stopped().join_result() is Err,
        ClientView::<H>::initial(config).started().join_result() is Ok,
{
}

/// Of two requests to start a client with no stop between them, the second
/// is refused and changes nothing.
pub proof fn lemma_client_second_start_is_refused<H>(client: ClientView<H>)
    ensures
        client.started().polling.start_result() == Err::<(), ErrorView>(
            ErrorView::ClientError("client already started"@),
        ),
        client.started().started() == client.started(),
{
}

} // verus!
