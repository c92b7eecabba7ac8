//! The registry of topic subscriptions, and the builder that fills it.

use vstd::prelude::*;
use crate::client::config::Config;
use crate::error::{unit_view, Error, ErrorView};
use crate::service::model::{opt_text, opt_texts, topic_views, unfiltered, Topic, TopicView};

verus! {

/// The first subscription to `name`, if there is one.
pub open spec fn subscription_to<H>(
    subscriptions: Seq<(TopicView, H)>,
    name: Seq<char>,
) -> Option<(TopicView, H)>
    decreases subscriptions.len(),
{
    if subscriptions.len() == 0 {
        None
    } else {
        match subscription_to(subscriptions.drop_last(), name) {
            Some(found) => Some(found),
            None => if subscriptions.last().0.topic_name == name {
                Some(subscriptions.last())
            } else {
                None
            },
        }
    }
}

/// Some subscription is to `name`.
pub open spec fn is_registered<H>(subscriptions: Seq<(TopicView, H)>, name: Seq<char>) -> bool {
    subscription_to(subscriptions, name) is Some
}

/// No topic is subscribed to twice.
pub open spec fn distinct_topics<H>(subscriptions: Seq<(TopicView, H)>) -> bool {
    forall|i: int, j: int|
        0 <= i < j < subscriptions.len() ==> (#[trigger] subscriptions[i]).0.topic_name != (
        #[trigger] subscriptions[j]).0.topic_name
}

/// The registry after an attempt to add a subscription: unchanged where the
/// topic is taken, else with the subscription at its end.
pub open spec fn after_add<H>(
    subscriptions: Seq<(TopicView, H)>,
    topic: TopicView,
    handler: H,
) -> Seq<(TopicView, H)> {
    if is_registered(subscriptions, topic.topic_name) {
        subscriptions
    } else {
        subscriptions.push((topic, handler))
    }
}

/// The registry after a series of attempts, made in their order.
pub open spec fn after_all<H>(
    subscriptions: Seq<(TopicView, H)>,
    attempts: Seq<(TopicView, H)>,
) -> Seq<(TopicView, H)>
    decreases attempts.len(),
{
    if attempts.len() == 0 {
        subscriptions
    } else {
        after_add(
            after_all(subscriptions, attempts.drop_last()),
            attempts.last().0,
            attempts.last().1,
        )
    }
}

/// The topics of a registry, in its order.
pub open spec fn topics_of<H>(subscriptions: Seq<(TopicView, H)>) -> Seq<TopicView> {
    subscriptions.map_values(|s: (TopicView, H)| s.0)
}

/// A subscription stays where another is appended.
pub proof fn lemma_subscription_stays<H>(
    subscriptions: Seq<(TopicView, H)>,
    added: (TopicView, H),
    name: Seq<char>,
)
    requires
        is_registered(subscriptions, name),
    ensures
        subscription_to(subscriptions.push(added), name) == subscription_to(subscriptions, name),
{
    assert(subscriptions.push(added).drop_last() =~= subscriptions);
}

/// A topic is registered exactly where some subscription carries its name.
pub proof fn lemma_registered_iff_present<H>(subscriptions: Seq<(TopicView, H)>, name: Seq<char>)
    ensures
        is_registered(subscriptions, name) <==> exists|k: int|
            0 <= k < subscriptions.len() && (#[trigger] subscriptions[k]).0.topic_name == name,
        subscription_to(subscriptions, name) matches Some(found) ==> found.0.topic_name == name
            && subscriptions.contains(found),
    decreases subscriptions.len(),
{
    if subscriptions.len() > 0 {
        let front = subscriptions.drop_last();
        lemma_registered_iff_present(front, name);
        if exists|k: int| 0 <= k < front.len() && (#[trigger] front[k]).0.topic_name == name {
            let k = choose|k: int|
                0 <= k < front.len() && (#[trigger] front[k]).0.topic_name == name;
            assert(subscriptions[k].0.topic_name == name);
        }
        if is_registered(subscriptions, name) {
            let found = subscription_to(subscriptions, name)->0;
            if subscription_to(front, name) is Some {
                let k = choose|k: int| 0 <= k < front.len() && front[k] == found;
                assert(subscriptions[k] == found);
            } else {
                assert(subscriptions[subscriptions.len() - 1] == found);
            }
        }
        if exists|k: int|
            0 <= k < subscriptions.len() && (#[trigger] subscriptions[k]).0.topic_name == name {
            let k = choose|k: int|
                0 <= k < subscriptions.len() && (#[trigger] subscriptions[k]).0.topic_name == name;
            if k < front.len() {
                assert(front[k].0.topic_name == name);
            }
        }
    }
}

/// An attempt to add keeps the topics distinct.
pub proof fn lemma_add_keeps_distinct<H>(
    subscriptions: Seq<(TopicView, H)>,
    topic: TopicView,
    handler: H,
)
    requires
        distinct_topics(subscriptions),
    ensures
        distinct_topics(after_add(subscriptions, topic, handler)),
{
    lemma_registered_iff_present(subscriptions, topic.topic_name);
}

/// Whatever is attempted later, a topic that is registered stays with the
/// subscription it has.
pub proof fn lemma_attempts_keep_subscription<H>(
    subscriptions: Seq<(TopicView, H)>,
    attempts: Seq<(TopicView, H)>,
    name: Seq<char>,
)
    requires
        is_registered(subscriptions, name),
    ensures
        subscription_to(after_all(subscriptions, attempts), name) == subscription_to(
            subscriptions,
            name,
        ),
    decreases attempts.len(),
{
    if attempts.len() > 0 {
        let before = after_all(subscriptions, attempts.drop_last());
        lemma_attempts_keep_subscription(subscriptions, attempts.drop_last(), name);
        if !is_registered(before, attempts.last().0.topic_name) {
            lemma_subscription_stays(before, attempts.last(), name);
        }
    }
}

/// Of two attempts on one topic, made in any series of attempts on any
/// registry, the second is refused and changes nothing, and the topic ends
/// with the subscription that it had after the first. Here `first < second`
/// are the places of the two attempts in the series.
pub proof fn lemma_second_open_is_refused<H>(
    subscriptions: Seq<(TopicView, H)>,
    attempts: Seq<(TopicView, H)>,
    first: int,
    second: int,
)
    requires
        0 <= first < second < attempts.len(),
        attempts[first].0.topic_name == attempts[second].0.topic_name,
    ensures
        is_registered(
            after_all(subscriptions, attempts.subrange(0, second)),
            attempts[second].0.topic_name,
        ),
        after_all(subscriptions, attempts.subrange(0, second + 1)) == after_all(
            subscriptions,
            attempts.subrange(0, second),
        ),
        subscription_to(after_all(subscriptions, attempts), attempts[first].0.topic_name)
            == subscription_to(
            after_all(subscriptions, attempts.subrange(0, first + 1)),
            attempts[first].0.topic_name,
        ),
{
    let name = attempts[first].0.topic_name;
    let upto_first = attempts.subrange(0, first + 1);
    let after_first = after_all(subscriptions, upto_first);
    // The first attempt leaves the topic registered, whether it was accepted or not.
    assert(is_registered(after_first, name)) by {
        let before = after_all(subscriptions, upto_first.drop_last());
        assert(upto_first.last() == attempts[first]);
        if !is_registered(before, name) {
            assert(before.push(attempts[first]).drop_last() =~= before);
        }
    }
    // What follows the first attempt is a series of attempts on that registry.
    lemma_after_all_split(subscriptions, attempts.subrange(0, second), first + 1);
    assert(attempts.subrange(0, second).subrange(0, first + 1) =~= upto_first);
    let between = attempts.subrange(0, second).subrange(first + 1, second);
    lemma_attempts_keep_subscription(after_first, between, name);
    let before_second = after_all(subscriptions, attempts.subrange(0, second));
    assert(is_registered(before_second, name));
    assert(attempts.subrange(0, second + 1).drop_last() =~= attempts.subrange(0, second));
    assert(attempts.subrange(0, second + 1).last() == attempts[second]);
    lemma_after_all_split(subscriptions, attempts, first + 1);
    assert(attempts.subrange(0, attempts.len() as int) =~= attempts);
    lemma_attempts_keep_subscription(
        after_first,
        attempts.subrange(first + 1, attempts.len() as int),
        name,
    );
}

/// A series of attempts can be made in two parts.
pub proof fn lemma_after_all_split<H>(
    subscriptions: Seq<(TopicView, H)>,
    attempts: Seq<(TopicView, H)>,
    at: int,
)
    requires
        0 <= at <= attempts.len(),
    ensures
        after_all(subscriptions, attempts) == after_all(
            after_all(subscriptions, attempts.subrange(0, at)),
            attempts.subrange(at, attempts.len() as int),
        ),
    decreases attempts.len(),
{
    let rest = attempts.subrange(at, attempts.len() as int);
    if at == attempts.len() {
        assert(attempts.subrange(0, at) =~= attempts);
    } else {
        let front = attempts.drop_last();
        lemma_after_all_split(subscriptions, front, at);
        assert(front.subrange(0, at) =~= attempts.subrange(0, at));
        assert(front.subrange(at, front.len() as int) =~= rest.drop_last());
        assert(rest.last() == attempts.last());
    }
}

/// The table from topic to subscription and handler. A topic has at most
/// one subscription; subscriptions are never removed and keep the order in
/// which they were added.
pub struct SubscriptionManager<H> {
    subscriptions: Vec<(Topic, H)>,
}

/// The values of a list of subscriptions, one for one.
pub open spec fn subscription_views<H>(subscriptions: Seq<(Topic, H)>) -> Seq<(TopicView, H)> {
    subscriptions.map_values(|s: (Topic, H)| (s.0@, s.1))
}

impl<H> View for SubscriptionManager<H> {
    type V = Seq<(TopicView, H)>;

    closed spec fn view(&self) -> Seq<(TopicView, H)> {
        subscription_views(self.subscriptions@)
    }
}

impl<H> SubscriptionManager<H> {
    #[verifier::type_invariant]
    spec fn topics_are_distinct(self) -> bool {
        distinct_topics(subscription_views(self.subscriptions@))
    }

    /// A registry without subscriptions.
    pub fn new() -> (manager: Self)
        ensures
            manager@ == Seq::<(TopicView, H)>::empty(),
    {
        let manager = SubscriptionManager { subscriptions: Vec::new() };
        assert(subscription_views(manager.subscriptions@) =~= Seq::empty());
        manager
    }

    /// The place of the subscription to `name`, or the number of
    /// subscriptions where there is none.
    fn find(&self, name: &String) -> (at: usize)
        ensures
            at <= self.subscriptions.len(),
            at < self.subscriptions.len() ==> subscription_to(self@, name@) == Some(
                self@[at as int],
            ),
            at == self.subscriptions.len() ==> !is_registered(self@, name@),
    {
        let mut i: usize = 0;
        assert(self@.subrange(0, 0) =~= Seq::empty());
        while i < self.subscriptions.len()
            invariant
                i <= self.subscriptions.len(),
                !is_registered(self@.subrange(0, i as int), name@),
            decreases self.subscriptions.len() - i,
        {
            proof {
                assert(self@.subrange(0, i + 1).drop_last() =~= self@.subrange(0, i as int));
                assert(self@.subrange(0, i + 1).last() == self@[i as int]);
                assert(self@[i as int].0 == self.subscriptions[i as int].0@);
            }
            if self.subscriptions[i].0.topic_name == *name {
                proof {
                    lemma_found_in_front(self@, i + 1, name@);
                }
                return i;
            }
            i += 1;
        }
        assert(self@.subrange(0, i as int) =~= self@);
        i
    }

    /// Registers `handler` for `topic`. A topic that is taken is refused,
    /// and the registry stays as it was.
    pub fn add_subscription(&mut self, topic: Topic, handler: H) -> (outcome: Result<(), Error>)
        ensures
            final(self)@ == after_add(old(self)@, topic@, handler),
            unit_view(outcome) == add_result(old(self)@, topic@),
    {
        proof {
            use_type_invariant(&*self);
            lemma_add_keeps_distinct(self@, topic@, handler);
        }
        let at = self.find(&topic.topic_name);
        if at < self.subscriptions.len() {
            Err(Error::TopicSubscriptionError("topic already registered".to_string()))
        } else {
            let ghost before = self@;
            let mut subscriptions: Vec<(Topic, H)> = Vec::new();
            std::mem::swap(&mut subscriptions, &mut self.subscriptions);
            subscriptions.push((topic, handler));
            assert(subscription_views(subscriptions@) =~= before.push((topic@, handler)));
            self.subscriptions = subscriptions;
            Ok(())
        }
    }

    /// A copy of the topics that are subscribed to, in the order in which
    /// they were added. No two of them have one name.
    pub fn subscriptions(&self) -> (topics: Vec<Topic>)
        ensures
            topic_views(topics@) == topics_of(self@),
            distinct_topics(self@),
    {
        proof {
            use_type_invariant(self);
        }
        let mut topics: Vec<Topic> = Vec::new();
        let mut i: usize = 0;
        while i < self.subscriptions.len()
            invariant
                i <= self.subscriptions.len(),
                topics.len() == i,
                forall|k: int| 0 <= k < i ==> topics[k]@ == self.subscriptions[k].0@,
            decreases self.subscriptions.len() - i,
        {
            topics.push(self.subscriptions[i].0.clone());
            i += 1;
        }
        assert(topic_views(topics@) =~= topics_of(self@));
        topics
    }

    /// The handler of the topic `topic_name`; `None` where nothing is
    /// subscribed to it.
    pub fn get_handler(&self, topic_name: &str) -> (handler: Option<&H>)
        ensures
            match handler {
                Some(h) => subscription_to(self@, topic_name@) matches Some(found) && found.1
                    == *h,
                None => !is_registered(self@, topic_name@),
            },
    {
        let key = topic_name.to_owned();
        let at = self.find(&key);
        if at < self.subscriptions.len() {
            Some(&self.subscriptions[at].1)
        } else {
            None
        }
    }
}

/// What is found in a front part of the registry is what is found in the
/// whole.
pub proof fn lemma_found_in_front<H>(
    subscriptions: Seq<(TopicView, H)>,
    front: int,
    name: Seq<char>,
)
    requires
        0 <= front <= subscriptions.len(),
        is_registered(subscriptions.subrange(0, front), name),
    ensures
        subscription_to(subscriptions, name) == subscription_to(
            subscriptions.subrange(0, front),
            name,
        ),
    decreases subscriptions.len() - front,
{
    if front == subscriptions.len() {
        assert(subscriptions.subrange(0, front) =~= subscriptions);
    } else {
        let longer = subscriptions.subrange(0, front + 1);
        assert(longer.drop_last() =~= subscriptions.subrange(0, front));
        lemma_found_in_front(subscriptions, front + 1, name);
    }
}

/// The mathematical value of a [`SubscriptionBuilder`].
pub ghost struct SubscriptionBuilderView<H> {
    /// The subscription as built so far.
    pub topic: TopicView,
    /// The handler, until `open` has taken it.
    pub handler: Option<H>,
}

impl<H> SubscriptionBuilderView<H> {
    /// The builder after `open`: without its handler.
    pub open spec fn opened(self) -> SubscriptionBuilderView<H> {
        SubscriptionBuilderView { handler: None, ..self }
    }

    /// The answer to `open`: refused where the builder has no handler, and
    /// where the topic is taken.
    pub open spec fn open_result(self, subscriptions: Seq<(TopicView, H)>) -> Result<
        (),
        ErrorView,
    > {
        match self.handler {
            Some(_) => add_result(subscriptions, self.topic),
            None => Err(ErrorView::TopicSubscriptionError("handler cannot be none"@)),
        }
    }

    /// The registry after `open`: as it was where the builder has no
    /// handler, else after the attempt to add the subscription.
    pub open spec fn registered(self, subscriptions: Seq<(TopicView, H)>) -> Seq<(TopicView, H)> {
        match self.handler {
            Some(handler) => after_add(subscriptions, self.topic, handler),
            None => subscriptions,
        }
    }
}

/// The answer to an attempt to add a subscription to `topic`: refused where
/// the topic is taken.
pub open spec fn add_result<H>(subscriptions: Seq<(TopicView, H)>, topic: TopicView) -> Result<
    (),
    ErrorView,
> {
    if is_registered(subscriptions, topic.topic_name) {
        Err(ErrorView::TopicSubscriptionError("topic already registered"@))
    } else {
        Ok(())
    }
}

/// A subscription under construction: a topic with its filters, and the
/// handler once it is given.
pub struct SubscriptionBuilder<H> {
    topic: Topic,
    handler: Option<H>,
}

impl<H> View for SubscriptionBuilder<H> {
    type V = SubscriptionBuilderView<H>;

    closed spec fn view(&self) -> SubscriptionBuilderView<H> {
        SubscriptionBuilderView { topic: self.topic@, handler: self.handler }
    }
}

impl<H> SubscriptionBuilder<H> {
    /// A builder for `topic_name` without a handler or a filter, with the
    /// lease length of `config`.
    pub fn new(config: &Config, topic_name: &str) -> (builder: Self)
        ensures
            builder@ == (SubscriptionBuilderView::<H> {
                topic: unfiltered(topic_name@, config@.lock_duration),
                handler: None,
            }),
    {
        let mut topic = Topic::default();
        topic.topic_name = topic_name.to_string();
        topic.lock_duration = config.lock_duration();
        SubscriptionBuilder { topic, handler: None }
    }

    /// Gives the handler that is to run the tasks of the topic. A handler
    /// that is given later takes the place of an earlier one.
    pub fn handler(&mut self, handler: H) -> (builder: &mut Self)
        ensures
            builder@ == (SubscriptionBuilderView { handler: Some(handler), ..old(self)@ }),
            *final(self) == *final(builder),
    {
        self.handler = Some(handler);
        self
    }

    /// Sets the lease length of the topic, in milliseconds.
    pub fn lock_duration(&mut self, lock_duration: u32) -> (builder: &mut Self)
        ensures
            builder@ == (SubscriptionBuilderView {
                topic: TopicView { lock_duration, ..old(self)@.topic },
                ..old(self)@
            }),
            *final(self) == *final(builder),
    {
        self.topic.lock_duration = lock_duration;
        self
    }

    /// Sets the filter `variables`; `None` takes it back, and the request then
    /// leaves it out.
    pub fn variables(&mut self, variables: Option<Vec<String>>) -> (builder: &mut Self)
        ensures
            builder@ == (SubscriptionBuilderView {
                topic: TopicView { variables: opt_texts(variables), ..old(self)@.topic },
                ..old(self)@
            }),
            *final(self) == *final(builder),
    {
        self.topic.variables = variables;
        self
    }

    /// Sets the filter `localVariables`; `None` takes it back, and the request then
    /// leaves it out.
    pub fn local_variables(&mut self, local_variables: Option<bool>) -> (builder: &mut Self)
        ensures
            builder@ == (SubscriptionBuilderView {
                topic: TopicView { local_variables, ..old(self)@.topic },
                ..old(self)@
            }),
            *final(self) == *final(builder),
    {
        self.topic.local_variables = local_variables;
        self
    }

    /// Sets the filter `businessKey`; `None` takes it back, and the request then
    /// leaves it out.
    pub fn business_key(&mut self, business_key: Option<String>) -> (builder: &mut Self)
        ensures
            builder@ == (SubscriptionBuilderView {
                topic: TopicView { business_key: opt_text(business_key), ..old(self)@.topic },
                ..old(self)@
            }),
            *final(self) == *final(builder),
    {
        self.topic.business_key = business_key;
        self
    }

    /// Sets the filter `processDefinitionId`; `None` takes it back, and the request then
    /// leaves it out.
    pub fn process_definition_id(
        &mut self,
        process_definition_id: Option<String>,
    ) -> (builder: &mut Self)
        ensures
            builder@ == (SubscriptionBuilderView {
                topic: TopicView {
                    process_definition_id: opt_text(process_definition_id),
                    ..old(self)@.topic
                },
                ..old(self)@
            }),
            *final(self) == *final(builder),
    {
        self.topic.process_definition_id = process_definition_id;
        self
    }

    /// Sets the filter `processDefinitionIdIn`; `None` takes it back, and the request then
    /// leaves it out.
    pub fn process_definition_id_in(
        &mut self,
        process_definition_id_in: Option<Vec<String>>,
    ) -> (builder: &mut Self)
        ensures
            builder@ == (SubscriptionBuilderView {
                topic: TopicView {
                    process_definition_id_in: opt_texts(process_definition_id_in),
                    ..old(self)@.topic
                },
                ..old(self)@
            }),
            *final(self) == *final(builder),
    {
        self.topic.process_definition_id_in = process_definition_id_in;
        self
    }

    /// Sets the filter `processDefinitionKey`; `None` takes it back, and the request then
    /// leaves it out.
    pub fn process_definition_key(
        &mut self,
        process_definition_key: Option<String>,
    ) -> (builder: &mut Self)
        ensures
            builder@ == (SubscriptionBuilderView {
                topic: TopicView {
                    process_definition_key: opt_text(process_definition_key),
                    ..old(self)@.topic
                },
                ..old(self)@
            }),
            *final(self) == *final(builder),
    {
        self.topic.process_definition_key = process_definition_key;
        self
    }

    /// Sets the filter `processDefinitionKeyIn`; `None` takes it back, and the request then
    /// leaves it out.
    pub fn process_definition_key_in(
        &mut self,
        process_definition_key_in: Option<Vec<String>>,
    ) -> (builder: &mut Self)
        ensures
            builder@ == (SubscriptionBuilderView {
                topic: TopicView {
                    process_definition_key_in: opt_texts(process_definition_key_in),
                    ..old(self)@.topic
                },
                ..old(self)@
            }),
            *final(self) == *final(builder),
    {
        self.topic.process_definition_key_in = process_definition_key_in;
        self
    }

    /// Sets the filter `processDefinitionVersionTag`; `None` takes it back, and the request then
    /// leaves it out.
    pub fn process_definition_version_tag(
        &mut self,
        process_definition_version_tag: Option<String>,
    ) -> (builder: &mut Self)
        ensures
            builder@ == (SubscriptionBuilderView {
                topic: TopicView {
                    process_definition_version_tag: opt_text(process_definition_version_tag),
                    ..old(self)@.topic
                },
                ..old(self)@
            }),
            *final(self) == *final(builder),
    {
        self.topic.process_definition_version_tag = process_definition_version_tag;
        self
    }

    /// Sets the filter `withoutTenantId`; `None` takes it back, and the request then
    /// leaves it out.
    pub fn without_tenant_id(&mut self, without_tenant_id: Option<bool>) -> (builder: &mut Self)
        ensures
            builder@ == (SubscriptionBuilderView {
                topic: TopicView { without_tenant_id, ..old(self)@.topic },
                ..old(self)@
            }),
            *final(self) == *final(builder),
    {
        self.topic.without_tenant_id = without_tenant_id;
        self
    }

    /// Sets the filter `tenantIdIn`; `None` takes it back, and the request then
    /// leaves it out.
    pub fn tenant_id_in(&mut self, tenant_id_in: Option<Vec<String>>) -> (builder: &mut Self)
        ensures
            builder@ == (SubscriptionBuilderView {
                topic: TopicView { tenant_id_in: opt_texts(tenant_id_in), ..old(self)@.topic },
                ..old(self)@
            }),
            *final(self) == *final(builder),
    {
        self.topic.tenant_id_in = tenant_id_in;
        self
    }

    /// Sets the filter `processVariables`; `None` takes it back, and the request then
    /// leaves it out.
    pub fn process_variables(&mut self, process_variables: Option<bool>) -> (builder: &mut Self)
        ensures
            builder@ == (SubscriptionBuilderView {
                topic: TopicView { process_variables, ..old(self)@.topic },
                ..old(self)@
            }),
            *final(self) == *final(builder),
    {
        self.topic.process_variables = process_variables;
        self
    }

    /// Sets the filter `deserializeValues`; `None` takes it back, and the request then
    /// leaves it out.
    pub fn deserialize_values(&mut self, deserialize_values: Option<bool>) -> (builder: &mut Self)
        ensures
            builder@ == (SubscriptionBuilderView {
                topic: TopicView { deserialize_values, ..old(self)@.topic },
                ..old(self)@
            }),
            *final(self) == *final(builder),
    {
        self.topic.deserialize_values = deserialize_values;
        self
    }

    /// Sets the filter `includeExtensionProperties`; `None` takes it back, and the request then
    /// leaves it out.
    pub fn include_extension_properties(
        &mut self,
        include_extension_properties: Option<bool>,
    ) -> (builder: &mut Self)
        ensures
            builder@ == (SubscriptionBuilderView {
                topic: TopicView { include_extension_properties, ..old(self)@.topic },
                ..old(self)@
            }),
            *final(self) == *final(builder),
    {
        self.topic.include_extension_properties = include_extension_properties;
        self
    }

    /// Hands the subscription to the registry. Without a handler nothing
    /// happens but the refusal. With one, the handler is taken from the
    /// builder, and the registry accepts the subscription unless its topic
    /// is taken.
    pub fn open(&mut self, manager: &mut SubscriptionManager<H>) -> (outcome: Result<(), Error>)
        ensures
            unit_view(outcome) == old(self)@.open_result(old(manager)@),
            final(self)@ == old(self)@.opened(),
            final(manager)@ == old(self)@.registered(old(manager)@),
    {
        match self.handler.take() {
            None => Err(Error::TopicSubscriptionError("handler cannot be none".to_string())),
            Some(handler) => manager.add_subscription(self.topic.clone(), handler),
        }
    }
}

} // verus!
