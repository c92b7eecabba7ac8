//! The values that travel between the worker and the engine.

use vstd::prelude::*;
use vstd::string::StringExecFns;
use crate::service::json::{Json, JsonView, json_text};
use crate::service::variables::{VariableMap, VariableEntries};

verus! {

/// The text of an optional string.
pub open spec fn opt_text(text: Option<String>) -> Option<Seq<char>> {
    match text {
        Some(t) => Some(t@),
        None => None,
    }
}

/// The texts of a list of strings, one for one.
pub open spec fn texts(list: Seq<String>) -> Seq<Seq<char>> {
    list.map_values(|t: String| t@)
}

/// The texts of an optional list of strings.
pub open spec fn opt_texts(list: Option<Vec<String>>) -> Option<Seq<Seq<char>>> {
    match list {
        Some(l) => Some(texts(l@)),
        None => None,
    }
}

fn clone_text(text: &Option<String>) -> (copy: Option<String>)
    ensures
        opt_text(copy) == opt_text(*text),
{
    match text {
        Some(t) => Some(t.clone()),
        None => None,
    }
}

fn clone_list(list: &Vec<String>) -> (copy: Vec<String>)
    ensures
        texts(copy@) == texts(list@),
{
    let mut copy: Vec<String> = Vec::new();
    let mut i: usize = 0;
    while i < list.len()
        invariant
            i <= list.len(),
            copy.len() == i,
            forall|k: int| 0 <= k < i ==> copy[k]@ == list[k]@,
        decreases list.len() - i,
    {
        copy.push(list[i].clone());
        i += 1;
    }
    assert(texts(copy@) =~= texts(list@));
    copy
}

fn clone_opt_list(list: &Option<Vec<String>>) -> (copy: Option<Vec<String>>)
    ensures
        opt_texts(copy) == opt_texts(*list),
{
    match list {
        Some(l) => Some(clone_list(l)),
        None => None,
    }
}

/// How the value of a variable is held by the engine.
#[derive(Debug, PartialEq, Eq)]
pub struct ValueInfo {
    pub object_type_name: Option<String>,
    pub serialization_data_format: Option<String>,
}

/// The mathematical value of a [`ValueInfo`].
pub ghost struct ValueInfoView {
    pub object_type_name: Option<Seq<char>>,
    pub serialization_data_format: Option<Seq<char>>,
}

impl View for ValueInfo {
    type V = ValueInfoView;

    open spec fn view(&self) -> ValueInfoView {
        ValueInfoView {
            object_type_name: opt_text(self.object_type_name),
            serialization_data_format: opt_text(self.serialization_data_format),
        }
    }
}

impl Default for ValueInfo {
    fn default() -> (info: Self)
        ensures
            info@ == (ValueInfoView { object_type_name: None, serialization_data_format: None }),
    {
        ValueInfo { object_type_name: None, serialization_data_format: None }
    }
}

impl Clone for ValueInfo {
    fn clone(&self) -> (copy: Self)
        ensures
            copy@ == self@,
    {
        ValueInfo {
            object_type_name: clone_text(&self.object_type_name),
            serialization_data_format: clone_text(&self.serialization_data_format),
        }
    }
}

/// The value info of an optional [`ValueInfo`].
pub open spec fn opt_info(info: Option<ValueInfo>) -> Option<ValueInfoView> {
    match info {
        Some(i) => Some(i@),
        None => None,
    }
}

/// One entry of a task's payload: a type tag as the engine knows it, a
/// value, and optionally how the value is held. Nothing here checks the tag
/// against the value; the engine does.
#[derive(Debug, PartialEq, Eq)]
pub struct Variable {
    pub kind: String,
    pub value: Json,
    pub value_info: Option<ValueInfo>,
}

/// The mathematical value of a [`Variable`].
pub ghost struct VariableView {
    pub kind: Seq<char>,
    pub value: JsonView,
    pub value_info: Option<ValueInfoView>,
}

impl View for Variable {
    type V = VariableView;

    open spec fn view(&self) -> VariableView {
        VariableView {
            kind: self.kind@,
            value: self.value@,
            value_info: opt_info(self.value_info),
        }
    }
}

impl Default for Variable {
    fn default() -> (variable: Self)
        ensures
            variable@ == (VariableView {
                kind: Seq::empty(),
                value: JsonView::Null,
                value_info: None,
            }),
    {
        Variable { kind: String::new(), value: Json::Null, value_info: None }
    }
}

impl Clone for Variable {
    fn clone(&self) -> (copy: Self)
        ensures
            copy@ == self@,
    {
        Variable {
            kind: self.kind.clone(),
            value: self.value.clone(),
            value_info: match &self.value_info {
                Some(info) => Some(info.clone()),
                None => None,
            },
        }
    }
}

impl VariableView {
    /// The text of a variable: its type tag, a colon and a space, then the
    /// compact JSON text of its value.
    pub open spec fn text(self) -> Seq<char> {
        self.kind + ": "@ + json_text(self.value)
    }
}

impl Variable {
    /// A variable with this type tag and value, and no value info.
    pub fn new(kind: &str, value: Json) -> (variable: Self)
        ensures
            variable@ == (VariableView { kind: kind@, value: value@, value_info: None }),
    {
        Variable { kind: kind.to_string(), value, value_info: None }
    }

    /// Renders the variable for a log line.
    pub fn to_string(&self) -> (text: String)
        ensures
            text@ == self@.text(),
    {
        let mut text = self.kind.clone();
        text.append(": ");
        let value = self.value.to_text();
        text.append(value.as_str());
        text
    }
}

/// A subscription as the engine sees it: the topic, the lease length and
/// the filters. A filter that is `None` does not filter.
#[derive(Debug, PartialEq, Eq)]
pub struct Topic {
    pub topic_name: String,
    pub lock_duration: u32,
    pub variables: Option<Vec<String>>,
    pub local_variables: Option<bool>,
    pub business_key: Option<String>,
    pub process_definition_id: Option<String>,
    pub process_definition_id_in: Option<Vec<String>>,
    pub process_definition_key: Option<String>,
    pub process_definition_key_in: Option<Vec<String>>,
    pub process_definition_version_tag: Option<String>,
    pub without_tenant_id: Option<bool>,
    pub tenant_id_in: Option<Vec<String>>,
    pub process_variables: Option<bool>,
    pub deserialize_values: Option<bool>,
    pub include_extension_properties: Option<bool>,
}

/// The mathematical value of a [`Topic`].
pub ghost struct TopicView {
    pub topic_name: Seq<char>,
    pub lock_duration: u32,
    pub variables: Option<Seq<Seq<char>>>,
    pub local_variables: Option<bool>,
    pub business_key: Option<Seq<char>>,
    pub process_definition_id: Option<Seq<char>>,
    pub process_definition_id_in: Option<Seq<Seq<char>>>,
    pub process_definition_key: Option<Seq<char>>,
    pub process_definition_key_in: Option<Seq<Seq<char>>>,
    pub process_definition_version_tag: Option<Seq<char>>,
    pub without_tenant_id: Option<bool>,
    pub tenant_id_in: Option<Seq<Seq<char>>>,
    pub process_variables: Option<bool>,
    pub deserialize_values: Option<bool>,
    pub include_extension_properties: Option<bool>,
}

impl View for Topic {
    type V = TopicView;

    open spec fn view(&self) -> TopicView {
        TopicView {
            topic_name: self.topic_name@,
            lock_duration: self.lock_duration,
            variables: opt_texts(self.variables),
            local_variables: self.local_variables,
            business_key: opt_text(self.business_key),
            process_definition_id: opt_text(self.process_definition_id),
            process_definition_id_in: opt_texts(self.process_definition_id_in),
            process_definition_key: opt_text(self.process_definition_key),
            process_definition_key_in: opt_texts(self.process_definition_key_in),
            process_definition_version_tag: opt_text(self.process_definition_version_tag),
            without_tenant_id: self.without_tenant_id,
            tenant_id_in: opt_texts(self.tenant_id_in),
            process_variables: self.process_variables,
            deserialize_values: self.deserialize_values,
            include_extension_properties: self.include_extension_properties,
        }
    }
}

/// A topic of the given name and lease length that filters nothing.
pub open spec fn unfiltered(topic_name: Seq<char>, lock_duration: u32) -> TopicView {
    TopicView {
        topic_name,
        lock_duration,
        variables: None,
        local_variables: None,
        business_key: None,
        process_definition_id: None,
        process_definition_id_in: None,
        process_definition_key: None,
        process_definition_key_in: None,
        process_definition_version_tag: None,
        without_tenant_id: None,
        tenant_id_in: None,
        process_variables: None,
        deserialize_values: None,
        include_extension_properties: None,
    }
}

impl Default for Topic {
    fn default() -> (topic: Self)
        ensures
            topic@ == unfiltered(Seq::empty(), 0),
    {
        Topic {
            topic_name: String::new(),
            lock_duration: 0,
            variables: None,
            local_variables: None,
            business_key: None,
            process_definition_id: None,
            process_definition_id_in: None,
            process_definition_key: None,
            process_definition_key_in: None,
            process_definition_version_tag: None,
            without_tenant_id: None,
            tenant_id_in: None,
            process_variables: None,
            deserialize_values: None,
            include_extension_properties: None,
        }
    }
}

impl Clone for Topic {
    fn clone(&self) -> (copy: Self)
        ensures
            copy@ == self@,
    {
        Topic {
            topic_name: self.topic_name.clone(),
            lock_duration: self.lock_duration,
            variables: clone_opt_list(&self.variables),
            local_variables: self.local_variables,
            business_key: clone_text(&self.business_key),
            process_definition_id: clone_text(&self.process_definition_id),
            process_definition_id_in: clone_opt_list(&self.process_definition_id_in),
            process_definition_key: clone_text(&self.process_definition_key),
            process_definition_key_in: clone_opt_list(&self.process_definition_key_in),
            process_definition_version_tag: clone_text(&self.process_definition_version_tag),
            without_tenant_id: self.without_tenant_id,
            tenant_id_in: clone_opt_list(&self.tenant_id_in),
            process_variables: self.process_variables,
            deserialize_values: self.deserialize_values,
            include_extension_properties: self.include_extension_properties,
        }
    }
}

impl Topic {
    /// A topic that filters nothing, with a lease of 50 seconds.
    pub fn new(topic_name: &str) -> (topic: Self)
        ensures
            topic@ == unfiltered(topic_name@, 50000),
    {
        let mut instance = Topic::default();
        instance.topic_name = topic_name.to_string();
        instance.lock_duration = 50000;
        instance
    }
}

/// The values of a list of topics, one for one.
pub open spec fn topic_views(topics: Seq<Topic>) -> Seq<TopicView> {
    topics.map_values(|t: Topic| t@)
}

/// The body of a lease request: who asks, for how many tasks at most, and
/// for which topics.
#[derive(Debug, PartialEq, Eq)]
pub struct FetchAndLockRequest {
    pub worker_id: String,
    pub max_tasks: u32,
    pub use_priority: Option<bool>,
    pub async_response_timeout: Option<u32>,
    pub topics: Vec<Topic>,
}

/// The mathematical value of a [`FetchAndLockRequest`].
pub ghost struct FetchAndLockRequestView {
    pub worker_id: Seq<char>,
    pub max_tasks: u32,
    pub use_priority: Option<bool>,
    pub async_response_timeout: Option<u32>,
    pub topics: Seq<TopicView>,
}

impl View for FetchAndLockRequest {
    type V = FetchAndLockRequestView;

    open spec fn view(&self) -> FetchAndLockRequestView {
        FetchAndLockRequestView {
            worker_id: self.worker_id@,
            max_tasks: self.max_tasks,
            use_priority: self.use_priority,
            async_response_timeout: self.async_response_timeout,
            topics: topic_views(self.topics@),
        }
    }
}

/// A request of the given worker for no task on no topic.
pub open spec fn empty_request(worker_id: Seq<char>) -> FetchAndLockRequestView {
    FetchAndLockRequestView {
        worker_id,
        max_tasks: 0,
        use_priority: None,
        async_response_timeout: None,
        topics: Seq::empty(),
    }
}

impl Default for FetchAndLockRequest {
    fn default() -> (request: Self)
        ensures
            request@ == empty_request(Seq::empty()),
    {
        let request = FetchAndLockRequest {
            worker_id: String::new(),
            max_tasks: 0,
            use_priority: None,
            async_response_timeout: None,
            topics: Vec::new(),
        };
        assert(topic_views(request.topics@) =~= Seq::empty());
        request
    }
}

fn clone_topics(topics: &Vec<Topic>) -> (copy: Vec<Topic>)
    ensures
        topic_views(copy@) == topic_views(topics@),
{
    let mut copy: Vec<Topic> = Vec::new();
    let mut i: usize = 0;
    while i < topics.len()
        invariant
            i <= topics.len(),
            copy.len() == i,
            forall|k: int| 0 <= k < i ==> copy[k]@ == topics[k]@,
        decreases topics.len() - i,
    {
        copy.push(topics[i].clone());
        i += 1;
    }
    assert(topic_views(copy@) =~= topic_views(topics@));
    copy
}

impl Clone for FetchAndLockRequest {
    fn clone(&self) -> (copy: Self)
        ensures
            copy@ == self@,
    {
        FetchAndLockRequest {
            worker_id: self.worker_id.clone(),
            max_tasks: self.max_tasks,
            use_priority: self.use_priority,
            async_response_timeout: self.async_response_timeout,
            topics: clone_topics(&self.topics),
        }
    }
}

impl FetchAndLockRequest {
    /// A request of this worker that asks for nothing yet.
    pub fn new(worker_id: &str) -> (request: Self)
        ensures
            request@ == empty_request(worker_id@),
    {
        let mut instance = FetchAndLockRequest::default();
        instance.worker_id = worker_id.to_string();
        instance
    }

    /// The topics of the request, to be filled in place.
    pub fn topics(&mut self) -> (topics: &mut Vec<Topic>)
        ensures
            *topics == old(self).topics,
            *final(self) == (FetchAndLockRequest { topics: *final(topics), ..*old(self) }),
    {
        &mut self.topics
    }
}

/// The body of a completion report: who reports, and the variables that the
/// handler hands to the process and to the executing scope.
#[derive(Debug, PartialEq, Eq)]
pub struct CompleteRequest {
    pub worker_id: String,
    pub variables: VariableMap,
    pub local_variables: VariableMap,
}

/// The mathematical value of a [`CompleteRequest`].
pub ghost struct CompleteRequestView {
    pub worker_id: Seq<char>,
    pub variables: VariableEntries,
    pub local_variables: VariableEntries,
}

impl View for CompleteRequest {
    type V = CompleteRequestView;

    open spec fn view(&self) -> CompleteRequestView {
        CompleteRequestView {
            worker_id: self.worker_id@,
            variables: self.variables@,
            local_variables: self.local_variables@,
        }
    }
}

impl Default for CompleteRequest {
    fn default() -> (request: Self)
        ensures
            request@ == (CompleteRequestView {
                worker_id: Seq::empty(),
                variables: Seq::empty(),
                local_variables: Seq::empty(),
            }),
    {
        CompleteRequest {
            worker_id: String::new(),
            variables: VariableMap::new(),
            local_variables: VariableMap::new(),
        }
    }
}

impl Clone for CompleteRequest {
    fn clone(&self) -> (copy: Self)
        ensures
            copy@ == self@,
    {
        CompleteRequest {
            worker_id: self.worker_id.clone(),
            variables: self.variables.clone(),
            local_variables: self.local_variables.clone(),
        }
    }
}

/// A unit of work that the engine has leased to a worker.
#[derive(Debug, PartialEq, Eq)]
pub struct Task {
    pub activity_id: String,
    pub activity_instance_id: String,
    pub error_message: Option<String>,
    pub error_details: Option<String>,
    pub execution_id: String,
    pub id: String,
    pub lock_expiration_time: String,
    pub process_definition_id: String,
    pub process_definition_key: String,
    pub process_definition_version_tag: Option<String>,
    pub process_instance_id: String,
    pub retries: Option<String>,
    pub suspended: bool,
    pub worker_id: String,
    pub topic_name: String,
    pub tenant_id: Option<String>,
    pub variables: VariableMap,
    pub priority: u32,
    pub business_key: Option<String>,
}

/// The mathematical value of a [`Task`].
pub ghost struct TaskView {
    pub activity_id: Seq<char>,
    pub activity_instance_id: Seq<char>,
    pub error_message: Option<Seq<char>>,
    pub error_details: Option<Seq<char>>,
    pub execution_id: Seq<char>,
    pub id: Seq<char>,
    pub lock_expiration_time: Seq<char>,
    pub process_definition_id: Seq<char>,
    pub process_definition_key: Seq<char>,
    pub process_definition_version_tag: Option<Seq<char>>,
    pub process_instance_id: Seq<char>,
    pub retries: Option<Seq<char>>,
    pub suspended: bool,
    pub worker_id: Seq<char>,
    pub topic_name: Seq<char>,
    pub tenant_id: Option<Seq<char>>,
    pub variables: VariableEntries,
    pub priority: u32,
    pub business_key: Option<Seq<char>>,
}

impl View for Task {
    type V = TaskView;

    open spec fn view(&self) -> TaskView {
        TaskView {
            activity_id: self.activity_id@,
            activity_instance_id: self.activity_instance_id@,
            error_message: opt_text(self.error_message),
            error_details: opt_text(self.error_details),
            execution_id: self.execution_id@,
            id: self.id@,
            lock_expiration_time: self.lock_expiration_time@,
            process_definition_id: self.process_definition_id@,
            process_definition_key: self.process_definition_key@,
            process_definition_version_tag: opt_text(self.process_definition_version_tag),
            process_instance_id: self.process_instance_id@,
            retries: opt_text(self.retries),
            suspended: self.suspended,
            worker_id: self.worker_id@,
            topic_name: self.topic_name@,
            tenant_id: opt_text(self.tenant_id),
            variables: self.variables@,
            priority: self.priority,
            business_key: opt_text(self.business_key),
        }
    }
}

/// The task whose every text is empty and every option is none.
pub open spec fn blank_task() -> TaskView {
    TaskView {
        activity_id: Seq::empty(),
        activity_instance_id: Seq::empty(),
        error_message: None,
        error_details: None,
        execution_id: Seq::empty(),
        id: Seq::empty(),
        lock_expiration_time: Seq::empty(),
        process_definition_id: Seq::empty(),
        process_definition_key: Seq::empty(),
        process_definition_version_tag: None,
        process_instance_id: Seq::empty(),
        retries: None,
        suspended: false,
        worker_id: Seq::empty(),
        topic_name: Seq::empty(),
        tenant_id: None,
        variables: Seq::empty(),
        priority: 0,
        business_key: None,
    }
}

impl Default for Task {
    fn default() -> (task: Self)
        ensures
            task@ == blank_task(),
    {
        Task {
            activity_id: String::new(),
            activity_instance_id: String::new(),
            error_message: None,
            error_details: None,
            execution_id: String::new(),
            id: String::new(),
            lock_expiration_time: String::new(),
            process_definition_id: String::new(),
            process_definition_key: String::new(),
            process_definition_version_tag: None,
            process_instance_id: String::new(),
            retries: None,
            suspended: false,
            worker_id: String::new(),
            topic_name: String::new(),
            tenant_id: None,
            variables: VariableMap::new(),
            priority: 0,
            business_key: None,
        }
    }
}

impl Clone for Task {
    fn clone(&self) -> (copy: Self)
        ensures
            copy@ == self@,
    {
        Task {
            activity_id: self.activity_id.clone(),
            activity_instance_id: self.activity_instance_id.clone(),
            error_message: clone_text(&self.error_message),
            error_details: clone_text(&self.error_details),
            execution_id: self.execution_id.clone(),
            id: self.id.clone(),
            lock_expiration_time: self.lock_expiration_time.clone(),
            process_definition_id: self.process_definition_id.clone(),
            process_definition_key: self.process_definition_key.clone(),
            process_definition_version_tag: clone_text(&self.process_definition_version_tag),
            process_instance_id: self.process_instance_id.clone(),
            retries: clone_text(&self.retries),
            suspended: self.suspended,
            worker_id: self.worker_id.clone(),
            topic_name: self.topic_name.clone(),
            tenant_id: clone_text(&self.tenant_id),
            variables: self.variables.clone(),
            priority: self.priority,
            business_key: clone_text(&self.business_key),
        }
    }
}

} // verus!
