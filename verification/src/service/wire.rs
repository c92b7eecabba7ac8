//! The documents of the wire protocol: how requests are written and how
//! leased tasks are read.

use vstd::prelude::*;
use crate::service::json::{
    array_view, lemma_array_view, lemma_array_view_push, lemma_object_view,
    lemma_object_view_push, lookup, object_view, Json, JsonView,
};
use crate::service::model::{
    opt_info, opt_text, opt_texts, texts, topic_views, CompleteRequest, CompleteRequestView,
    FetchAndLockRequest, FetchAndLockRequestView, Task, TaskView, Topic, TopicView, ValueInfo,
    ValueInfoView, Variable, VariableView,
};
use crate::service::variables::{
    distinct_names, entry_views, has_name, with_variable, VariableEntries, VariableMap,
};

verus! {

/// The members of an object, as values.
pub type Members = Seq<(Seq<char>, JsonView)>;

/// A member that is written only where there is a value.
pub open spec fn optional_member(name: Seq<char>, value: Option<JsonView>) -> Members {
    match value {
        Some(v) => seq![(name, v)],
        None => Seq::empty(),
    }
}

/// A text, or null where there is none.
pub open spec fn nullable_text(text: Option<Seq<char>>) -> JsonView {
    match text {
        Some(t) => JsonView::String(t),
        None => JsonView::Null,
    }
}

/// A flag, or null where there is none.
pub open spec fn nullable_flag(flag: Option<bool>) -> JsonView {
    match flag {
        Some(b) => JsonView::Bool(b),
        None => JsonView::Null,
    }
}

/// The document of an optional text.
pub open spec fn some_text(text: Option<Seq<char>>) -> Option<JsonView> {
    match text {
        Some(t) => Some(JsonView::String(t)),
        None => None,
    }
}

/// The document of an optional flag.
pub open spec fn some_flag(flag: Option<bool>) -> Option<JsonView> {
    match flag {
        Some(b) => Some(JsonView::Bool(b)),
        None => None,
    }
}

/// The document of an optional number.
pub open spec fn some_number(number: Option<u32>) -> Option<JsonView> {
    match number {
        Some(n) => Some(JsonView::Unsigned(n as u64)),
        None => None,
    }
}

/// An array of texts.
pub open spec fn text_list(list: Seq<Seq<char>>) -> JsonView {
    JsonView::Array(list.map_values(|t: Seq<char>| JsonView::String(t)))
}

/// The document of an optional list of texts.
pub open spec fn some_list(list: Option<Seq<Seq<char>>>) -> Option<JsonView> {
    match list {
        Some(l) => Some(text_list(l)),
        None => None,
    }
}

/// A topic as the lease request carries it: name and lease length always,
/// each filter only where it is set.
pub open spec fn topic_document(topic: TopicView) -> JsonView {
    JsonView::Object(
        seq![
            ("topicName"@, JsonView::String(topic.topic_name)),
            ("lockDuration"@, JsonView::Unsigned(topic.lock_duration as u64)),
        ] + optional_member("variables"@, some_list(topic.variables)) + optional_member(
            "localVariables"@,
            some_flag(topic.local_variables),
        ) + optional_member("businessKey"@, some_text(topic.business_key)) + optional_member(
            "processDefinitionId"@,
            some_text(topic.process_definition_id),
        ) + optional_member("processDefinitionIdIn"@, some_list(topic.process_definition_id_in))
            + optional_member("processDefinitionKey"@, some_text(topic.process_definition_key))
            + optional_member(
            "processDefinitionKeyIn"@,
            some_list(topic.process_definition_key_in),
        ) + optional_member(
            "processDefinitionVersionTag"@,
            some_text(topic.process_definition_version_tag),
        ) + optional_member("withoutTenantId"@, some_flag(topic.without_tenant_id))
            + optional_member("tenantIdIn"@, some_list(topic.tenant_id_in)) + optional_member(
            "processVariables"@,
            some_flag(topic.process_variables),
        ) + optional_member("deserializeValues"@, some_flag(topic.deserialize_values))
            + optional_member(
            "includeExtensionProperties"@,
            some_flag(topic.include_extension_properties),
        ),
    )
}

/// The body of a lease request. The priority flag is written as null where
/// it is not set; the response timeout is left out where it is not set.
pub open spec fn request_document(request: FetchAndLockRequestView) -> JsonView {
    JsonView::Object(
        (seq![
            ("workerId"@, JsonView::String(request.worker_id)),
            ("maxTasks"@, JsonView::Unsigned(request.max_tasks as u64)),
            ("usePriority"@, nullable_flag(request.use_priority)),
        ] + optional_member(
            "asyncResponseTimeout"@,
            some_number(request.async_response_timeout),
        )).push(
            (
                "topics"@,
                JsonView::Array(request.topics.map_values(|t: TopicView| topic_document(t))),
            ),
        ),
    )
}

/// How a value is held, as the wire carries it: both members always, null
/// where one is not set.
pub open spec fn value_info_document(info: ValueInfoView) -> JsonView {
    JsonView::Object(
        seq![
            ("objectTypeName"@, nullable_text(info.object_type_name)),
            ("serializationDataFormat"@, nullable_text(info.serialization_data_format)),
        ],
    )
}

/// The document of an optional value info.
pub open spec fn some_info(info: Option<ValueInfoView>) -> Option<JsonView> {
    match info {
        Some(i) => Some(value_info_document(i)),
        None => None,
    }
}

/// A variable as the wire carries it: type tag and value always, the value
/// info only where it is set.
pub open spec fn variable_document(variable: VariableView) -> JsonView {
    JsonView::Object(
        seq![("type"@, JsonView::String(variable.kind)), ("value"@, variable.value)]
            + optional_member("valueInfo"@, some_info(variable.value_info)),
    )
}

/// The members that carry a map of variables, one for each entry, in the
/// order of the entries.
pub open spec fn variable_members(entries: VariableEntries) -> Members {
    entries.map_values(|e: (Seq<char>, VariableView)| (e.0, variable_document(e.1)))
}

/// A map of variables as the wire carries it: an object, empty where the
/// map is empty.
pub open spec fn variables_document(entries: VariableEntries) -> JsonView {
    JsonView::Object(variable_members(entries))
}

/// The body of a completion report.
pub open spec fn complete_document(request: CompleteRequestView) -> JsonView {
    JsonView::Object(
        seq![
            ("workerId"@, JsonView::String(request.worker_id)),
            ("variables"@, variables_document(request.variables)),
            ("localVariables"@, variables_document(request.local_variables)),
        ],
    )
}

/// The value of an optional document.
pub open spec fn opt_json(doc: Option<Json>) -> Option<JsonView> {
    match doc {
        Some(d) => Some(d@),
        None => None,
    }
}

fn put(members: &mut Vec<(String, Json)>, name: &str, value: Json)
    ensures
        object_view(final(members)@) == object_view(old(members)@).push((name@, value@)),
{
    let member = (name.to_string(), value);
    proof {
        lemma_object_view_push(members@, member);
    }
    members.push(member);
}

fn put_optional(members: &mut Vec<(String, Json)>, name: &str, value: Option<Json>)
    ensures
        object_view(final(members)@) == object_view(old(members)@) + optional_member(
            name@,
            opt_json(value),
        ),
{
    match value {
        Some(v) => {
            let ghost before = object_view(members@);
            put(members, name, v);
            assert(before.push((name@, v@)) =~= before + seq![(name@, v@)]);
        },
        None => {
            assert(object_view(members@) + Seq::<(Seq<char>, JsonView)>::empty() =~= object_view(
                members@,
            ));
        },
    }
}

fn text_value(text: &String) -> (doc: Json)
    ensures
        doc@ == JsonView::String(text@),
{
    Json::String(text.clone())
}

fn optional_text_value(text: &Option<String>) -> (doc: Option<Json>)
    ensures
        opt_json(doc) == some_text(opt_text(*text)),
{
    match text {
        Some(t) => Some(text_value(t)),
        None => None,
    }
}

fn nullable_text_value(text: &Option<String>) -> (doc: Json)
    ensures
        doc@ == nullable_text(opt_text(*text)),
{
    match text {
        Some(t) => text_value(t),
        None => Json::Null,
    }
}

fn optional_flag_value(flag: Option<bool>) -> (doc: Option<Json>)
    ensures
        opt_json(doc) == some_flag(flag),
{
    match flag {
        Some(b) => Some(Json::Bool(b)),
        None => None,
    }
}

fn list_value(list: &Vec<String>) -> (doc: Json)
    ensures
        doc@ == text_list(texts(list@)),
{
    let mut items: Vec<Json> = Vec::new();
    let mut i: usize = 0;
    let ghost wanted = texts(list@).map_values(|t: Seq<char>| JsonView::String(t));
    while i < list.len()
        invariant
            i <= list.len(),
            wanted == texts(list@).map_values(|t: Seq<char>| JsonView::String(t)),
            array_view(items@) == wanted.subrange(0, i as int),
        decreases list.len() - i,
    {
        let item = text_value(&list[i]);
        proof {
            lemma_array_view_push(items@, item);
            assert(wanted.subrange(0, i as int).push(item@) =~= wanted.subrange(0, i + 1));
        }
        items.push(item);
        i += 1;
    }
    assert(wanted.subrange(0, i as int) =~= wanted);
    Json::Array(items)
}

fn optional_list_value(list: &Option<Vec<String>>) -> (doc: Option<Json>)
    ensures
        opt_json(doc) == some_list(opt_texts(*list)),
{
    match list {
        Some(l) => Some(list_value(l)),
        None => None,
    }
}

impl Topic {
    /// The topic as the lease request carries it.
    pub fn to_json(&self) -> (doc: Json)
        ensures
            doc@ == topic_document(self@),
    {
        let mut members: Vec<(String, Json)> = Vec::new();
        put(&mut members, "topicName", text_value(&self.topic_name));
        put(&mut members, "lockDuration", Json::Unsigned(self.lock_duration as u64));
        assert(object_view(members@) =~= seq![
            ("topicName"@, JsonView::String(self@.topic_name)),
            ("lockDuration"@, JsonView::Unsigned(self@.lock_duration as u64)),
        ]);
        put_optional(&mut members, "variables", optional_list_value(&self.variables));
        put_optional(&mut members, "localVariables", optional_flag_value(self.local_variables));
        put_optional(&mut members, "businessKey", optional_text_value(&self.business_key));
        put_optional(
            &mut members,
            "processDefinitionId",
            optional_text_value(&self.process_definition_id),
        );
        put_optional(
            &mut members,
            "processDefinitionIdIn",
            optional_list_value(&self.process_definition_id_in),
        );
        put_optional(
            &mut members,
            "processDefinitionKey",
            optional_text_value(&self.process_definition_key),
        );
        put_optional(
            &mut members,
            "processDefinitionKeyIn",
            optional_list_value(&self.process_definition_key_in),
        );
        put_optional(
            &mut members,
            "processDefinitionVersionTag",
            optional_text_value(&self.process_definition_version_tag),
        );
        put_optional(&mut members, "withoutTenantId", optional_flag_value(self.without_tenant_id));
        put_optional(&mut members, "tenantIdIn", optional_list_value(&self.tenant_id_in));
        put_optional(&mut members, "processVariables", optional_flag_value(self.process_variables));
        put_optional(
            &mut members,
            "deserializeValues",
            optional_flag_value(self.deserialize_values),
        );
        put_optional(
            &mut members,
            "includeExtensionProperties",
            optional_flag_value(self.include_extension_properties),
        );
        Json::Object(members)
    }
}

fn topics_value(topics: &Vec<Topic>) -> (doc: Json)
    ensures
        doc@ == JsonView::Array(topic_views(topics@).map_values(|t: TopicView| topic_document(t))),
{
    let mut items: Vec<Json> = Vec::new();
    let mut i: usize = 0;
    let ghost wanted = topic_views(topics@).map_values(|t: TopicView| topic_document(t));
    while i < topics.len()
        invariant
            i <= topics.len(),
            wanted == topic_views(topics@).map_values(|t: TopicView| topic_document(t)),
            array_view(items@) == wanted.subrange(0, i as int),
        decreases topics.len() - i,
    {
        let item = topics[i].to_json();
        proof {
            lemma_array_view_push(items@, item);
            assert(wanted.subrange(0, i as int).push(item@) =~= wanted.subrange(0, i + 1));
        }
        items.push(item);
        i += 1;
    }
    assert(wanted.subrange(0, i as int) =~= wanted);
    Json::Array(items)
}

impl FetchAndLockRequest {
    /// The body of the lease request.
    pub fn to_json(&self) -> (doc: Json)
        ensures
            doc@ == request_document(self@),
    {
        let mut members: Vec<(String, Json)> = Vec::new();
        put(&mut members, "workerId", text_value(&self.worker_id));
        put(&mut members, "maxTasks", Json::Unsigned(self.max_tasks as u64));
        put(
            &mut members,
            "usePriority",
            match self.use_priority {
                Some(b) => Json::Bool(b),
                None => Json::Null,
            },
        );
        assert(object_view(members@) =~= seq![
            ("workerId"@, JsonView::String(self@.worker_id)),
            ("maxTasks"@, JsonView::Unsigned(self@.max_tasks as u64)),
            ("usePriority"@, nullable_flag(self@.use_priority)),
        ]);
        put_optional(
            &mut members,
            "asyncResponseTimeout",
            match self.async_response_timeout {
                Some(n) => Some(Json::Unsigned(n as u64)),
                None => None,
            },
        );
        put(&mut members, "topics", topics_value(&self.topics));
        Json::Object(members)
    }
}

impl ValueInfo {
    /// The value info as the wire carries it.
    pub fn to_json(&self) -> (doc: Json)
        ensures
            doc@ == value_info_document(self@),
    {
        let mut members: Vec<(String, Json)> = Vec::new();
        put(&mut members, "objectTypeName", nullable_text_value(&self.object_type_name));
        put(
            &mut members,
            "serializationDataFormat",
            nullable_text_value(&self.serialization_data_format),
        );
        assert(object_view(members@) =~= seq![
            ("objectTypeName"@, nullable_text(self@.object_type_name)),
            ("serializationDataFormat"@, nullable_text(self@.serialization_data_format)),
        ]);
        Json::Object(members)
    }
}

impl Variable {
    /// The variable as the wire carries it.
    pub fn to_json(&self) -> (doc: Json)
        ensures
            doc@ == variable_document(self@),
    {
        let mut members: Vec<(String, Json)> = Vec::new();
        put(&mut members, "type", text_value(&self.kind));
        put(&mut members, "value", self.value.clone());
        assert(object_view(members@) =~= seq![
            ("type"@, JsonView::String(self@.kind)),
            ("value"@, self@.value),
        ]);
        put_optional(
            &mut members,
            "valueInfo",
            match &self.value_info {
                Some(info) => Some(info.to_json()),
                None => None,
            },
        );
        Json::Object(members)
    }
}

impl VariableMap {
    /// The variables as the wire carries them: an object with one member
    /// for each entry, and so an empty object for an empty map.
    pub fn to_json(&self) -> (doc: Json)
        ensures
            doc@ == variables_document(self@),
    {
        let entries = self.entries();
        let mut members: Vec<(String, Json)> = Vec::new();
        let mut i: usize = 0;
        let ghost wanted = variable_members(self@);
        assert(object_view(members@) =~= wanted.subrange(0, 0));
        while i < entries.len()
            invariant
                i <= entries.len(),
                entry_views(entries@) == self@,
                wanted == variable_members(self@),
                object_view(members@) == wanted.subrange(0, i as int),
            decreases entries.len() - i,
        {
            let ghost before = object_view(members@);
            let value = entries[i].1.to_json();
            put(&mut members, entries[i].0.as_str(), value);
            proof {
                assert(self@[i as int] == (entries[i as int].0@, entries[i as int].1@));
                assert(before.push((entries[i as int].0@, value@)) =~= wanted.subrange(0, i + 1));
            }
            i += 1;
        }
        assert(wanted.subrange(0, i as int) =~= wanted);
        Json::Object(members)
    }
}

impl CompleteRequest {
    /// The body of the completion report.
    pub fn to_json(&self) -> (doc: Json)
        ensures
            doc@ == complete_document(self@),
    {
        let mut members: Vec<(String, Json)> = Vec::new();
        put(&mut members, "workerId", text_value(&self.worker_id));
        put(&mut members, "variables", self.variables.to_json());
        put(&mut members, "localVariables", self.local_variables.to_json());
        assert(object_view(members@) =~= seq![
            ("workerId"@, JsonView::String(self@.worker_id)),
            ("variables"@, variables_document(self@.variables)),
            ("localVariables"@, variables_document(self@.local_variables)),
        ]);
        Json::Object(members)
    }
}

/// A member that must be a text.
pub open spec fn required_text(value: Option<JsonView>) -> Option<Seq<char>> {
    match value {
        Some(JsonView::String(t)) => Some(t),
        _ => None,
    }
}

/// A member that may be missing or null, and is a text otherwise. The outer
/// `None` stands for a member of another kind.
pub open spec fn optional_text(value: Option<JsonView>) -> Option<Option<Seq<char>>> {
    match value {
        None => Some(None),
        Some(JsonView::Null) => Some(None),
        Some(JsonView::String(t)) => Some(Some(t)),
        _ => None,
    }
}

/// A member that must be `true` or `false`.
pub open spec fn required_flag(value: Option<JsonView>) -> Option<bool> {
    match value {
        Some(JsonView::Bool(b)) => Some(b),
        _ => None,
    }
}

/// A member that must be an unsigned integer of at most 32 bits.
pub open spec fn required_u32(value: Option<JsonView>) -> Option<u32> {
    match value {
        Some(JsonView::Unsigned(u)) => if u <= u32::MAX {
            Some(u as u32)
        } else {
            None
        },
        _ => None,
    }
}

/// The value info that an object carries; `None` for what is no object, or
/// has a member of the wrong kind.
pub open spec fn value_info_of(doc: JsonView) -> Option<ValueInfoView> {
    let object_type_name = optional_text(doc.member("objectTypeName"@));
    let serialization_data_format = optional_text(doc.member("serializationDataFormat"@));
    if doc is Object && object_type_name is Some && serialization_data_format is Some {
        Some(
            ValueInfoView {
                object_type_name: object_type_name->0,
                serialization_data_format: serialization_data_format->0,
            },
        )
    } else {
        None
    }
}

/// A value info that may be missing or null.
pub open spec fn optional_info(value: Option<JsonView>) -> Option<Option<ValueInfoView>> {
    match value {
        None => Some(None),
        Some(JsonView::Null) => Some(None),
        Some(doc) => match value_info_of(doc) {
            Some(info) => Some(Some(info)),
            None => None,
        },
    }
}

/// The variable that an object carries: it needs a text `type` and a member
/// `value` of any kind, and may have a `valueInfo`.
pub open spec fn variable_of(doc: JsonView) -> Option<VariableView> {
    let kind = required_text(doc.member("type"@));
    let value = doc.member("value"@);
    let value_info = optional_info(doc.member("valueInfo"@));
    if kind is Some && value is Some && value_info is Some {
        Some(VariableView { kind: kind->0, value: value->0, value_info: value_info->0 })
    } else {
        None
    }
}

/// The variables that a list of members carries, each member a variable
/// under its name; of two members with one name the later counts. `None`
/// where a member carries no variable.
pub open spec fn variables_from(members: Members) -> Option<VariableEntries>
    decreases members.len(),
{
    if members.len() == 0 {
        Some(Seq::empty())
    } else {
        match (variables_from(members.drop_last()), variable_of(members.last().1)) {
            (Some(before), Some(variable)) => Some(
                with_variable(before, members.last().0, variable),
            ),
            _ => None,
        }
    }
}

/// The variables that an object carries, one under the name of each
/// member; `None` for what is no object, or has a member that carries no
/// variable.
pub open spec fn variables_of(doc: JsonView) -> Option<VariableEntries> {
    match doc {
        JsonView::Object(members) => variables_from(members),
        _ => None,
    }
}

/// A member that must be an object of variables.
pub open spec fn required_variables(value: Option<JsonView>) -> Option<VariableEntries> {
    match value {
        Some(doc) => variables_of(doc),
        None => None,
    }
}

/// The task that an object carries; `None` where a member that a task
/// needs is missing or of the wrong kind. Members that a task does not have
/// are passed over.
pub open spec fn task_of(doc: JsonView) -> Option<TaskView> {
    let activity_id = required_text(doc.member("activityId"@));
    let activity_instance_id = required_text(doc.member("activityInstanceId"@));
    let error_message = optional_text(doc.member("errorMessage"@));
    let error_details = optional_text(doc.member("errorDetails"@));
    let execution_id = required_text(doc.member("executionId"@));
    let id = required_text(doc.member("id"@));
    let lock_expiration_time = required_text(doc.member("lockExpirationTime"@));
    let process_definition_id = required_text(doc.member("processDefinitionId"@));
    let process_definition_key = required_text(doc.member("processDefinitionKey"@));
    let process_definition_version_tag = optional_text(doc.member("processDefinitionVersionTag"@));
    let process_instance_id = required_text(doc.member("processInstanceId"@));
    let retries = optional_text(doc.member("retries"@));
    let suspended = required_flag(doc.member("suspended"@));
    let worker_id = required_text(doc.member("workerId"@));
    let topic_name = required_text(doc.member("topicName"@));
    let tenant_id = optional_text(doc.member("tenantId"@));
    let variables = required_variables(doc.member("variables"@));
    let priority = required_u32(doc.member("priority"@));
    let business_key = optional_text(doc.member("businessKey"@));
    if activity_id is Some
        && activity_instance_id is Some
        && error_message is Some
        && error_details is Some
        && execution_id is Some
        && id is Some
        && lock_expiration_time is Some
        && process_definition_id is Some
        && process_definition_key is Some
        && process_definition_version_tag is Some
        && process_instance_id is Some
        && retries is Some
        && suspended is Some
        && worker_id is Some
        && topic_name is Some
        && tenant_id is Some
        && variables is Some
        && priority is Some
        && business_key is Some {
        Some(TaskView {
            activity_id: activity_id->0,
            activity_instance_id: activity_instance_id->0,
            error_message: error_message->0,
            error_details: error_details->0,
            execution_id: execution_id->0,
            id: id->0,
            lock_expiration_time: lock_expiration_time->0,
            process_definition_id: process_definition_id->0,
            process_definition_key: process_definition_key->0,
            process_definition_version_tag: process_definition_version_tag->0,
            process_instance_id: process_instance_id->0,
            retries: retries->0,
            suspended: suspended->0,
            worker_id: worker_id->0,
            topic_name: topic_name->0,
            tenant_id: tenant_id->0,
            variables: variables->0,
            priority: priority->0,
            business_key: business_key->0,
        })
    } else {
        None
    }
}

/// The tasks that a list of documents carries, one for one; `None` where
/// one of them carries no task.
pub open spec fn tasks_from(items: Seq<JsonView>) -> Option<Seq<TaskView>>
    decreases items.len(),
{
    if items.len() == 0 {
        Some(Seq::empty())
    } else {
        match (tasks_from(items.drop_last()), task_of(items.last())) {
            (Some(before), Some(task)) => Some(before.push(task)),
            _ => None,
        }
    }
}

/// The tasks that the answer to a lease request carries: it must be an
/// array of tasks.
pub open spec fn tasks_of(doc: JsonView) -> Option<Seq<TaskView>> {
    match doc {
        JsonView::Array(items) => tasks_from(items),
        _ => None,
    }
}

/// The values of a list of tasks, one for one.
pub open spec fn task_views(tasks: Seq<Task>) -> Seq<TaskView> {
    tasks.map_values(|t: Task| t@)
}

/// Where a list of members carries variables, so does each front part of it.
pub proof fn lemma_variables_from_front(members: Members, front: int)
    requires
        0 <= front <= members.len(),
        variables_from(members) is Some,
    ensures
        variables_from(members.subrange(0, front)) is Some,
    decreases members.len(),
{
    if front == members.len() {
        assert(members.subrange(0, front) =~= members);
    } else {
        lemma_variables_from_front(members.drop_last(), front);
        assert(members.drop_last().subrange(0, front) =~= members.subrange(0, front));
    }
}

/// Where a list of documents carries tasks, so does each front part of it.
pub proof fn lemma_tasks_from_front(items: Seq<JsonView>, front: int)
    requires
        0 <= front <= items.len(),
        tasks_from(items) is Some,
    ensures
        tasks_from(items.subrange(0, front)) is Some,
    decreases items.len(),
{
    if front == items.len() {
        assert(items.subrange(0, front) =~= items);
    } else {
        lemma_tasks_from_front(items.drop_last(), front);
        assert(items.drop_last().subrange(0, front) =~= items.subrange(0, front));
    }
}

fn read_text(doc: &Json, name: &str) -> (text: Option<String>)
    ensures
        opt_text(text) == required_text(doc@.member(name@)),
{
    match doc.get(name) {
        Some(Json::String(t)) => Some(t.clone()),
        _ => None,
    }
}

fn read_optional_text(doc: &Json, name: &str) -> (text: Option<Option<String>>)
    ensures
        match text {
            Some(t) => optional_text(doc@.member(name@)) == Some(opt_text(t)),
            None => optional_text(doc@.member(name@)) is None,
        },
{
    match doc.get(name) {
        None => Some(None),
        Some(Json::Null) => Some(None),
        Some(Json::String(t)) => Some(Some(t.clone())),
        _ => None,
    }
}

fn read_flag(doc: &Json, name: &str) -> (flag: Option<bool>)
    ensures
        flag == required_flag(doc@.member(name@)),
{
    match doc.get(name) {
        Some(Json::Bool(b)) => Some(*b),
        _ => None,
    }
}

fn read_u32(doc: &Json, name: &str) -> (number: Option<u32>)
    ensures
        number == required_u32(doc@.member(name@)),
{
    match doc.get(name) {
        Some(Json::Unsigned(u)) => if *u <= 0xffff_ffff {
            Some(*u as u32)
        } else {
            None
        },
        _ => None,
    }
}

fn read_variables(doc: &Json, name: &str) -> (variables: Option<VariableMap>)
    ensures
        match variables {
            Some(v) => required_variables(doc@.member(name@)) == Some(v@),
            None => required_variables(doc@.member(name@)) is None,
        },
{
    match doc.get(name) {
        Some(value) => VariableMap::from_json(value),
        None => None,
    }
}

impl ValueInfo {
    /// Reads a value info from the object that carries it.
    pub fn from_json(doc: &Json) -> (info: Option<ValueInfo>)
        ensures
            opt_info(info) == value_info_of(doc@),
    {
        match doc {
            Json::Object(_) => {},
            _ => {
                return None;
            },
        }
        let object_type_name = read_optional_text(doc, "objectTypeName")?;
        let serialization_data_format = read_optional_text(doc, "serializationDataFormat")?;
        Some(ValueInfo { object_type_name, serialization_data_format })
    }
}

impl Variable {
    /// Reads a variable from the object that carries it.
    pub fn from_json(doc: &Json) -> (variable: Option<Variable>)
        ensures
            match variable {
                Some(v) => variable_of(doc@) == Some(v@),
                None => variable_of(doc@) is None,
            },
    {
        let kind = read_text(doc, "type")?;
        let value = doc.get("value")?.clone();
        let value_info = match doc.get("valueInfo") {
            None => None,
            Some(Json::Null) => None,
            Some(info) => Some(ValueInfo::from_json(info)?),
        };
        Some(Variable { kind, value, value_info })
    }
}

impl VariableMap {
    /// Reads variables from the object that carries them, one from each
    /// member. `None` where the document is no object or a member carries
    /// no variable.
    pub fn from_json(doc: &Json) -> (variables: Option<VariableMap>)
        ensures
            match variables {
                Some(v) => variables_of(doc@) == Some(v@),
                None => variables_of(doc@) is None,
            },
    {
        match doc {
            Json::Object(members) => {
                let mut map = VariableMap::new();
                let mut i: usize = 0;
                let ghost all = object_view(members@);
                proof {
                    lemma_object_view(members@);
                    assert(all.subrange(0, 0) =~= Seq::empty());
                }
                while i < members.len()
                    invariant
                        i <= members.len(),
                        all == object_view(members@),
                        doc@ == JsonView::Object(all),
                        all.len() == members.len(),
                        forall|k: int|
                            0 <= k < members.len() ==> (#[trigger] all[k]) == (
                                members[k].0@,
                                members[k].1@,
                            ),
                        variables_from(all.subrange(0, i as int)) == Some(map@),
                    decreases members.len() - i,
                {
                    proof {
                        assert(all.subrange(0, i + 1).drop_last() =~= all.subrange(0, i as int));
                        assert(all.subrange(0, i + 1).last() == all[i as int]);
                    }
                    match Variable::from_json(&members[i].1) {
                        Some(variable) => {
                            map.insert(members[i].0.clone(), variable);
                        },
                        None => {
                            proof {
                                assert(variables_from(all.subrange(0, i + 1)) is None);
                                if variables_from(all) is Some {
                                    lemma_variables_from_front(all, i + 1);
                                }
                            }
                            return None;
                        },
                    }
                    i += 1;
                }
                assert(all.subrange(0, i as int) =~= all);
                Some(map)
            },
            _ => None,
        }
    }
}

impl Task {
    /// Reads a task from the object that carries it.
    pub fn from_json(doc: &Json) -> (task: Option<Task>)
        ensures
            match task {
                Some(t) => task_of(doc@) == Some(t@),
                None => task_of(doc@) is None,
            },
    {
        let activity_id = read_text(doc, "activityId")?;
        let activity_instance_id = read_text(doc, "activityInstanceId")?;
        let error_message = read_optional_text(doc, "errorMessage")?;
        let error_details = read_optional_text(doc, "errorDetails")?;
        let execution_id = read_text(doc, "executionId")?;
        let id = read_text(doc, "id")?;
        let lock_expiration_time = read_text(doc, "lockExpirationTime")?;
        let process_definition_id = read_text(doc, "processDefinitionId")?;
        let process_definition_key = read_text(doc, "processDefinitionKey")?;
        let process_definition_version_tag = read_optional_text(
            doc,
            "processDefinitionVersionTag",
        )?;
        let process_instance_id = read_text(doc, "processInstanceId")?;
        let retries = read_optional_text(doc, "retries")?;
        let suspended = read_flag(doc, "suspended")?;
        let worker_id = read_text(doc, "workerId")?;
        let topic_name = read_text(doc, "topicName")?;
        let tenant_id = read_optional_text(doc, "tenantId")?;
        let variables = read_variables(doc, "variables")?;
        let priority = read_u32(doc, "priority")?;
        let business_key = read_optional_text(doc, "businessKey")?;
        Some(Task {
            activity_id,
            activity_instance_id,
            error_message,
            error_details,
            execution_id,
            id,
            lock_expiration_time,
            process_definition_id,
            process_definition_key,
            process_definition_version_tag,
            process_instance_id,
            retries,
            suspended,
            worker_id,
            topic_name,
            tenant_id,
            variables,
            priority,
            business_key,
        })
    }
}

/// Reads the tasks of the answer to a lease request. `None` where the
/// document is no array or one of its items carries no task.
pub fn tasks_from_json(doc: &Json) -> (tasks: Option<Vec<Task>>)
    ensures
        match tasks {
            Some(t) => tasks_of(doc@) == Some(task_views(t@)),
            None => tasks_of(doc@) is None,
        },
{
    match doc {
        Json::Array(items) => {
            let mut tasks: Vec<Task> = Vec::new();
            let mut i: usize = 0;
            let ghost all = array_view(items@);
            proof {
                lemma_array_view(items@);
                assert(all.subrange(0, 0) =~= Seq::empty());
                assert(task_views(tasks@) =~= Seq::empty());
            }
            while i < items.len()
                invariant
                    i <= items.len(),
                    all == array_view(items@),
                    doc@ == JsonView::Array(all),
                    all.len() == items.len(),
                    forall|k: int| 0 <= k < items.len() ==> (#[trigger] all[k]) == items[k]@,
                    tasks_from(all.subrange(0, i as int)) == Some(task_views(tasks@)),
                decreases items.len() - i,
            {
                proof {
                    assert(all.subrange(0, i + 1).drop_last() =~= all.subrange(0, i as int));
                    assert(all.subrange(0, i + 1).last() == all[i as int]);
                }
                match Task::from_json(&items[i]) {
                    Some(task) => {
                        proof {
                            assert(task_views(tasks@.push(task)) =~= task_views(tasks@).push(
                                task@,
                            ));
                        }
                        tasks.push(task);
                    },
                    None => {
                        proof {
                            assert(tasks_from(all.subrange(0, i + 1)) is None);
                            if tasks_from(all) is Some {
                                lemma_tasks_from_front(all, i + 1);
                            }
                        }
                        return None;
                    },
                }
                i += 1;
            }
            assert(all.subrange(0, i as int) =~= all);
            Some(tasks)
        },
        _ => None,
    }
}

/// A value info that is written and read again is the same value info.
pub proof fn lemma_value_info_round_trip(info: ValueInfoView)
    ensures
        value_info_of(value_info_document(info)) == Some(info),
{
    reveal_strlit("objectTypeName");
    reveal_strlit("serializationDataFormat");
    let members = seq![
        ("objectTypeName"@, nullable_text(info.object_type_name)),
        ("serializationDataFormat"@, nullable_text(info.serialization_data_format)),
    ];
    assert("objectTypeName"@.len() != "serializationDataFormat"@.len());
    assert(members.drop_last() =~= seq![("objectTypeName"@, nullable_text(info.object_type_name))]);
    assert(members.drop_last().drop_last() =~= Seq::empty());
    assert(lookup(members, "serializationDataFormat"@) == Some(
        nullable_text(info.serialization_data_format),
    ));
    assert(lookup(members.drop_last(), "objectTypeName"@) == Some(
        nullable_text(info.object_type_name),
    ));
    assert(lookup(members, "objectTypeName"@) == Some(nullable_text(info.object_type_name)));
}

/// A variable that is written and read again is the same variable: its
/// type tag, its value and its value info, where it has one, are unchanged.
pub proof fn lemma_variable_round_trip(variable: VariableView)
    ensures
        variable_of(variable_document(variable)) == Some(variable),
{
    reveal_strlit("type");
    reveal_strlit("value");
    reveal_strlit("valueInfo");
    let fixed = seq![("type"@, JsonView::String(variable.kind)), ("value"@, variable.value)];
    let members = fixed + optional_member("valueInfo"@, some_info(variable.value_info));
    assert("type"@.len() == 4 && "value"@.len() == 5 && "valueInfo"@.len() == 9);
    assert(fixed.drop_last() =~= seq![("type"@, JsonView::String(variable.kind))]);
    assert(fixed.drop_last().drop_last() =~= Seq::empty());
    assert(lookup(fixed, "value"@) == Some(variable.value));
    assert(lookup(fixed.drop_last(), "type"@) == Some(JsonView::String(variable.kind)));
    assert(lookup(fixed, "type"@) == Some(JsonView::String(variable.kind)));
    assert(lookup(fixed.drop_last().drop_last(), "valueInfo"@) is None);
    assert(lookup(fixed.drop_last(), "valueInfo"@) is None);
    assert(lookup(fixed, "valueInfo"@) is None);
    match variable.value_info {
        Some(info) => {
            lemma_value_info_round_trip(info);
            assert(members.drop_last() =~= fixed);
            assert(members.last() == ("valueInfo"@, value_info_document(info)));
            assert(lookup(members, "valueInfo"@) == Some(value_info_document(info)));
            assert(lookup(members, "value"@) == lookup(fixed, "value"@));
            assert(lookup(members, "type"@) == lookup(fixed, "type"@));
        },
        None => {
            assert(members =~= fixed);
        },
    }
}

/// Variables that are written and read again are the same variables, under
/// the same names and in the same order.
pub proof fn lemma_variables_round_trip(entries: VariableEntries)
    requires
        distinct_names(entries),
    ensures
        variables_of(variables_document(entries)) == Some(entries),
    decreases entries.len(),
{
    let members = variable_members(entries);
    if entries.len() == 0 {
        assert(entries =~= Seq::empty());
    } else {
        let front = entries.drop_last();
        let last = entries.last();
        assert(members.drop_last() =~= variable_members(front));
        assert(members.last() == (last.0, variable_document(last.1)));
        lemma_variables_round_trip(front);
        lemma_variable_round_trip(last.1);
        assert(!has_name(front, last.0)) by {
            if has_name(front, last.0) {
                let k = choose|k: int| 0 <= k < front.len() && (#[trigger] front[k]).0 == last.0;
                assert(entries[k].0 != entries[entries.len() - 1].0);
            }
        }
        assert(front.push(last) =~= entries);
    }
}

/// In the body of a completion report both maps are objects, never null,
/// whatever they hold, and each reads back as the map that was given.
pub proof fn lemma_complete_document_carries_maps(request: CompleteRequestView)
    requires
        distinct_names(request.variables),
        distinct_names(request.local_variables),
    ensures
        complete_document(request).member("workerId"@) == Some(
            JsonView::String(request.worker_id),
        ),
        complete_document(request).member("variables"@) == Some(
            JsonView::Object(variable_members(request.variables)),
        ),
        complete_document(request).member("localVariables"@) == Some(
            JsonView::Object(variable_members(request.local_variables)),
        ),
        variable_members(request.variables).len() == request.variables.len(),
        variable_members(request.local_variables).len() == request.local_variables.len(),
        required_variables(complete_document(request).member("variables"@)) == Some(
            request.variables,
        ),
        required_variables(complete_document(request).member("localVariables"@)) == Some(
            request.local_variables,
        ),
{
    reveal_strlit("workerId");
    reveal_strlit("variables");
    reveal_strlit("localVariables");
    let members = seq![
        ("workerId"@, JsonView::String(request.worker_id)),
        ("variables"@, variables_document(request.variables)),
        ("localVariables"@, variables_document(request.local_variables)),
    ];
    assert("workerId"@.len() == 8 && "variables"@.len() == 9 && "localVariables"@.len() == 14);
    let two = members.drop_last();
    assert(two =~= seq![
        ("workerId"@, JsonView::String(request.worker_id)),
        ("variables"@, variables_document(request.variables)),
    ]);
    let one = two.drop_last();
    assert(one =~= seq![("workerId"@, JsonView::String(request.worker_id))]);
    assert(one.drop_last() =~= Seq::empty());
    assert(lookup(one, "workerId"@) == Some(JsonView::String(request.worker_id)));
    assert(lookup(two, "workerId"@) == lookup(one, "workerId"@));
    assert(lookup(members, "workerId"@) == lookup(two, "workerId"@));
    assert(lookup(two, "variables"@) == Some(variables_document(request.variables)));
    assert(lookup(members, "variables"@) == lookup(two, "variables"@));
    assert(lookup(members, "localVariables"@) == Some(
        variables_document(request.local_variables),
    ));
    lemma_variables_round_trip(request.variables);
    lemma_variables_round_trip(request.local_variables);
}

} // verus!
