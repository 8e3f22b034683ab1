//! The chat request that a request of the agent becomes.
use crate::conversation::{
    all_restored, conversation_json, conversation_messages, law_system_prompt_comes_first,
};
use crate::definitions::{tool_definitions, tool_definitions_json};
use crate::destination::{
    classify_destination, destination_class, parse_url, url_parts, DestinationClass, UrlParts,
    UrlPartsView,
};
use crate::error::{RunError, RunErrorView};
use crate::json::{json_items, Json};
use crate::params::{
    AIAgentInput, AIAgentInputView, EndpointModel, EndpointModelView, LocalEndpoint,
    LocalEndpointView, RequestParams, RequestParamsView,
};
use crate::text::{
    is_blank, is_white_space, join, law_blank_is_all_white_space, law_trailing_run_is_removed,
    same_text, trim_end_char, without_trailing,
};
use vstd::prelude::*;

verus! {

/// How many seconds the client waits for a connection.
pub const CONNECT_TIMEOUT_SECONDS: u64 = 5;

/// The body of a chat request.
pub struct ChatRequest {
    pub model: String,
    pub messages: Vec<serde_json::Value>,
    pub tools: Vec<serde_json::Value>,
    pub parallel_tool_calls: bool,
    pub stream: bool,
}

#[verifier::ext_equal]
pub struct ChatRequestView {
    pub model: Seq<char>,
    pub messages: Seq<Json>,
    pub tools: Seq<Json>,
    pub parallel_tool_calls: bool,
    pub stream: bool,
}

impl DeepView for ChatRequest {
    type V = ChatRequestView;

    open spec fn deep_view(&self) -> ChatRequestView {
        ChatRequestView {
            model: self.model@,
            messages: json_items(self.messages@),
            tools: json_items(self.tools@),
            parallel_tool_calls: self.parallel_tool_calls,
            stream: self.stream,
        }
    }
}

/// A chat request, and how it is sent.
pub struct ChatPlan {
    /// Where it is sent.
    pub url: String,
    /// The key that it is sent with, if any.
    pub bearer_token: Option<String>,
    /// Whether the certificate of the endpoint goes unchecked.
    pub accept_invalid_certificates: bool,
    pub connect_timeout_seconds: u64,
    pub request: ChatRequest,
}

#[verifier::ext_equal]
pub struct ChatPlanView {
    pub url: Seq<char>,
    pub bearer_token: Option<Seq<char>>,
    pub accept_invalid_certificates: bool,
    pub connect_timeout_seconds: u64,
    pub request: ChatRequestView,
}

impl DeepView for ChatPlan {
    type V = ChatPlanView;

    open spec fn deep_view(&self) -> ChatPlanView {
        ChatPlanView {
            url: self.url@,
            bearer_token: self.bearer_token.deep_view(),
            accept_invalid_certificates: self.accept_invalid_certificates,
            connect_timeout_seconds: self.connect_timeout_seconds,
            request: self.request.deep_view(),
        }
    }
}

/// The first of the models with a key.
pub open spec fn model_with_key(models: Seq<EndpointModelView>, key: Seq<char>) -> Option<
    EndpointModelView,
>
    decreases models.len(),
{
    if models.len() == 0 {
        None
    } else if models[0].config_key == key {
        Some(models[0])
    } else {
        model_with_key(models.drop_first(), key)
    }
}

/// The endpoint of a request and the model that is selected there.
pub open spec fn selected_model(params: RequestParamsView) -> Result<
    (LocalEndpointView, EndpointModelView),
    RunErrorView,
> {
    match params.local_custom_endpoint {
        None => Err(RunErrorView::NoEndpoint),
        Some(endpoint) => if params.local_custom_model_config_keys.len() == 0 {
            Err(RunErrorView::NoModelSelected)
        } else {
            match model_with_key(endpoint.models, params.local_custom_model_config_keys[0]) {
                None => Err(RunErrorView::ModelNotConfigured),
                Some(model) => Ok((endpoint, model)),
            }
        },
    }
}

/// Where an endpoint takes chat requests.
pub open spec fn chat_url(url: Seq<char>) -> Seq<char> {
    without_trailing(url, '/') + "/chat/completions"@
}

/// The key that an endpoint is sent, if it has one.
pub open spec fn bearer_token_of(api_key: Seq<char>) -> Option<Seq<char>> {
    if is_blank(api_key) {
        None
    } else {
        Some(api_key)
    }
}

/// The chat request that a request of the agent becomes, where `parts` is what is read
/// out of the URL that it goes to.
pub open spec fn plan_for(
    params: RequestParamsView,
    restored: Seq<Seq<Option<AIAgentInputView>>>,
    parts: Option<UrlPartsView>,
) -> Result<ChatPlanView, RunErrorView> {
    match selected_model(params) {
        Err(error) => Err(error),
        Ok((endpoint, model)) => match parts {
            None => Err(RunErrorView::InvalidUrl { endpoint: endpoint.name }),
            Some(parts) => if destination_class(parts) != DestinationClass::LocalEndpoint {
                Err(RunErrorView::NotLocal)
            } else if conversation_json(params, restored).len() == 1 {
                Err(RunErrorView::NoPrompt)
            } else {
                Ok(
                    ChatPlanView {
                        url: chat_url(endpoint.url),
                        bearer_token: bearer_token_of(endpoint.api_key),
                        accept_invalid_certificates: endpoint.allow_invalid_tls_certificates,
                        connect_timeout_seconds: CONNECT_TIMEOUT_SECONDS,
                        request: ChatRequestView {
                            model: model.name,
                            messages: conversation_json(params, restored),
                            tools: tool_definitions_json(),
                            parallel_tool_calls: false,
                            stream: false,
                        },
                    },
                )
            },
        },
    }
}

/// What is read out of the URL that a request goes to, if it has an endpoint.
pub open spec fn destination_parts(params: RequestParamsView) -> Option<UrlPartsView> {
    match params.local_custom_endpoint {
        Some(endpoint) => url_parts(chat_url(endpoint.url)),
        None => None,
    }
}

/// The first of the models with the key.
fn find_model<'a>(models: &'a Vec<EndpointModel>, key: &str) -> (model: Option<&'a EndpointModel>)
    ensures
        model.deep_view() == model_with_key(models.deep_view(), key@),
{
    let ghost views = models.deep_view();
    let mut i: usize = 0;
    assert(views.skip(0) =~= views);
    while i < models.len()
        invariant
            i <= models.len(),
            views == models.deep_view(),
            model_with_key(views.skip(i as int), key@) == model_with_key(views, key@),
        decreases models.len() - i,
    {
        assert(views.skip(i as int).drop_first() =~= views.skip(i + 1));
        assert(views.skip(i as int)[0] == views[i as int]);
        if same_text(models[i].config_key.as_str(), key) {
            return Some(&models[i]);
        }
        i = i + 1;
    }
    None
}

/// The endpoint of the request and the model that is selected there.
pub fn resolve_model(params: &RequestParams) -> (resolved: Result<
    (&LocalEndpoint, &EndpointModel),
    RunError,
>)
    ensures
        match selected_model(params.deep_view()) {
            Ok((endpoint, model)) => {
                &&& resolved matches Ok((found_endpoint, found_model))
                &&& found_endpoint.deep_view() == endpoint
                &&& found_model.deep_view() == model
            },
            Err(error) => resolved is Err && resolved->Err_0.deep_view() == error,
        },
{
    let endpoint = match &params.local_custom_endpoint {
        Some(endpoint) => endpoint,
        None => {
            return Err(RunError::NoEndpoint);
        },
    };
    if params.local_custom_model_config_keys.len() == 0 {
        return Err(RunError::NoModelSelected);
    }
    match find_model(&endpoint.models, params.local_custom_model_config_keys[0].as_str()) {
        Some(model) => Ok((endpoint, model)),
        None => Err(RunError::ModelNotConfigured),
    }
}

/// Where the endpoint takes chat requests.
pub fn chat_completions_url(url: &str) -> (chat: String)
    ensures
        chat@ == chat_url(url@),
{
    join(trim_end_char(url, '/'), "/chat/completions")
}

/// The chat request that the request of the agent becomes, where `parts` is what was
/// read out of the URL that it goes to.
pub fn plan_request(
    params: &RequestParams,
    restored: &Vec<Vec<Option<AIAgentInput>>>,
    parts: &Option<UrlParts>,
) -> (plan: Result<ChatPlan, RunError>)
    requires
        all_restored(params.tasks.deep_view(), restored.deep_view()),
    ensures
        match plan_for(params.deep_view(), restored.deep_view(), parts.deep_view()) {
            Ok(expected) => plan is Ok && plan->Ok_0.deep_view() == expected,
            Err(error) => plan is Err && plan->Err_0.deep_view() == error,
        },
{
    let (endpoint, model) = match resolve_model(params) {
        Ok(resolved) => resolved,
        Err(error) => {
            return Err(error);
        },
    };
    let parts = match parts {
        Some(parts) => parts,
        None => {
            return Err(RunError::InvalidUrl { endpoint: endpoint.name.clone() });
        },
    };
    if classify_destination(parts) != DestinationClass::LocalEndpoint {
        return Err(RunError::NotLocal);
    }
    let messages = conversation_messages(params, restored);
    // Every query of the request is among the messages, so with the first message alone
    // there is no query either.
    assert(json_items(messages@).len() == messages@.len());
    if messages.len() == 1 {
        return Err(RunError::NoPrompt);
    }
    let bearer_token = if endpoint.api_key.as_str().trim().is_empty() {
        None
    } else {
        Some(endpoint.api_key.clone())
    };
    Ok(
        ChatPlan {
            url: chat_completions_url(endpoint.url.as_str()),
            bearer_token,
            accept_invalid_certificates: endpoint.allow_invalid_tls_certificates,
            connect_timeout_seconds: CONNECT_TIMEOUT_SECONDS,
            request: ChatRequest {
                model: model.name.clone(),
                messages,
                tools: tool_definitions(),
                parallel_tool_calls: false,
                stream: false,
            },
        },
    )
}

/// The chat request that the request of the agent becomes.
pub fn prepare_request(params: &RequestParams, restored: &Vec<Vec<Option<AIAgentInput>>>) -> (plan:
    Result<ChatPlan, RunError>)
    requires
        all_restored(params.tasks.deep_view(), restored.deep_view()),
    ensures
        match plan_for(
            params.deep_view(),
            restored.deep_view(),
            destination_parts(params.deep_view()),
        ) {
            Ok(expected) => plan is Ok && plan->Ok_0.deep_view() == expected,
            Err(error) => plan is Err && plan->Err_0.deep_view() == error,
        },
{
    let parts = match &params.local_custom_endpoint {
        Some(endpoint) => parse_url(chat_completions_url(endpoint.url.as_str()).as_str()),
        None => None,
    };
    plan_request(params, restored, &parts)
}

/// A request is only ever sent to a local endpoint: the URL that it goes to can be read,
/// and its host is on this machine or on the private network.
pub proof fn law_requests_stay_local(
    params: RequestParamsView,
    restored: Seq<Seq<Option<AIAgentInputView>>>,
)
    requires
        plan_for(params, restored, destination_parts(params)) is Ok,
    ensures
        url_parts(plan_for(params, restored, destination_parts(params))->Ok_0.url) matches Some(
            parts,
        ) && destination_class(parts) == DestinationClass::LocalEndpoint,
{
}

/// A request that is sent asks something: it shows the model more than what it is told
/// first, and offers it every tool.
pub proof fn law_requests_ask_something(
    params: RequestParamsView,
    restored: Seq<Seq<Option<AIAgentInputView>>>,
    parts: Option<UrlPartsView>,
)
    requires
        plan_for(params, restored, parts) is Ok,
    ensures
        plan_for(params, restored, parts)->Ok_0.request.messages.len() > 1,
        plan_for(params, restored, parts)->Ok_0.request.tools == tool_definitions_json(),
{
    law_system_prompt_comes_first(params, restored);
}

/// A slash at the end of the URL of an endpoint makes no difference.
pub proof fn law_trailing_slash_is_ignored(url: Seq<char>)
    ensures
        chat_url(url.push('/')) == chat_url(url),
{
    assert(url.push('/').drop_last() =~= url);
}

/// Whether the model at an index is the first with a key.
pub open spec fn is_first_with_key(models: Seq<EndpointModelView>, key: Seq<char>, i: int) -> bool {
    &&& 0 <= i < models.len()
    &&& models[i].config_key == key
    &&& forall|j: int| 0 <= j < i ==> (#[trigger] models[j]).config_key != key
}

/// The model that is taken is the first with the key, wherever in the list it is, and
/// there is none exactly where no model has the key.
pub proof fn law_first_model_with_the_key_is_taken(models: Seq<EndpointModelView>, key: Seq<char>)
    ensures
        forall|i: int|
            0 <= i < models.len() && (#[trigger] models[i]).config_key == key && (forall|j: int|
                0 <= j < i ==> (#[trigger] models[j]).config_key != key) ==> model_with_key(
                models,
                key,
            ) == Some(models[i]),
        model_with_key(models, key) is None <==> forall|i: int|
            0 <= i < models.len() ==> (#[trigger] models[i]).config_key != key,
    decreases models.len(),
{
    if models.len() > 0 && models[0].config_key != key {
        let rest = models.drop_first();
        law_first_model_with_the_key_is_taken(rest, key);
        assert forall|i: int|
            0 <= i < models.len() && (#[trigger] models[i]).config_key == key && (forall|j: int|
                0 <= j < i ==> (#[trigger] models[j]).config_key != key) implies model_with_key(
            models,
            key,
        ) == Some(models[i]) by {
            assert(rest[i - 1] == models[i]);
            assert forall|j: int| 0 <= j < i - 1 implies (#[trigger] rest[j]).config_key != key by {
                assert(rest[j] == models[j + 1]);
            }
        }
        if model_with_key(models, key) is None {
            assert forall|i: int| 0 <= i < models.len() implies (#[trigger] models[i]).config_key
                != key by {
                if i > 0 {
                    assert(rest[i - 1] == models[i]);
                }
            }
        }
        if forall|i: int| 0 <= i < models.len() ==> (#[trigger] models[i]).config_key != key {
            assert forall|i: int| 0 <= i < rest.len() implies (#[trigger] rest[i]).config_key
                != key by {
                assert(rest[i] == models[i + 1]);
            }
        }
    } else if models.len() > 0 {
        assert forall|i: int|
            0 <= i < models.len() && (#[trigger] models[i]).config_key == key && (forall|j: int|
                0 <= j < i ==> (#[trigger] models[j]).config_key != key) implies model_with_key(
            models,
            key,
        ) == Some(models[i]) by {
            if i > 0 {
                assert(models[0].config_key != key);
            }
        }
    }
}

/// A request is for the endpoint that it names and for the first model there that has
/// the first of its keys. Without an endpoint, a key or such a model it is refused, each
/// for its own reason.
pub proof fn law_selected_model_is_the_first_with_the_first_key(
    params: RequestParamsView,
    endpoint: LocalEndpointView,
)
    ensures
        params.local_custom_endpoint is None ==> selected_model(params) == Err::<
            (LocalEndpointView, EndpointModelView),
            RunErrorView,
        >(RunErrorView::NoEndpoint),
        params.local_custom_endpoint == Some(endpoint) && params.local_custom_model_config_keys.len()
            == 0 ==> selected_model(params) == Err::<
            (LocalEndpointView, EndpointModelView),
            RunErrorView,
        >(RunErrorView::NoModelSelected),
        params.local_custom_endpoint == Some(endpoint) && params.local_custom_model_config_keys.len()
            > 0 ==> {
            let key = params.local_custom_model_config_keys[0];
            let models = endpoint.models;
            &&& forall|i: int|
                0 <= i < models.len() && (#[trigger] models[i]).config_key == key && (forall|j: int|
                    0 <= j < i ==> (#[trigger] models[j]).config_key != key) ==> selected_model(
                    params,
                ) == Ok::<(LocalEndpointView, EndpointModelView), RunErrorView>(
                    (endpoint, models[i]),
                )
            &&& (forall|i: int| 0 <= i < models.len() ==> (#[trigger] models[i]).config_key != key)
                ==> selected_model(params) == Err::<
                (LocalEndpointView, EndpointModelView),
                RunErrorView,
            >(RunErrorView::ModelNotConfigured)
        },
{
    if params.local_custom_model_config_keys.len() > 0 {
        law_first_model_with_the_key_is_taken(
            endpoint.models,
            params.local_custom_model_config_keys[0],
        );
    }
}

/// Chat requests go to the path `/chat/completions` below the URL of the endpoint, with
/// one slash between them however many the URL ends in.
pub proof fn law_chat_url_is_below_the_endpoint(base: Seq<char>, slashes: Seq<char>)
    requires
        base.len() > 0 ==> base.last() != '/',
        forall|i: int| 0 <= i < slashes.len() ==> #[trigger] slashes[i] == '/',
    ensures
        chat_url(base + slashes) == base + "/chat/completions"@,
{
    law_trailing_run_is_removed(base, slashes, '/');
}

/// The key of an endpoint is sent as it is, unless there is nothing but white space in
/// it.
pub proof fn law_key_is_sent_as_it_is(api_key: Seq<char>)
    ensures
        (forall|i: int| 0 <= i < api_key.len() ==> is_white_space(#[trigger] api_key[i]))
            ==> bearer_token_of(api_key) is None,
        (exists|i: int| 0 <= i < api_key.len() && !is_white_space(#[trigger] api_key[i]))
            ==> bearer_token_of(api_key) == Some(api_key),
{
    law_blank_is_all_white_space(api_key);
}

/// What a request without a usable model is refused for, it is refused for whatever its
/// URL and its conversation are.
pub proof fn law_request_needs_a_model(
    params: RequestParamsView,
    restored: Seq<Seq<Option<AIAgentInputView>>>,
    parts: Option<UrlPartsView>,
    error: RunErrorView,
)
    requires
        selected_model(params) == Err::<(LocalEndpointView, EndpointModelView), RunErrorView>(
            error,
        ),
    ensures
        plan_for(params, restored, parts) == Err::<ChatPlanView, RunErrorView>(error),
{
}

/// A request for a configured model is refused, in this order, where its URL cannot be
/// read, where it leads elsewhere than to a local endpoint, and where there is nothing
/// to show. Otherwise it asks that model, at the URL and with the key of its endpoint,
/// with the conversation and the tools, for one whole answer.
pub proof fn law_request_is_planned_for_its_endpoint(
    params: RequestParamsView,
    restored: Seq<Seq<Option<AIAgentInputView>>>,
    parts: UrlPartsView,
    endpoint: LocalEndpointView,
    i: int,
    base: Seq<char>,
    slashes: Seq<char>,
)
    requires
        params.local_custom_endpoint == Some(endpoint),
        params.local_custom_model_config_keys.len() > 0,
        is_first_with_key(endpoint.models, params.local_custom_model_config_keys[0], i),
        endpoint.url == base + slashes,
        base.len() > 0 ==> base.last() != '/',
        forall|k: int| 0 <= k < slashes.len() ==> #[trigger] slashes[k] == '/',
    ensures
        destination_parts(params) == url_parts(base + "/chat/completions"@),
        plan_for(params, restored, None) == Err::<ChatPlanView, RunErrorView>(
            RunErrorView::InvalidUrl { endpoint: endpoint.name },
        ),
        destination_class(parts) == DestinationClass::Remote ==> plan_for(
            params,
            restored,
            Some(parts),
        ) == Err::<ChatPlanView, RunErrorView>(RunErrorView::NotLocal),
        destination_class(parts) == DestinationClass::LocalEndpoint && conversation_json(
            params,
            restored,
        ).len() <= 1 ==> plan_for(params, restored, Some(parts)) == Err::<
            ChatPlanView,
            RunErrorView,
        >(RunErrorView::NoPrompt),
        destination_class(parts) == DestinationClass::LocalEndpoint && conversation_json(
            params,
            restored,
        ).len() > 1 ==> {
            &&& plan_for(params, restored, Some(parts)) matches Ok(plan)
            &&& plan.url == base + "/chat/completions"@
            &&& plan.bearer_token is None <==> forall|k: int|
                0 <= k < endpoint.api_key.len() ==> is_white_space(#[trigger] endpoint.api_key[k])
            &&& plan.bearer_token matches Some(token) ==> token == endpoint.api_key
            &&& plan.accept_invalid_certificates == endpoint.allow_invalid_tls_certificates
            &&& plan.connect_timeout_seconds == 5
            &&& plan.request.model == endpoint.models[i].name
            &&& plan.request.messages == conversation_json(params, restored)
            &&& plan.request.tools == tool_definitions_json()
            &&& !plan.request.parallel_tool_calls
            &&& !plan.request.stream
        },
{
    law_chat_url_is_below_the_endpoint(base, slashes);
    law_blank_is_all_white_space(endpoint.api_key);
    law_first_model_with_the_key_is_taken(
        endpoint.models,
        params.local_custom_model_config_keys[0],
    );
    law_system_prompt_comes_first(params, restored);
    assert(endpoint.models[i].config_key == params.local_custom_model_config_keys[0]);
}

/// The view of a planned request has its fields.
pub proof fn law_view_of_a_plan(plan: ChatPlan, request: ChatRequest)
    ensures
        plan.deep_view().url == plan.url@,
        plan.deep_view().bearer_token == plan.bearer_token.deep_view(),
        plan.deep_view().accept_invalid_certificates == plan.accept_invalid_certificates,
        plan.deep_view().connect_timeout_seconds == plan.connect_timeout_seconds,
        plan.deep_view().request == plan.request.deep_view(),
        request.deep_view().model == request.model@,
        request.deep_view().messages == json_items(request.messages@),
        request.deep_view().tools == json_items(request.tools@),
        request.deep_view().parallel_tool_calls == request.parallel_tool_calls,
        request.deep_view().stream == request.stream,
{
}

} // verus!
