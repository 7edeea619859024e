//! Runners that are started on demand.

use crate::config::{
    built_config, unset_config, RunnerConfig, RunnerConfigBuilder, RunnerConfigBuilderView, RunnerConfigView,
};
use crate::duplicate::Duplicate;
use crate::error::{error_message, outcome, RunnerError, RunnerErrorView};
use crate::external::{
    begins_object, encode_component, get_json_elements, get_json_member, get_json_string, json_document, json_elements,
    json_member, json_string, json_text, last_named, make_json_number, make_json_object, make_json_string, member_texts,
    percent_encoded, random_number, read_json,
};
use crate::runner::{Runner, RunnerBuilder};
use crate::state::RunnerModel;
use crate::text::{decimal, trim_end, trimmed_end};
use vstd::prelude::*;
use vstd::string::StringExecFns;
use vstd::utf8::encode_utf8;

verus! {

/// What a serverless runner is configured with.
#[derive(Clone, Debug)]
pub struct ServerlessConfig {
    pub runner: RunnerConfig,
    pub max_runners: u32,
    pub slots_per_runner: u32,
    pub request_lifespan: u32,
}

/// The contents of a [`ServerlessConfig`].
#[verifier::ext_equal]
pub struct ServerlessConfigView {
    pub runner: RunnerConfigView,
    pub max_runners: u32,
    pub slots_per_runner: u32,
    pub request_lifespan: u32,
}

impl DeepView for ServerlessConfig {
    type V = ServerlessConfigView;

    open spec fn deep_view(&self) -> ServerlessConfigView {
        ServerlessConfigView {
            runner: self.runner.deep_view(),
            max_runners: self.max_runners,
            slots_per_runner: self.slots_per_runner,
            request_lifespan: self.request_lifespan,
        }
    }
}

/// Collects what a serverless runner is configured with.
pub struct ServerlessConfigBuilder {
    runner: RunnerConfigBuilder,
    max_runners: Option<u32>,
    slots_per_runner: Option<u32>,
    request_lifespan: Option<u32>,
}

/// The contents of a [`ServerlessConfigBuilder`].
#[verifier::ext_equal]
pub struct ServerlessConfigBuilderView {
    pub runner: RunnerConfigBuilderView,
    pub max_runners: Option<u32>,
    pub slots_per_runner: Option<u32>,
    pub request_lifespan: Option<u32>,
}

impl DeepView for ServerlessConfigBuilder {
    type V = ServerlessConfigBuilderView;

    closed spec fn deep_view(&self) -> ServerlessConfigBuilderView {
        ServerlessConfigBuilderView {
            runner: self.runner.deep_view(),
            max_runners: self.max_runners,
            slots_per_runner: self.slots_per_runner,
            request_lifespan: self.request_lifespan,
        }
    }
}

/// A builder with nothing set.
pub open spec fn unset_serverless_config() -> ServerlessConfigBuilderView {
    ServerlessConfigBuilderView {
        runner: unset_config(),
        max_runners: None,
        slots_per_runner: None,
        request_lifespan: None,
    }
}

/// The configuration that a builder gives, with defaults for what was not set.
pub open spec fn built_serverless_config(settings: ServerlessConfigBuilderView, drawn: u64) -> Result<
    ServerlessConfigView,
    RunnerErrorView,
> {
    match built_config(settings.runner, drawn) {
        Err(error) => Err(error),
        Ok(runner) => Ok(
            ServerlessConfigView {
                runner: runner,
                max_runners: match settings.max_runners {
                    Some(given) => given,
                    None => 1000,
                },
                slots_per_runner: match settings.slots_per_runner {
                    Some(given) => given,
                    None => 1,
                },
                request_lifespan: match settings.request_lifespan {
                    Some(given) => given,
                    None => 300,
                },
            },
        ),
    }
}

/// The address at which a serverless runner is configured.
pub open spec fn runner_config_url(config: RunnerConfigView) -> Seq<char> {
    trimmed_end(config.endpoint, '/') + "/runner-configs/"@ + percent_encoded(encode_utf8(config.runner_name))
        + "?namespace="@ + percent_encoded(encode_utf8(config.namespace))
}

/// The address at which the datacenters are listed.
pub open spec fn datacenters_url(config: RunnerConfigView) -> Seq<char> {
    trimmed_end(config.endpoint, '/') + "/datacenters"@
}

/// Whether a text is a JSON object with certain members and no others.
pub open spec fn is_object_of(text: Seq<char>, members: Seq<(Seq<char>, Seq<char>)>) -> bool {
    &&& begins_object(text)
    &&& forall|name: Seq<char>| #[trigger] json_member(text, name) == last_named(members, name)
}

/// The only member of an object.
pub open spec fn only_member(name: Seq<char>, document: Seq<char>) -> Seq<(Seq<char>, Seq<char>)> {
    seq![(name, document)]
}

/// The settings that are sent for a serverless runner; `url` is the document that holds its
/// address.
pub open spec fn serverless_members(config: ServerlessConfigView, url: Seq<char>) -> Seq<(Seq<char>, Seq<char>)> {
    seq![
        ("url"@, url),
        ("max_runners"@, decimal(config.max_runners as nat)),
        ("slots_per_runner"@, decimal(config.slots_per_runner as nat)),
        ("request_lifespan"@, decimal(config.request_lifespan as nat)),
    ]
}

/// What a serverless runner says of itself, document by document.
pub open spec fn metadata_members(
    runtime: Seq<char>,
    version: Seq<char>,
    actor_names: Seq<char>,
    runner: Seq<char>,
) -> Seq<(Seq<char>, Seq<char>)> {
    seq![("runtime"@, runtime), ("version"@, version), ("actorNames"@, actor_names), ("runner"@, runner)]
}

/// Whether a text is the configuration that is sent for a serverless runner.
pub open spec fn is_config_body(
    text: Seq<char>,
    config: ServerlessConfigView,
    public_url: Seq<char>,
    datacenter_name: Seq<char>,
) -> bool {
    exists|datacenters: Seq<char>, datacenter: Seq<char>, serverless: Seq<char>, url: Seq<char>|
        {
            &&& #[trigger] is_object_of(text, only_member("datacenters"@, datacenters))
            &&& #[trigger] is_object_of(datacenters, only_member(datacenter_name, datacenter))
            &&& #[trigger] is_object_of(datacenter, only_member("serverless"@, serverless))
            &&& #[trigger] is_object_of(serverless, serverless_members(config, url))
            &&& json_string(url) == Some(public_url)
        }
}

/// Whether a text is what a serverless runner says of itself.
pub open spec fn is_metadata_body(text: Seq<char>, config: RunnerConfigView) -> bool {
    exists|runtime: Seq<char>, version: Seq<char>, actor_names: Seq<char>, runner: Seq<char>|
        {
            &&& #[trigger] is_object_of(text, metadata_members(runtime, version, actor_names, runner))
            &&& json_string(runtime) == Some("rivetkit"@)
            &&& json_string(version) == Some("1"@)
            &&& is_object_of(actor_names, config.prepopulate_actor_names.listed())
            &&& is_object_of(runner, only_member("version"@, decimal(config.version as nat)))
        }
}

/// The name of the first datacenter in a listing, if the listing is as expected.
pub open spec fn first_datacenter(listing: Seq<char>) -> Option<Seq<char>> {
    match json_member(listing, "datacenters"@) {
        None => None,
        Some(datacenters) => match json_elements(datacenters) {
            None => None,
            Some(elements) => if elements.len() == 0 {
                None
            } else {
                match json_member(elements[0], "name"@) {
                    None => None,
                    Some(name) => json_string(name),
                }
            },
        },
    }
}

impl ServerlessConfig {
    /// Well-formed: the configuration of the runner is.
    pub open spec fn wf(&self) -> bool {
        self.runner.wf()
    }

    /// A builder with nothing set.
    pub fn builder() -> (builder: ServerlessConfigBuilder)
        ensures
            builder.wf(),
            builder.deep_view() == unset_serverless_config(),
    {
        ServerlessConfigBuilder::default()
    }

    /// The address at which the runner is configured.
    pub fn runner_config_url(&self) -> (url: String)
        ensures
            url@ == runner_config_url(self.deep_view().runner),
    {
        trim_end(self.runner.endpoint.as_str(), '/').concat("/runner-configs/").concat(
            encode_component(self.runner.runner_name.as_str()).as_str(),
        ).concat("?namespace=").concat(encode_component(self.runner.namespace.as_str()).as_str())
    }

    /// The address at which the datacenters are listed.
    pub fn datacenters_url(&self) -> (url: String)
        ensures
            url@ == datacenters_url(self.deep_view().runner),
    {
        trim_end(self.runner.endpoint.as_str(), '/').concat("/datacenters")
    }

    /// The configuration that is sent for the runner.
    pub fn serverless_runner_config_body(&self, public_url: &str, datacenter_name: &str) -> (body: serde_json::Value)
        ensures
            is_config_body(json_text(body), self.deep_view(), public_url@, datacenter_name@),
    {
        let url = make_json_string(public_url);
        let ghost url_text = json_text(url);
        let mut members: Vec<(String, serde_json::Value)> = Vec::new();
        members.push(("url".to_owned(), url));
        members.push(("max_runners".to_owned(), make_json_number(self.max_runners)));
        members.push(("slots_per_runner".to_owned(), make_json_number(self.slots_per_runner)));
        members.push(("request_lifespan".to_owned(), make_json_number(self.request_lifespan)));
        let ghost texts = serverless_members(self.deep_view(), url_text);
        assert(member_texts(members@) =~= texts);
        let serverless = make_json_object(members);
        let ghost serverless_text = json_text(serverless);
        assert(is_object_of(serverless_text, texts));
        let datacenter = json_object_of("serverless", serverless);
        let ghost datacenter_text = json_text(datacenter);
        let datacenters = json_object_of(datacenter_name, datacenter);
        let ghost datacenters_text = json_text(datacenters);
        json_object_of("datacenters", datacenters)
    }

    /// What the runner says of itself.
    pub fn serverless_metadata(&self) -> (body: serde_json::Value)
        requires
            self.wf(),
        ensures
            is_metadata_body(json_text(body), self.deep_view().runner),
    {
        let names = &self.runner.prepopulate_actor_names;
        let mut actors: Vec<(String, serde_json::Value)> = Vec::new();
        let mut at: usize = 0;
        while at < names.len()
            invariant
                names.wf(),
                at <= names.deep_view().order.len(),
                actors.len() == at,
                forall|i: int|
                    0 <= i < at ==> {
                        &&& (#[trigger] actors@[i]).0@ == names.deep_view().order[i]
                        &&& json_text(actors@[i].1) == names.deep_view().at(names.deep_view().order[i])
                    },
            decreases names.deep_view().order.len() - at,
        {
            actors.push((names.name_at(at).clone(), names.value_at(at).metadata.clone()));
            at = at + 1;
        }
        assert(member_texts(actors@) =~= names.deep_view().listed());
        let actor_names = make_json_object(actors);
        let ghost actor_names_text = json_text(actor_names);
        assert(is_object_of(actor_names_text, names.deep_view().listed()));
        let runner = json_object_of("version", make_json_number(self.runner.version));
        let ghost runner_text = json_text(runner);
        let runtime = make_json_string("rivetkit");
        let ghost runtime_text = json_text(runtime);
        let version = make_json_string("1");
        let ghost version_text = json_text(version);
        let mut members: Vec<(String, serde_json::Value)> = Vec::new();
        members.push(("runtime".to_owned(), runtime));
        members.push(("version".to_owned(), version));
        members.push(("actorNames".to_owned(), actor_names));
        members.push(("runner".to_owned(), runner));
        let ghost texts = metadata_members(runtime_text, version_text, actor_names_text, runner_text);
        assert(member_texts(members@) =~= texts);
        let body = make_json_object(members);
        assert(is_object_of(json_text(body), texts));
        body
    }
}

/// An object with one member.
fn json_object_of(name: &str, value: serde_json::Value) -> (object: serde_json::Value)
    ensures
        is_object_of(json_text(object), only_member(name@, json_text(value))),
{
    let ghost text = json_text(value);
    let mut members: Vec<(String, serde_json::Value)> = Vec::new();
    members.push((name.to_owned(), value));
    assert(member_texts(members@) =~= only_member(name@, text));
    make_json_object(members)
}

/// The datacenter that a response to the request for a listing leads to, by its status and the
/// document in its body, where the body holds one. A refusal leads to none, whatever its body; a
/// success without a document is an error.
pub open spec fn datacenter_from(code: u16, listing: Option<Seq<char>>) -> Result<Option<Seq<char>>, RunnerErrorView> {
    if !is_success(code) {
        Ok(None)
    } else {
        match listing {
            Some(text) => Ok(first_datacenter(text)),
            None => Err(RunnerErrorView::DatacentersUndecodable),
        }
    }
}

/// The datacenter that a response to the request for a listing leads to.
pub fn resolve_datacenter_name(code: u16, body: &Vec<u8>) -> (name: Result<Option<String>, RunnerError>)
    ensures
        outcome(name) == datacenter_from(code, json_document(body@)),
{
    if !status_is_success(code) {
        return Ok(None);
    }
    match read_json(body) {
        Ok(listing) => datacenter_listed(code, Some(&listing)),
        Err(_) => datacenter_listed(code, None),
    }
}

/// The datacenter that a response to the request for a listing leads to, once its body was read.
pub fn datacenter_listed(code: u16, listing: Option<&serde_json::Value>) -> (name: Result<Option<String>, RunnerError>)
    ensures
        outcome(name) == datacenter_from(
            code,
            match listing {
                Some(value) => Some(json_text(*value)),
                None => None,
            },
        ),
{
    if !status_is_success(code) {
        return Ok(None);
    }
    match listing {
        Some(listing) => Ok(first_datacenter_name(listing)),
        None => Err(RunnerError::DatacentersUndecodable),
    }
}

/// The name of the first datacenter in a listing, if the listing is as expected.
pub fn first_datacenter_name(listing: &serde_json::Value) -> (name: Option<String>)
    ensures
        name.deep_view() == first_datacenter(json_text(*listing)),
{
    let datacenters = match get_json_member(listing, "datacenters") {
        None => {
            return None;
        },
        Some(datacenters) => datacenters,
    };
    let elements = match get_json_elements(datacenters) {
        None => {
            return None;
        },
        Some(elements) => elements,
    };
    if elements.len() == 0 {
        return None;
    }
    let name = match get_json_member(&elements[0], "name") {
        None => {
            return None;
        },
        Some(name) => name,
    };
    match get_json_string(name) {
        None => None,
        Some(text) => Some(text.to_owned()),
    }
}

impl Default for ServerlessConfigBuilder {
    fn default() -> (builder: Self)
        ensures
            builder.wf(),
            builder.deep_view() == unset_serverless_config(),
    {
        ServerlessConfigBuilder {
            runner: RunnerConfigBuilder::default(),
            max_runners: None,
            slots_per_runner: None,
            request_lifespan: None,
        }
    }
}

impl ServerlessConfigBuilder {
    /// Well-formed: the builder for the runner is.
    pub closed spec fn wf(&self) -> bool {
        self.runner.wf()
    }

    /// Sets the address of the engine.
    pub fn endpoint(self, endpoint: String) -> (builder: Self)
        requires
            self.wf(),
        ensures
            builder.wf(),
            builder.deep_view() == (ServerlessConfigBuilderView {
                runner: RunnerConfigBuilderView { endpoint: Some(endpoint@), ..self.deep_view().runner },
                ..self.deep_view()
            }),
    {
        ServerlessConfigBuilder {
            runner: self.runner.endpoint(endpoint),
            max_runners: self.max_runners,
            slots_per_runner: self.slots_per_runner,
            request_lifespan: self.request_lifespan,
        }
    }

    /// Sets the token.
    pub fn token(self, token: String) -> (builder: Self)
        requires
            self.wf(),
        ensures
            builder.wf(),
            builder.deep_view() == (ServerlessConfigBuilderView {
                runner: RunnerConfigBuilderView { token: Some(token@), ..self.deep_view().runner },
                ..self.deep_view()
            }),
    {
        ServerlessConfigBuilder {
            runner: self.runner.token(token),
            max_runners: self.max_runners,
            slots_per_runner: self.slots_per_runner,
            request_lifespan: self.request_lifespan,
        }
    }

    /// Sets the namespace.
    pub fn namespace(self, namespace: String) -> (builder: Self)
        requires
            self.wf(),
        ensures
            builder.wf(),
            builder.deep_view() == (ServerlessConfigBuilderView {
                runner: RunnerConfigBuilderView { namespace: Some(namespace@), ..self.deep_view().runner },
                ..self.deep_view()
            }),
    {
        ServerlessConfigBuilder {
            runner: self.runner.namespace(namespace),
            max_runners: self.max_runners,
            slots_per_runner: self.slots_per_runner,
            request_lifespan: self.request_lifespan,
        }
    }

    /// Sets the name of the runner.
    pub fn runner_name(self, runner_name: String) -> (builder: Self)
        requires
            self.wf(),
        ensures
            builder.wf(),
            builder.deep_view() == (ServerlessConfigBuilderView {
                runner: RunnerConfigBuilderView { runner_name: Some(runner_name@), ..self.deep_view().runner },
                ..self.deep_view()
            }),
    {
        ServerlessConfigBuilder {
            runner: self.runner.runner_name(runner_name),
            max_runners: self.max_runners,
            slots_per_runner: self.slots_per_runner,
            request_lifespan: self.request_lifespan,
        }
    }

    /// Sets the key of the runner.
    pub fn runner_key(self, runner_key: String) -> (builder: Self)
        requires
            self.wf(),
        ensures
            builder.wf(),
            builder.deep_view() == (ServerlessConfigBuilderView {
                runner: RunnerConfigBuilderView { runner_key: Some(runner_key@), ..self.deep_view().runner },
                ..self.deep_view()
            }),
    {
        ServerlessConfigBuilder {
            runner: self.runner.runner_key(runner_key),
            max_runners: self.max_runners,
            slots_per_runner: self.slots_per_runner,
            request_lifespan: self.request_lifespan,
        }
    }

    /// Sets the version of the runner.
    pub fn version(self, version: u32) -> (builder: Self)
        requires
            self.wf(),
        ensures
            builder.wf(),
            builder.deep_view() == (ServerlessConfigBuilderView {
                runner: RunnerConfigBuilderView { version: Some(version), ..self.deep_view().runner },
                ..self.deep_view()
            }),
    {
        ServerlessConfigBuilder {
            runner: self.runner.version(version),
            max_runners: self.max_runners,
            slots_per_runner: self.slots_per_runner,
            request_lifespan: self.request_lifespan,
        }
    }

    /// Sets how many actors fit in the runner.
    pub fn total_slots(self, total_slots: u32) -> (builder: Self)
        requires
            self.wf(),
        ensures
            builder.wf(),
            builder.deep_view() == (ServerlessConfigBuilderView {
                runner: RunnerConfigBuilderView { total_slots: Some(total_slots), ..self.deep_view().runner },
                ..self.deep_view()
            }),
    {
        ServerlessConfigBuilder {
            runner: self.runner.total_slots(total_slots),
            max_runners: self.max_runners,
            slots_per_runner: self.slots_per_runner,
            request_lifespan: self.request_lifespan,
        }
    }

    /// Sets the address to connect to where it is not that of the engine.
    pub fn pegboard_endpoint(self, pegboard_endpoint: String) -> (builder: Self)
        requires
            self.wf(),
        ensures
            builder.wf(),
            builder.deep_view() == (ServerlessConfigBuilderView {
                runner: RunnerConfigBuilderView { pegboard_endpoint: Some(pegboard_endpoint@), ..self.deep_view().runner },
                ..self.deep_view()
            }),
    {
        ServerlessConfigBuilder {
            runner: self.runner.pegboard_endpoint(pegboard_endpoint),
            max_runners: self.max_runners,
            slots_per_runner: self.slots_per_runner,
            request_lifespan: self.request_lifespan,
        }
    }

    /// Sets the metadata of the runner.
    pub fn metadata(self, metadata: serde_json::Value) -> (builder: Self)
        requires
            self.wf(),
        ensures
            builder.wf(),
            builder.deep_view() == (ServerlessConfigBuilderView {
                runner: RunnerConfigBuilderView { metadata: Some(json_text(metadata)), ..self.deep_view().runner },
                ..self.deep_view()
            }),
    {
        ServerlessConfigBuilder {
            runner: self.runner.metadata(metadata),
            max_runners: self.max_runners,
            slots_per_runner: self.slots_per_runner,
            request_lifespan: self.request_lifespan,
        }
    }

    /// Announces an actor name.
    pub fn prepopulate_actor_name(self, name: String, metadata: serde_json::Value) -> (builder: Self)
        requires
            self.wf(),
        ensures
            builder.wf(),
            builder.deep_view() == (ServerlessConfigBuilderView {
                runner: RunnerConfigBuilderView {
                    prepopulate_actor_names: self.deep_view().runner.prepopulate_actor_names.insert(
                        name@,
                        json_text(metadata),
                    ),
                    ..self.deep_view().runner
                },
                ..self.deep_view()
            }),
    {
        ServerlessConfigBuilder {
            runner: self.runner.prepopulate_actor_name(name, metadata),
            max_runners: self.max_runners,
            slots_per_runner: self.slots_per_runner,
            request_lifespan: self.request_lifespan,
        }
    }

    /// Sets how many runners there may be.
    pub fn max_runners(self, max_runners: u32) -> (builder: Self)
        requires
            self.wf(),
        ensures
            builder.wf(),
            builder.deep_view() == (ServerlessConfigBuilderView { max_runners: Some(max_runners), ..self.deep_view() }),
    {
        ServerlessConfigBuilder { max_runners: Some(max_runners), ..self }
    }

    /// Sets how many actors fit in a runner.
    pub fn slots_per_runner(self, slots_per_runner: u32) -> (builder: Self)
        requires
            self.wf(),
        ensures
            builder.wf(),
            builder.deep_view() == (ServerlessConfigBuilderView {
                slots_per_runner: Some(slots_per_runner),
                ..self.deep_view()
            }),
    {
        ServerlessConfigBuilder { slots_per_runner: Some(slots_per_runner), ..self }
    }

    /// Sets how long a request may last.
    pub fn request_lifespan(self, request_lifespan: u32) -> (builder: Self)
        requires
            self.wf(),
        ensures
            builder.wf(),
            builder.deep_view() == (ServerlessConfigBuilderView {
                request_lifespan: Some(request_lifespan),
                ..self.deep_view()
            }),
    {
        ServerlessConfigBuilder { request_lifespan: Some(request_lifespan), ..self }
    }

    /// The configuration, with `drawn` as the random number for the runner key.
    pub fn build_with(self, drawn: u64) -> (config: Result<ServerlessConfig, RunnerError>)
        requires
            self.wf(),
        ensures
            outcome(config) == built_serverless_config(self.deep_view(), drawn),
            config is Ok ==> config->Ok_0.wf(),
    {
        match self.runner.build_with(drawn) {
            Err(error) => Err(error),
            Ok(runner) => Ok(
                ServerlessConfig {
                    runner,
                    max_runners: match self.max_runners {
                        Some(given) => given,
                        None => 1000,
                    },
                    slots_per_runner: match self.slots_per_runner {
                        Some(given) => given,
                        None => 1,
                    },
                    request_lifespan: match self.request_lifespan {
                        Some(given) => given,
                        None => 300,
                    },
                },
            ),
        }
    }

    /// The configuration. A runner key that was not set is drawn at random.
    pub fn build(self) -> (config: Result<ServerlessConfig, RunnerError>)
        requires
            self.wf(),
        ensures
            exists|drawn: u64| outcome(config) == #[trigger] built_serverless_config(self.deep_view(), drawn),
            config is Ok ==> config->Ok_0.wf(),
    {
        self.build_with(random_number())
    }
}

/// A serverless runner and the application that it serves.
pub struct ServerlessRunner<A> {
    pub runner: Runner<A>,
    pub config: ServerlessConfig,
}

impl<A> ServerlessRunner<A> {
    /// A builder for a serverless runner with a configuration.
    pub fn builder(config: ServerlessConfig) -> (builder: ServerlessRunnerBuilder<A>)
        ensures
            builder.spec_config() == config,
            builder.spec_app() is None,
    {
        ServerlessRunnerBuilder { config, app: None }
    }
}

/// Collects what a serverless runner is made of.
pub struct ServerlessRunnerBuilder<A> {
    config: ServerlessConfig,
    app: Option<A>,
}

impl<A> ServerlessRunnerBuilder<A> {
    /// The configuration.
    pub closed spec fn spec_config(self) -> ServerlessConfig {
        self.config
    }

    /// The application, where one was given.
    pub closed spec fn spec_app(self) -> Option<A> {
        self.app
    }

    /// Gives the application.
    pub fn app(self, app: A) -> (builder: Self)
        ensures
            builder.spec_config() == self.spec_config(),
            builder.spec_app() == Some(app),
    {
        ServerlessRunnerBuilder { config: self.config, app: Some(app) }
    }

    /// Makes a serverless runner whose runner was never started; fails without an application.
    pub fn build(self) -> (runner: Result<ServerlessRunner<A>, RunnerError>)
        requires
            self.spec_config().wf(),
        ensures
            runner is Ok == self.spec_app() is Some,
            runner is Ok ==> {
                &&& runner->Ok_0.config == self.spec_config()
                &&& runner->Ok_0.runner.inner.wf()
                &&& runner->Ok_0.runner.inner@ == RunnerModel::fresh(self.spec_config().runner.deep_view())
                &&& Some(runner->Ok_0.runner.app) == self.spec_app()
            },
            runner is Err ==> runner->Err_0 == RunnerError::ServerlessAppRequired,
    {
        match self.app {
            None => Err(RunnerError::ServerlessAppRequired),
            Some(app) => match RunnerBuilder::new(self.config.runner.duplicate()).app(app).build() {
                Err(error) => Err(error),
                Ok(runner) => Ok(ServerlessRunner { runner, config: self.config }),
            },
        }
    }
}

/// How far the configuring of a serverless runner is.
/// `First`: the default datacenter is asked for. `Refused`: that was refused as a bad request.
/// `Retried`: another datacenter is asked for.
pub enum UpsertState {
    First,
    Refused { status: String, body: String },
    Retried,
}

/// The contents of a [`UpsertState`].
#[verifier::ext_equal]
pub enum UpsertStateView {
    First,
    Refused { status: Seq<char>, body: Seq<char> },
    Retried,
}

impl DeepView for UpsertState {
    type V = UpsertStateView;

    open spec fn deep_view(&self) -> UpsertStateView {
        match self {
            UpsertState::First => UpsertStateView::First,
            UpsertState::Refused { status, body } => UpsertStateView::Refused { status: status@, body: body@ },
            UpsertState::Retried => UpsertStateView::Retried,
        }
    }
}

/// What is to be done to configure a serverless runner.
/// `Put`: ask for a datacenter, then [`upsert_responded`]. `List`: list the datacenters, then
/// [`upsert_listed`].
pub enum UpsertAction {
    Put { datacenter_name: String },
    List,
    Done,
    Fail(RunnerError),
}

/// The contents of a [`UpsertAction`].
#[verifier::ext_equal]
pub enum UpsertActionView {
    Put { datacenter_name: Seq<char> },
    List,
    Done,
    Fail(RunnerErrorView),
}

impl DeepView for UpsertAction {
    type V = UpsertActionView;

    open spec fn deep_view(&self) -> UpsertActionView {
        match self {
            UpsertAction::Put { datacenter_name } => UpsertActionView::Put { datacenter_name: datacenter_name@ },
            UpsertAction::List => UpsertActionView::List,
            UpsertAction::Done => UpsertActionView::Done,
            UpsertAction::Fail(error) => UpsertActionView::Fail(error.deep_view()),
        }
    }
}

/// Whether a status code means success.
pub open spec fn is_success(code: u16) -> bool {
    200 <= code < 300
}

/// What follows a response to the configuration. A bad request for the default datacenter may mean
/// that there is no such datacenter, so the datacenters are listed. Any other refusal stands.
pub open spec fn after_response(state: UpsertStateView, code: u16, status: Seq<char>, body: Seq<char>) -> (
    UpsertStateView,
    UpsertActionView,
) {
    if is_success(code) {
        (state, UpsertActionView::Done)
    } else if state is First && code == 400 {
        (UpsertStateView::Refused { status: status, body: body }, UpsertActionView::List)
    } else {
        (state, UpsertActionView::Fail(RunnerErrorView::UpsertFailed { status: status, body: body }))
    }
}

/// What follows the listing of the datacenters. Where it gives a datacenter other than the default
/// one, that is asked for; else the refusal stands.
pub open spec fn after_listing(state: UpsertStateView, listed: Option<Seq<char>>) -> (UpsertStateView, UpsertActionView) {
    if listed is Some && listed->0 != "default"@ {
        (UpsertStateView::Retried, UpsertActionView::Put { datacenter_name: listed->0 })
    } else {
        (
            state,
            UpsertActionView::Fail(
                RunnerErrorView::UpsertFailed { status: state->Refused_status, body: state->Refused_body },
            ),
        )
    }
}

/// Whether a status code means success.
pub fn status_is_success(code: u16) -> (success: bool)
    ensures
        success == is_success(code),
{
    200 <= code && code < 300
}

/// Begins to configure a serverless runner.
pub fn upsert_serverless_runner_config() -> (begun: (UpsertState, UpsertAction))
    ensures
        begun.0.deep_view() == UpsertStateView::First,
        begun.1.deep_view() == (UpsertActionView::Put { datacenter_name: "default"@ }),
{
    (UpsertState::First, UpsertAction::Put { datacenter_name: "default".to_owned() })
}

/// Goes on after a response to the configuration.
pub fn upsert_responded(state: UpsertState, code: u16, status: String, body: String) -> (next: (
    UpsertState,
    UpsertAction,
))
    ensures
        (next.0.deep_view(), next.1.deep_view()) == after_response(state.deep_view(), code, status@, body@),
        next.1 is List ==> next.0 is Refused,
{
    if status_is_success(code) {
        return (state, UpsertAction::Done);
    }
    match state {
        UpsertState::First => if code == 400 {
            (UpsertState::Refused { status, body }, UpsertAction::List)
        } else {
            (UpsertState::First, UpsertAction::Fail(RunnerError::UpsertFailed { status, body }))
        },
        other => (other, UpsertAction::Fail(RunnerError::UpsertFailed { status, body })),
    }
}

/// Goes on after the listing of the datacenters.
pub fn upsert_listed(state: UpsertState, listed: Option<String>) -> (next: (UpsertState, UpsertAction))
    requires
        state is Refused,
    ensures
        (next.0.deep_view(), next.1.deep_view()) == after_listing(state.deep_view(), listed.deep_view()),
{
    if let Some(datacenter_name) = listed {
        if datacenter_name != "default".to_owned() {
            return (UpsertState::Retried, UpsertAction::Put { datacenter_name });
        }
    }
    let failure = match &state {
        UpsertState::Refused { status, body } => RunnerError::UpsertFailed {
            status: status.clone(),
            body: body.clone(),
        },
        _ => RunnerError::UpsertFailed { status: "".to_owned(), body: "".to_owned() },
    };
    (state, UpsertAction::Fail(failure))
}

/// At most two datacenters are asked for: the response to the second request ends the configuring.
pub proof fn law_second_attempt_is_the_last(
    refused: UpsertStateView,
    listed: Option<Seq<char>>,
    code: u16,
    status: Seq<char>,
    body: Seq<char>,
)
    requires
        refused is Refused,
    ensures
        after_listing(refused, listed).1 is Put ==> {
            let last = after_response(after_listing(refused, listed).0, code, status, body).1;
            last is Done || last == UpsertActionView::Fail(
                RunnerErrorView::UpsertFailed { status: status, body: body },
            )
        },
        !(after_listing(refused, listed).1 is Put) ==> after_listing(refused, listed).1 is Fail,
{
}

/// A document under a name in a document, or an empty text where there is none.
pub open spec fn under(text: Seq<char>, name: Seq<char>) -> Seq<char> {
    match json_member(text, name) {
        Some(document) => document,
        None => Seq::empty(),
    }
}

/// The configuration that is sent can be read back: under its datacenter stand the address of the
/// runner and its settings.
pub proof fn law_config_body_is_read_back(
    text: Seq<char>,
    config: ServerlessConfigView,
    public_url: Seq<char>,
    datacenter_name: Seq<char>,
)
    requires
        is_config_body(text, config, public_url, datacenter_name),
    ensures
        ({
            let settings = under(under(under(text, "datacenters"@), datacenter_name), "serverless"@);
            &&& json_string(under(settings, "url"@)) == Some(public_url)
            &&& under(settings, "max_runners"@) == decimal(config.max_runners as nat)
            &&& under(settings, "slots_per_runner"@) == decimal(config.slots_per_runner as nat)
            &&& under(settings, "request_lifespan"@) == decimal(config.request_lifespan as nat)
        }),
{
    let (datacenters, datacenter, serverless, url) = choose|
        datacenters: Seq<char>,
        datacenter: Seq<char>,
        serverless: Seq<char>,
        url: Seq<char>,
    |
        {
            &&& #[trigger] is_object_of(text, only_member("datacenters"@, datacenters))
            &&& #[trigger] is_object_of(datacenters, only_member(datacenter_name, datacenter))
            &&& #[trigger] is_object_of(datacenter, only_member("serverless"@, serverless))
            &&& #[trigger] is_object_of(serverless, serverless_members(config, url))
            &&& json_string(url) == Some(public_url)
        };
    assert(json_member(text, "datacenters"@) == Some(datacenters));
    assert(json_member(datacenters, datacenter_name) == Some(datacenter));
    assert(json_member(datacenter, "serverless"@) == Some(serverless));
    reveal_strlit("url");
    reveal_strlit("max_runners");
    reveal_strlit("slots_per_runner");
    reveal_strlit("request_lifespan");
    assert("url"@.len() == 3 && "max_runners"@.len() == 11);
    assert("slots_per_runner"@.len() == 16 && "request_lifespan"@.len() == 16);
    assert("slots_per_runner"@[0] == 's' && "request_lifespan"@[0] == 'r');
    let members = serverless_members(config, url);
    let three = members.drop_last();
    let two = three.drop_last();
    let one = two.drop_last();
    assert(last_named(members, "request_lifespan"@) == Some(members[3].1));
    assert(last_named(three, "slots_per_runner"@) == Some(members[2].1));
    assert(last_named(two, "max_runners"@) == Some(members[1].1));
    assert(last_named(three, "max_runners"@) == Some(members[1].1));
    assert(last_named(one, "url"@) == Some(members[0].1));
    assert(last_named(two, "url"@) == Some(members[0].1));
    assert(last_named(three, "url"@) == Some(members[0].1));
    assert(json_member(serverless, "request_lifespan"@) == Some(members[3].1));
    assert(json_member(serverless, "slots_per_runner"@) == Some(members[2].1));
    assert(json_member(serverless, "max_runners"@) == Some(members[1].1));
    assert(json_member(serverless, "url"@) == Some(members[0].1));
}

/// The packet with which a serverless runner greets; an error where there is none.
pub fn available_init_packet(packet: Option<String>) -> (available: Result<String, RunnerError>)
    ensures
        outcome(available) == match packet.deep_view() {
            Some(text) => Ok(text),
            None => Err(RunnerErrorView::InitPacketUnavailable),
        },
{
    match packet {
        Some(packet) => Ok(packet),
        None => Err(RunnerError::InitPacketUnavailable),
    }
}

/// The status and text with which an error is answered.
pub fn internal_error(error: &RunnerError) -> (answer: (u16, String))
    ensures
        answer.0 == 500,
        answer.1@ == error_message(error.deep_view()),
{
    (500, error.message())
}

} // verus!
