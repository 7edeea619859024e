//! What a runner is configured with, and the addresses and the greeting that follow from it.

use crate::duplicate::Duplicate;
use crate::error::{outcome, RunnerError, RunnerErrorView};
use crate::external::{
    encode_component, is_header_value, json_text, parses_as_header_value, percent_encoded, random_number, write_json,
};
use crate::names::{NameModel, NameTable};
use crate::protocol::{ToServer, ToServerView};
use crate::text::{
    decimal, decimal_text, digits, join, number_text, pad_with_zeros, replace_all, replaced, trim_end, trimmed_end,
    zero_padded,
};
use vstd::prelude::*;
use vstd::string::StringExecFns;
use vstd::utf8::encode_utf8;

verus! {

/// What is announced of an actor name before any actor of that name runs.
#[derive(Clone, Debug, Default)]
pub struct PrepopulateActorName {
    pub metadata: serde_json::Value,
}

impl DeepView for PrepopulateActorName {
    type V = Seq<char>;

    /// The metadata as JSON text.
    open spec fn deep_view(&self) -> Seq<char> {
        json_text(self.metadata)
    }
}

/// What a runner is configured with.
#[derive(Clone, Debug)]
pub struct RunnerConfig {
    pub endpoint: String,
    pub token: String,
    pub namespace: String,
    pub runner_name: String,
    pub runner_key: String,
    pub version: u32,
    pub total_slots: u32,
    pub pegboard_endpoint: Option<String>,
    pub prepopulate_actor_names: NameTable<PrepopulateActorName>,
    pub metadata: Option<serde_json::Value>,
}

/// The contents of a [`RunnerConfig`].
#[verifier::ext_equal]
pub struct RunnerConfigView {
    pub endpoint: Seq<char>,
    pub token: Seq<char>,
    pub namespace: Seq<char>,
    pub runner_name: Seq<char>,
    pub runner_key: Seq<char>,
    pub version: u32,
    pub total_slots: u32,
    pub pegboard_endpoint: Option<Seq<char>>,
    pub prepopulate_actor_names: NameModel<Seq<char>>,
    pub metadata: Option<Seq<char>>,
}

/// The JSON text of a document that may be missing.
pub open spec fn optional_json_text(value: Option<serde_json::Value>) -> Option<Seq<char>> {
    match value {
        Some(value) => Some(json_text(value)),
        None => None,
    }
}

impl DeepView for RunnerConfig {
    type V = RunnerConfigView;

    open spec fn deep_view(&self) -> RunnerConfigView {
        RunnerConfigView {
            endpoint: self.endpoint@,
            token: self.token@,
            namespace: self.namespace@,
            runner_name: self.runner_name@,
            runner_key: self.runner_key@,
            version: self.version,
            total_slots: self.total_slots,
            pegboard_endpoint: self.pegboard_endpoint.deep_view(),
            prepopulate_actor_names: self.prepopulate_actor_names.deep_view(),
            metadata: optional_json_text(self.metadata),
        }
    }
}

impl Duplicate for PrepopulateActorName {
    fn duplicate(&self) -> (copy: Self) {
        PrepopulateActorName { metadata: self.metadata.clone() }
    }
}

impl Duplicate for RunnerConfig {
    fn duplicate(&self) -> (copy: Self) {
        RunnerConfig {
            endpoint: self.endpoint.duplicate(),
            token: self.token.duplicate(),
            namespace: self.namespace.duplicate(),
            runner_name: self.runner_name.duplicate(),
            runner_key: self.runner_key.duplicate(),
            version: self.version,
            total_slots: self.total_slots,
            pegboard_endpoint: self.pegboard_endpoint.duplicate(),
            prepopulate_actor_names: self.prepopulate_actor_names.duplicate(),
            metadata: match &self.metadata {
                Some(value) => Some(value.clone()),
                None => None,
            },
        }
    }
}

/// The key of a runner that was given none: twelve or more hexadecimal digits of a random number.
pub open spec fn drawn_runner_key(drawn: u64) -> Seq<char> {
    "key-"@ + zero_padded(digits(drawn as nat, 16), 12)
}

/// The address of the WebSocket endpoint: the base with its scheme changed to the WebSocket
/// scheme, and the runner named in the query.
pub open spec fn ws_url(config: RunnerConfigView, protocol_version: u16) -> Seq<char> {
    let given = match config.pegboard_endpoint {
        Some(endpoint) => endpoint,
        None => config.endpoint,
    };
    let base = trimmed_end(
        replaced(replaced(given, "http://"@, "ws://"@), "https://"@, "wss://"@),
        '/',
    );
    base + "/runners/connect?protocol_version="@ + decimal(protocol_version as nat) + "&namespace="@
        + percent_encoded(encode_utf8(config.namespace)) + "&runner_key="@ + percent_encoded(
        encode_utf8(config.runner_key),
    )
}

/// The subprotocols that the runner offers; the second carries its token.
pub open spec fn protocol_header(config: RunnerConfigView) -> Seq<char> {
    "rivet, rivet_token."@ + config.token
}

/// The greeting, with the actor names and the metadata in their JSON form.
pub open spec fn greeting(
    config: RunnerConfigView,
    names: Seq<(Seq<char>, Seq<char>)>,
    metadata: Option<Seq<char>>,
) -> ToServerView {
    ToServerView::Init {
        name: config.runner_name,
        version: config.version,
        total_slots: config.total_slots,
        prepopulate_actor_names: if names.len() == 0 {
            None
        } else {
            Some(names)
        },
        metadata: metadata,
    }
}

/// The greeting.
pub open spec fn init_message(config: RunnerConfigView) -> ToServerView {
    greeting(config, config.prepopulate_actor_names.listed(), config.metadata)
}

impl RunnerConfig {
    /// Well-formed: no actor name is announced twice.
    pub open spec fn wf(&self) -> bool {
        self.prepopulate_actor_names.wf()
    }

    /// A builder with nothing set.
    pub fn builder() -> (builder: RunnerConfigBuilder)
        ensures
            builder.wf(),
            builder.deep_view() == unset_config(),
    {
        RunnerConfigBuilder::default()
    }

    /// The address of the WebSocket endpoint.
    pub fn build_ws_url(&self, protocol_version: u16) -> (url: String)
        ensures
            url@ == ws_url(self.deep_view(), protocol_version),
    {
        proof {
            reveal_strlit("http://");
            reveal_strlit("https://");
        }
        let given = match &self.pegboard_endpoint {
            Some(endpoint) => endpoint,
            None => &self.endpoint,
        };
        let plain = replace_all(given.as_str(), "http://", "ws://");
        let secure = replace_all(plain.as_str(), "https://", "wss://");
        let base = trim_end(secure.as_str(), '/');
        base.concat("/runners/connect?protocol_version=").concat(
            decimal_text(protocol_version as u64).as_str(),
        ).concat("&namespace=").concat(encode_component(self.namespace.as_str()).as_str()).concat("&runner_key=").concat(
            encode_component(self.runner_key.as_str()).as_str(),
        )
    }

    /// The value of the header that offers the subprotocols; an error where the token does not
    /// fit in a header.
    pub fn websocket_protocol_header(&self) -> (header: Result<String, RunnerError>)
        ensures
            outcome(header) == if is_header_value(protocol_header(self.deep_view())) {
                Ok(protocol_header(self.deep_view()))
            } else {
                Err(RunnerErrorView::InvalidProtocolHeader)
            },
    {
        let header = join("rivet, rivet_token.", self.token.as_str());
        if parses_as_header_value(header.as_str()) {
            Ok(header)
        } else {
            Err(RunnerError::InvalidProtocolHeader)
        }
    }

    /// The greeting.
    pub fn build_init_message(&self) -> (message: ToServer)
        requires
            self.wf(),
        ensures
            message.deep_view() == init_message(self.deep_view()),
    {
        let names = &self.prepopulate_actor_names;
        let mut entries: Vec<(String, String)> = Vec::new();
        let mut at: usize = 0;
        while at < names.len()
            invariant
                names.wf(),
                at <= names.deep_view().order.len(),
                entries.len() == at,
                forall|i: int|
                    0 <= i < at ==> (#[trigger] entries@[i]).deep_view() == (
                        names.deep_view().order[i],
                        names.deep_view().at(names.deep_view().order[i]),
                    ),
            decreases names.deep_view().order.len() - at,
        {
            let name = names.name_at(at).clone();
            let text = write_json(&names.value_at(at).metadata).unwrap();
            entries.push((name, text));
            at = at + 1;
        }
        assert(entries.deep_view() =~= names.deep_view().listed());
        let metadata = match &self.metadata {
            Some(value) => Some(write_json(value).unwrap()),
            None => None,
        };
        self.greeting_with(entries, metadata)
    }

    /// The greeting, with the actor names and the metadata in their JSON form.
    pub fn greeting_with(&self, names: Vec<(String, String)>, metadata: Option<String>) -> (message: ToServer)
        ensures
            message.deep_view() == greeting(self.deep_view(), names.deep_view(), metadata.deep_view()),
    {
        let prepopulate_actor_names = if names.len() == 0 {
            None
        } else {
            Some(names)
        };
        ToServer::Init {
            name: self.runner_name.clone(),
            version: self.version,
            total_slots: self.total_slots,
            prepopulate_actor_names,
            metadata,
        }
    }
}

/// Collects what a runner is configured with.
pub struct RunnerConfigBuilder {
    endpoint: Option<String>,
    token: Option<String>,
    namespace: Option<String>,
    runner_name: Option<String>,
    runner_key: Option<String>,
    version: Option<u32>,
    total_slots: Option<u32>,
    pegboard_endpoint: Option<String>,
    prepopulate_actor_names: NameTable<PrepopulateActorName>,
    metadata: Option<serde_json::Value>,
}

/// The contents of a [`RunnerConfigBuilder`].
#[verifier::ext_equal]
pub struct RunnerConfigBuilderView {
    pub endpoint: Option<Seq<char>>,
    pub token: Option<Seq<char>>,
    pub namespace: Option<Seq<char>>,
    pub runner_name: Option<Seq<char>>,
    pub runner_key: Option<Seq<char>>,
    pub version: Option<u32>,
    pub total_slots: Option<u32>,
    pub pegboard_endpoint: Option<Seq<char>>,
    pub prepopulate_actor_names: NameModel<Seq<char>>,
    pub metadata: Option<Seq<char>>,
}

impl DeepView for RunnerConfigBuilder {
    type V = RunnerConfigBuilderView;

    closed spec fn deep_view(&self) -> RunnerConfigBuilderView {
        RunnerConfigBuilderView {
            endpoint: self.endpoint.deep_view(),
            token: self.token.deep_view(),
            namespace: self.namespace.deep_view(),
            runner_name: self.runner_name.deep_view(),
            runner_key: self.runner_key.deep_view(),
            version: self.version,
            total_slots: self.total_slots,
            pegboard_endpoint: self.pegboard_endpoint.deep_view(),
            prepopulate_actor_names: self.prepopulate_actor_names.deep_view(),
            metadata: optional_json_text(self.metadata),
        }
    }
}

/// Nothing set.
pub open spec fn unset_config() -> RunnerConfigBuilderView {
    RunnerConfigBuilderView {
        endpoint: None,
        token: None,
        namespace: None,
        runner_name: None,
        runner_key: None,
        version: None,
        total_slots: None,
        pegboard_endpoint: None,
        prepopulate_actor_names: NameModel::empty(),
        metadata: None,
    }
}

/// A setting, or its default.
pub open spec fn setting<T>(given: Option<T>, default: T) -> T {
    match given {
        Some(value) => value,
        None => default,
    }
}

/// The configuration that some settings give. The endpoint and the namespace have no default;
/// the key of the runner defaults to one drawn at random.
pub open spec fn built_config(settings: RunnerConfigBuilderView, drawn: u64) -> Result<
    RunnerConfigView,
    RunnerErrorView,
> {
    match (settings.endpoint, settings.namespace) {
        (None, _) => Err(RunnerErrorView::EndpointRequired),
        (Some(_), None) => Err(RunnerErrorView::NamespaceRequired),
        (Some(endpoint), Some(namespace)) => Ok(
            RunnerConfigView {
                endpoint: endpoint,
                token: setting(settings.token, "dev"@),
                namespace: namespace,
                runner_name: setting(settings.runner_name, "engine-runner"@),
                runner_key: setting(settings.runner_key, drawn_runner_key(drawn)),
                version: setting(settings.version, 1),
                total_slots: setting(settings.total_slots, 100),
                pegboard_endpoint: settings.pegboard_endpoint,
                prepopulate_actor_names: settings.prepopulate_actor_names,
                metadata: settings.metadata,
            },
        ),
    }
}

impl Default for RunnerConfigBuilder {
    /// Nothing set.
    fn default() -> (builder: Self)
        ensures
            builder.wf(),
            builder.deep_view() == unset_config(),
    {
        RunnerConfigBuilder {
            endpoint: None,
            token: None,
            namespace: None,
            runner_name: None,
            runner_key: None,
            version: None,
            total_slots: None,
            pegboard_endpoint: None,
            prepopulate_actor_names: NameTable::new(),
            metadata: None,
        }
    }
}

impl RunnerConfigBuilder {
    /// Well-formed: no actor name is announced twice.
    pub closed spec fn wf(&self) -> bool {
        self.prepopulate_actor_names.wf()
    }

    /// Sets the address of the engine.
    pub fn endpoint(self, endpoint: String) -> (builder: Self)
        requires
            self.wf(),
        ensures
            builder.wf(),
            builder.deep_view() == (RunnerConfigBuilderView { endpoint: Some(endpoint@), ..self.deep_view() }),
    {
        RunnerConfigBuilder { endpoint: Some(endpoint), ..self }
    }

    /// Sets the token that authorises the runner.
    pub fn token(self, token: String) -> (builder: Self)
        requires
            self.wf(),
        ensures
            builder.wf(),
            builder.deep_view() == (RunnerConfigBuilderView { token: Some(token@), ..self.deep_view() }),
    {
        RunnerConfigBuilder { token: Some(token), ..self }
    }

    /// Sets the namespace of the runner.
    pub fn namespace(self, namespace: String) -> (builder: Self)
        requires
            self.wf(),
        ensures
            builder.wf(),
            builder.deep_view() == (RunnerConfigBuilderView { namespace: Some(namespace@), ..self.deep_view() }),
    {
        RunnerConfigBuilder { namespace: Some(namespace), ..self }
    }

    /// Sets the name of the runner.
    pub fn runner_name(self, runner_name: String) -> (builder: Self)
        requires
            self.wf(),
        ensures
            builder.wf(),
            builder.deep_view() == (RunnerConfigBuilderView { runner_name: Some(runner_name@), ..self.deep_view() }),
    {
        RunnerConfigBuilder { runner_name: Some(runner_name), ..self }
    }

    /// Sets the key that tells the runner apart.
    pub fn runner_key(self, runner_key: String) -> (builder: Self)
        requires
            self.wf(),
        ensures
            builder.wf(),
            builder.deep_view() == (RunnerConfigBuilderView { runner_key: Some(runner_key@), ..self.deep_view() }),
    {
        RunnerConfigBuilder { runner_key: Some(runner_key), ..self }
    }

    /// Sets the version of the runner.
    pub fn version(self, version: u32) -> (builder: Self)
        requires
            self.wf(),
        ensures
            builder.wf(),
            builder.deep_view() == (RunnerConfigBuilderView { version: Some(version), ..self.deep_view() }),
    {
        RunnerConfigBuilder { version: Some(version), ..self }
    }

    /// Sets how many actors the runner takes.
    pub fn total_slots(self, total_slots: u32) -> (builder: Self)
        requires
            self.wf(),
        ensures
            builder.wf(),
            builder.deep_view() == (RunnerConfigBuilderView { total_slots: Some(total_slots), ..self.deep_view() }),
    {
        RunnerConfigBuilder { total_slots: Some(total_slots), ..self }
    }

    /// Sets the address to connect to, where it differs from that of the engine.
    pub fn pegboard_endpoint(self, pegboard_endpoint: String) -> (builder: Self)
        requires
            self.wf(),
        ensures
            builder.wf(),
            builder.deep_view() == (RunnerConfigBuilderView {
                pegboard_endpoint: Some(pegboard_endpoint@),
                ..self.deep_view()
            }),
    {
        RunnerConfigBuilder { pegboard_endpoint: Some(pegboard_endpoint), ..self }
    }

    /// Sets what is announced of the runner.
    pub fn metadata(self, metadata: serde_json::Value) -> (builder: Self)
        requires
            self.wf(),
        ensures
            builder.wf(),
            builder.deep_view() == (RunnerConfigBuilderView {
                metadata: Some(json_text(metadata)),
                ..self.deep_view()
            }),
    {
        RunnerConfigBuilder { metadata: Some(metadata), ..self }
    }

    /// Announces an actor name, in place of an earlier announcement of it.
    pub fn prepopulate_actor_name(self, name: String, metadata: serde_json::Value) -> (builder: Self)
        requires
            self.wf(),
        ensures
            builder.wf(),
            builder.deep_view() == (RunnerConfigBuilderView {
                prepopulate_actor_names: self.deep_view().prepopulate_actor_names.insert(name@, json_text(metadata)),
                ..self.deep_view()
            }),
    {
        let mut builder = self;
        builder.prepopulate_actor_names.insert(name, PrepopulateActorName { metadata });
        builder
    }

    /// Builds the configuration, with a number to make a key of where no key was set.
    pub fn build_with(self, drawn: u64) -> (config: Result<RunnerConfig, RunnerError>)
        requires
            self.wf(),
        ensures
            outcome(config) == built_config(self.deep_view(), drawn),
            config is Ok ==> config->Ok_0.wf(),
    {
        let endpoint = match self.endpoint {
            Some(endpoint) => endpoint,
            None => {
                return Err(RunnerError::EndpointRequired);
            },
        };
        let namespace = match self.namespace {
            Some(namespace) => namespace,
            None => {
                return Err(RunnerError::NamespaceRequired);
            },
        };
        let token = match self.token {
            Some(token) => token,
            None => "dev".to_owned(),
        };
        let runner_name = match self.runner_name {
            Some(name) => name,
            None => "engine-runner".to_owned(),
        };
        let runner_key = match self.runner_key {
            Some(key) => key,
            None => join("key-", pad_with_zeros(number_text(drawn, 16), 12).as_str()),
        };
        Ok(
            RunnerConfig {
                endpoint,
                token,
                namespace,
                runner_name,
                runner_key,
                version: self.version.unwrap_or(1),
                total_slots: self.total_slots.unwrap_or(100),
                pegboard_endpoint: self.pegboard_endpoint,
                prepopulate_actor_names: self.prepopulate_actor_names,
                metadata: self.metadata,
            },
        )
    }

    /// Builds the configuration. Where no key was set, one is drawn at random.
    pub fn build(self) -> (config: Result<RunnerConfig, RunnerError>)
        requires
            self.wf(),
        ensures
            exists|drawn: u64| outcome(config) == #[trigger] built_config(self.deep_view(), drawn),
            config is Ok ==> config->Ok_0.wf(),
    {
        let drawn = random_number();
        self.build_with(drawn)
    }
}

} // verus!
