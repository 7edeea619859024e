//! What a configuration is made of, setting by setting.

use super::writing::{
    law_every_occurrence_is_replaced, law_only_the_end_is_trimmed, law_written_number_can_be_read, law_zeros_fill_up,
    stands_in, zeros,
};
use crate::config::{
    built_config, drawn_runner_key, protocol_header, unset_config, ws_url, RunnerConfigBuilderView, RunnerConfigView,
};
use crate::error::RunnerErrorView;
use crate::external::percent_encoded;
use crate::serverless::{
    built_serverless_config, datacenters_url, runner_config_url, unset_serverless_config, ServerlessConfigBuilderView,
    ServerlessConfigView,
};
use crate::text::{decimal, digits, replaced, trimmed_end};
use vstd::prelude::*;
use vstd::utf8::encode_utf8;

verus! {

/// A configuration is built exactly where an endpoint and a namespace are set; where both are
/// missing, the endpoint is the one that is complained of.
pub proof fn law_what_a_configuration_needs(settings: RunnerConfigBuilderView, drawn: u64)
    ensures
        built_config(settings, drawn) is Ok <==> settings.endpoint is Some && settings.namespace is Some,
        settings.endpoint is None ==> built_config(settings, drawn) == Err::<RunnerConfigView, RunnerErrorView>(
            RunnerErrorView::EndpointRequired,
        ),
        settings.endpoint is Some && settings.namespace is None ==> built_config(settings, drawn) == Err::<
            RunnerConfigView,
            RunnerErrorView,
        >(RunnerErrorView::NamespaceRequired),
{
}

/// Every setting that was given is in the configuration as it was given, whatever the others are.
pub proof fn law_settings_are_kept(settings: RunnerConfigBuilderView, drawn: u64)
    requires
        settings.endpoint is Some,
        settings.namespace is Some,
    ensures
        ({
            let config = built_config(settings, drawn)->Ok_0;
            &&& config.endpoint == settings.endpoint->0
            &&& config.namespace == settings.namespace->0
            &&& settings.token is Some ==> config.token == settings.token->0
            &&& settings.runner_name is Some ==> config.runner_name == settings.runner_name->0
            &&& settings.runner_key is Some ==> config.runner_key == settings.runner_key->0
            &&& settings.version is Some ==> config.version == settings.version->0
            &&& settings.total_slots is Some ==> config.total_slots == settings.total_slots->0
            &&& config.pegboard_endpoint == settings.pegboard_endpoint
            &&& config.prepopulate_actor_names == settings.prepopulate_actor_names
            &&& config.metadata == settings.metadata
        }),
{
}

/// Every setting that was not given has its default, whatever the others are.
pub proof fn law_defaults(settings: RunnerConfigBuilderView, drawn: u64)
    requires
        settings.endpoint is Some,
        settings.namespace is Some,
    ensures
        ({
            let config = built_config(settings, drawn)->Ok_0;
            &&& settings.token is None ==> config.token == "dev"@
            &&& settings.runner_name is None ==> config.runner_name == "engine-runner"@
            &&& settings.runner_key is None ==> config.runner_key == drawn_runner_key(drawn)
            &&& settings.version is None ==> config.version == 1
            &&& settings.total_slots is None ==> config.total_slots == 100
        }),
{
}

/// A key that is drawn is made of a prefix and the number in hexadecimal, with zeros in front where
/// it has fewer than twelve digits.
pub proof fn law_drawn_key(drawn: u64)
    ensures
        ({
            let hex = digits(drawn as nat, 16);
            let key = drawn_runner_key(drawn);
            &&& hex.len() >= 12 ==> key == "key-"@ + hex
            &&& hex.len() < 12 ==> key == "key-"@ + (zeros((12 - hex.len()) as nat) + hex)
        }),
{
    law_zeros_fill_up(digits(drawn as nat, 16), 12);
}

/// Two different numbers give two different keys.
pub proof fn law_drawn_keys_differ(first: u64, second: u64)
    requires
        first != second,
    ensures
        drawn_runner_key(first) != drawn_runner_key(second),
{
    law_drawn_key(first);
    law_drawn_key(second);
    let prefix = "key-"@;
    let one = padded_hex(first as nat);
    let other = padded_hex(second as nat);
    if drawn_runner_key(first) == drawn_runner_key(second) {
        assert((prefix + one).skip(prefix.len() as int) =~= one);
        assert((prefix + other).skip(prefix.len() as int) =~= other);
        lemma_same_number(first as nat, second as nat, one);
    }
}

proof fn lemma_zeros_in_front(count: nat, text: Seq<char>)
    ensures
        super::writing::value_read(zeros(count) + text, 16) == super::writing::value_read(text, 16),
    decreases count + text.len(),
{
    let whole = zeros(count) + text;
    if text.len() > 0 {
        lemma_zeros_in_front(count, text.drop_last());
        assert(whole.drop_last() =~= zeros(count) + text.drop_last());
        assert(whole.last() == text.last());
    } else if count > 0 {
        lemma_zeros_in_front((count - 1) as nat, text);
        assert(whole.drop_last() =~= zeros((count - 1) as nat) + text);
        assert(whole.last() == '0');
        assert(0 * 16 == 0);
    } else {
        assert(whole =~= text);
    }
}

proof fn lemma_same_number(first: nat, second: nat, padded: Seq<char>)
    requires
        padded == padded_hex(first),
        padded == padded_hex(second),
    ensures
        first == second,
{
    law_written_number_can_be_read(first, 16);
    law_written_number_can_be_read(second, 16);
    let one = digits(first, 16);
    let other = digits(second, 16);
    if one.len() < 12 {
        lemma_zeros_in_front((12 - one.len()) as nat, one);
    }
    if other.len() < 12 {
        lemma_zeros_in_front((12 - other.len()) as nat, other);
    }
}

spec fn padded_hex(number: nat) -> Seq<char> {
    let hex = digits(number, 16);
    if hex.len() < 12 {
        zeros((12 - hex.len()) as nat) + hex
    } else {
        hex
    }
}

/// The address to connect to is made from the endpoint that is set for it, or else from that of the
/// engine. Its scheme becomes that of WebSockets, slashes at its end go, and the version of the
/// protocol, the namespace and the key of the runner follow.
pub proof fn law_address_to_connect_to(config: RunnerConfigView, protocol_version: u16)
    ensures
        ({
            let given = if config.pegboard_endpoint is Some {
                config.pegboard_endpoint->0
            } else {
                config.endpoint
            };
            let plain = replaced(given, "http://"@, "ws://"@);
            let base = trimmed_end(replaced(plain, "https://"@, "wss://"@), '/');
            ws_url(config, protocol_version) == base + "/runners/connect?protocol_version="@ + decimal(
                protocol_version as nat,
            ) + "&namespace="@ + percent_encoded(encode_utf8(config.namespace)) + "&runner_key="@ + percent_encoded(
                encode_utf8(config.runner_key),
            )
        }),
{
}

/// A host that holds no scheme itself and does not end in a slash.
pub open spec fn is_plain_host(host: Seq<char>) -> bool {
    &&& host.len() > 0
    &&& host.last() != '/'
    &&& forall|i: int| !#[trigger] stands_in(host, "http://"@, i)
    &&& forall|i: int| !#[trigger] stands_in(host, "https://"@, i)
}

proof fn lemma_scheme_is_replaced(scheme: Seq<char>, host: Seq<char>, to: Seq<char>)
    requires
        scheme.len() > 0,
        forall|i: int| !#[trigger] stands_in(host, scheme, i),
    ensures
        replaced(scheme + host, scheme, to) == to + host,
{
    let text = scheme + host;
    assert(text.subrange(0, scheme.len() as int) =~= scheme);
    assert(stands_in(text, scheme, 0));
    law_every_occurrence_is_replaced(text, scheme, to, 0);
    assert(text.skip(scheme.len() as int) =~= host);
    law_every_occurrence_is_replaced(host, scheme, to, 0);
    assert(text.take(0) + to + host =~= to + host);
}

/// Whether what stands in a text from a place on differs from a part within the text.
spec fn differs_from(text: Seq<char>, at: int, part: Seq<char>) -> bool {
    exists|k: int| 0 <= k < part.len() && at + k < text.len() && text[at + k] != #[trigger] part[k]
}

proof fn lemma_part_stays_out(front: Seq<char>, host: Seq<char>, part: Seq<char>)
    requires
        part.len() > 0,
        forall|i: int| !#[trigger] stands_in(host, part, i),
        forall|i: int| 0 <= i < front.len() ==> #[trigger] differs_from(front, i, part),
    ensures
        forall|i: int| !#[trigger] stands_in(front + host, part, i),
{
    let text = front + host;
    assert forall|i: int| !#[trigger] stands_in(text, part, i) by {
        if stands_in(text, part, i) {
            if i >= front.len() {
                assert(text.subrange(i, i + part.len()) =~= host.subrange(
                    i - front.len(),
                    i - front.len() + part.len(),
                ));
                assert(stands_in(host, part, i - front.len()));
            } else {
                assert(differs_from(front, i, part));
                let k = choose|k: int| 0 <= k < part.len() && i + k < front.len() && front[i + k] != #[trigger] part[k];
                assert(text.subrange(i, i + part.len())[k] == text[i + k]);
            }
        }
    }
}

/// An address with the scheme `http` becomes one with the scheme `ws`, and one with the scheme
/// `https` becomes one with the scheme `wss`, on the same host.
pub proof fn law_scheme_of_the_address(config: RunnerConfigView, protocol_version: u16, host: Seq<char>)
    requires
        is_plain_host(host),
    ensures
        ({
            let given = if config.pegboard_endpoint is Some {
                config.pegboard_endpoint->0
            } else {
                config.endpoint
            };
            let behind = "/runners/connect?protocol_version="@ + decimal(protocol_version as nat) + "&namespace="@
                + percent_encoded(encode_utf8(config.namespace)) + "&runner_key="@ + percent_encoded(
                encode_utf8(config.runner_key),
            );
            &&& given == "http://"@ + host ==> ws_url(config, protocol_version) == "ws://"@ + host + behind
            &&& given == "https://"@ + host ==> ws_url(config, protocol_version) == "wss://"@ + host + behind
        }),
{
    reveal_strlit("http://");
    reveal_strlit("https://");
    reveal_strlit("ws://");
    reveal_strlit("wss://");
    let behind = "/runners/connect?protocol_version="@ + decimal(protocol_version as nat) + "&namespace="@
        + percent_encoded(encode_utf8(config.namespace)) + "&runner_key="@ + percent_encoded(
        encode_utf8(config.runner_key),
    );
    let plain = "http://"@;
    let secure = "https://"@;
    // An address with the scheme `http`.
    lemma_scheme_is_replaced(plain, host, "ws://"@);
    let ws = "ws://"@;
    assert forall|i: int| 0 <= i < ws.len() implies #[trigger] differs_from(ws, i, secure) by {
        assert(ws[i + 0] != secure[0]);
    }
    lemma_part_stays_out(ws, host, secure);
    law_every_occurrence_is_replaced(ws + host, secure, "wss://"@, 0);
    law_only_the_end_is_trimmed(ws + host, '/');
    assert((ws + host).last() == host.last());
    assert(trimmed_end(ws + host, '/') =~= ws + host);
    // An address with the scheme `https`.
    assert forall|i: int| 0 <= i < secure.len() implies #[trigger] differs_from(secure, i, plain) by {
        if i == 0 {
            assert(secure[i + 4] != plain[4]);
        } else {
            assert(secure[i + 0] != plain[0]);
        }
    }
    lemma_part_stays_out(secure, host, plain);
    law_every_occurrence_is_replaced(secure + host, plain, "ws://"@, 0);
    lemma_scheme_is_replaced(secure, host, "wss://"@);
    let wss = "wss://"@;
    law_only_the_end_is_trimmed(wss + host, '/');
    assert((wss + host).last() == host.last());
    assert(trimmed_end(wss + host, '/') =~= wss + host);
    law_address_to_connect_to(config, protocol_version);
    let given = if config.pegboard_endpoint is Some {
        config.pegboard_endpoint->0
    } else {
        config.endpoint
    };
    if given == plain + host {
        assert(ws_url(config, protocol_version) =~= ws + host + behind);
    }
    if given == secure + host {
        assert(ws_url(config, protocol_version) =~= wss + host + behind);
    }
}

/// The token is offered whole, as the second of the two subprotocols.
pub proof fn law_token_is_offered(config: RunnerConfigView)
    ensures
        protocol_header(config) == "rivet, rivet_token."@ + config.token,
{
}

/// A builder begins with nothing set.
pub proof fn law_nothing_is_set_at_first()
    ensures
        ({
            let unset = unset_serverless_config();
            let runner = unset_config();
            &&& unset.runner == runner
            &&& unset.max_runners is None
            &&& unset.slots_per_runner is None
            &&& unset.request_lifespan is None
            &&& runner.endpoint is None
            &&& runner.token is None
            &&& runner.namespace is None
            &&& runner.runner_name is None
            &&& runner.runner_key is None
            &&& runner.version is None
            &&& runner.total_slots is None
            &&& runner.pegboard_endpoint is None
            &&& runner.metadata is None
            &&& runner.prepopulate_actor_names.order.len() == 0
            &&& forall|name: Seq<char>| !#[trigger] runner.prepopulate_actor_names.map.dom().contains(name)
        }),
{
}

/// A serverless configuration holds that of its runner, every setting of its own that was given, and
/// the default of every other one. It fails exactly as that of its runner does.
pub proof fn law_serverless_settings(settings: ServerlessConfigBuilderView, drawn: u64)
    ensures
        ({
            let runner = built_config(settings.runner, drawn);
            let built = built_serverless_config(settings, drawn);
            let config = built->Ok_0;
            &&& runner is Err ==> built == Err::<ServerlessConfigView, RunnerErrorView>(runner->Err_0)
            &&& runner is Ok ==> {
                &&& built is Ok
                &&& config.runner == runner->Ok_0
                &&& settings.max_runners is Some ==> config.max_runners == settings.max_runners->0
                &&& settings.max_runners is None ==> config.max_runners == 1000
                &&& settings.slots_per_runner is Some ==> config.slots_per_runner == settings.slots_per_runner->0
                &&& settings.slots_per_runner is None ==> config.slots_per_runner == 1
                &&& settings.request_lifespan is Some ==> config.request_lifespan == settings.request_lifespan->0
                &&& settings.request_lifespan is None ==> config.request_lifespan == 300
            }
        }),
{
}

/// The addresses at which a serverless runner is configured and the datacenters are listed stand
/// under the endpoint without the slashes at its end; the first names the runner and its namespace.
pub proof fn law_serverless_addresses(config: RunnerConfigView)
    ensures
        runner_config_url(config) == trimmed_end(config.endpoint, '/') + "/runner-configs/"@ + percent_encoded(
            encode_utf8(config.runner_name),
        ) + "?namespace="@ + percent_encoded(encode_utf8(config.namespace)),
        datacenters_url(config) == trimmed_end(config.endpoint, '/') + "/datacenters"@,
{
}

} // verus!
