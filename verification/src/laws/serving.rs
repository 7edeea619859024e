//! How a serverless runner is configured and what it says of itself.

use crate::config::RunnerConfigView;
use crate::error::RunnerErrorView;
use crate::external::{begins_object, json_elements, json_member, json_string, last_named};
use crate::names::law_listing_is_complete;
use crate::serverless::{
    after_listing, after_response, datacenter_from, first_datacenter, is_config_body, is_metadata_body, is_object_of, is_success,
    law_config_body_is_read_back, metadata_members, only_member, serverless_members, under, ServerlessConfigView,
    UpsertActionView, UpsertStateView,
};
use crate::text::decimal;
use vstd::prelude::*;

verus! {

/// A response with a status from 200 to 299 ends the configuring, at every stage. A bad request for
/// the first datacenter leads to a listing, and the refusal is kept whole. Every other refusal is the
/// error, with its own status and body.
pub proof fn law_response_to_a_configuration(state: UpsertStateView, code: u16, status: Seq<char>, body: Seq<char>)
    ensures
        200 <= code <= 299 ==> after_response(state, code, status, body) == (state, UpsertActionView::Done),
        code == 400 && state == UpsertStateView::First ==> after_response(state, code, status, body) == (
            UpsertStateView::Refused { status: status, body: body },
            UpsertActionView::List,
        ),
        !(200 <= code <= 299) && !(code == 400 && state == UpsertStateView::First) ==> after_response(
            state,
            code,
            status,
            body,
        ) == (state, UpsertActionView::Fail(RunnerErrorView::UpsertFailed { status: status, body: body })),
{
}

/// A status means success exactly from 200 to 299.
pub proof fn law_successful_status(code: u16)
    ensures
        is_success(code) <==> 200 <= code <= 299,
{
}

/// A listing that gives a datacenter other than the default one leads to asking for that one. Else
/// the refusal that led to the listing is the error, with its own status and body.
pub proof fn law_listing_after_a_refusal(status: Seq<char>, body: Seq<char>, name: Seq<char>)
    ensures
        ({
            let refused = UpsertStateView::Refused { status: status, body: body };
            let failed = UpsertActionView::Fail(RunnerErrorView::UpsertFailed { status: status, body: body });
            &&& name != "default"@ ==> after_listing(refused, Some(name)) == (
                UpsertStateView::Retried,
                UpsertActionView::Put { datacenter_name: name },
            )
            &&& after_listing(refused, Some("default"@)) == (refused, failed)
            &&& after_listing(refused, None) == (refused, failed)
        }),
{
}

/// The first datacenter of a listing is the name of the first element under `datacenters`, whatever
/// stands behind it. There is none exactly where one of these is missing or of another kind.
pub proof fn law_first_datacenter(
    listing: Seq<char>,
    datacenters: Seq<char>,
    elements: Seq<Seq<char>>,
    document: Seq<char>,
    name: Seq<char>,
)
    ensures
        ({
            &&& json_member(listing, "datacenters"@) == Some(datacenters)
            &&& json_elements(datacenters) == Some(elements)
            &&& elements.len() > 0
            &&& json_member(elements[0], "name"@) == Some(document)
            &&& json_string(document) == Some(name)
        }) ==> first_datacenter(listing) == Some(name),
        json_member(listing, "datacenters"@) is None ==> first_datacenter(listing) is None,
        json_member(listing, "datacenters"@) == Some(datacenters) ==> {
            &&& json_elements(datacenters) is None ==> first_datacenter(listing) is None
            &&& json_elements(datacenters) == Some(elements) && elements.len() == 0 ==> first_datacenter(listing) is None
            &&& json_elements(datacenters) == Some(elements) && elements.len() > 0 && json_member(
                elements[0],
                "name"@,
            ) is None ==> first_datacenter(listing) is None
            &&& json_elements(datacenters) == Some(elements) && elements.len() > 0 && json_member(elements[0], "name"@)
                == Some(document) && json_string(document) is None ==> first_datacenter(listing) is None
        },
{
}

/// A listing that was refused gives no datacenter, whatever its body. One with a status from 200 to
/// 299 gives its first datacenter, and is an error where its body is no document.
pub proof fn law_datacenter_of_a_response(code: u16, listing: Seq<char>)
    ensures
        200 <= code <= 299 ==> {
            &&& datacenter_from(code, Some(listing)) == Ok::<Option<Seq<char>>, RunnerErrorView>(
                first_datacenter(listing),
            )
            &&& datacenter_from(code, None) == Err::<Option<Seq<char>>, RunnerErrorView>(
                RunnerErrorView::DatacentersUndecodable,
            )
        },
        !(200 <= code <= 299) ==> {
            &&& datacenter_from(code, Some(listing)) == Ok::<Option<Seq<char>>, RunnerErrorView>(None)
            &&& datacenter_from(code, None) == Ok::<Option<Seq<char>>, RunnerErrorView>(None)
        },
{
}

proof fn lemma_last_named(members: Seq<(Seq<char>, Seq<char>)>, name: Seq<char>, place: int)
    ensures
        0 <= place < members.len() && members[place].0 == name && (forall|i: int|
            place < i < members.len() ==> (#[trigger] members[i]).0 != name) ==> last_named(members, name) == Some(
            members[place].1,
        ),
        (forall|i: int| 0 <= i < members.len() ==> (#[trigger] members[i]).0 != name) ==> last_named(members, name)
            is None,
    decreases members.len(),
{
    if members.len() > 0 {
        let front = members.drop_last();
        assert forall|i: int| 0 <= i < front.len() implies #[trigger] front[i] == members[i] by {}
        assert(members.last() == members[members.len() - 1]);
        lemma_last_named(front, name, place);
    }
}

/// The configuration that is sent is an object that names one datacenter, and under it exactly four
/// settings.
pub proof fn law_config_body_holds_nothing_else(
    text: Seq<char>,
    config: ServerlessConfigView,
    public_url: Seq<char>,
    datacenter_name: Seq<char>,
    name: Seq<char>,
)
    requires
        is_config_body(text, config, public_url, datacenter_name),
    ensures
        ({
            let settings = under(under(under(text, "datacenters"@), datacenter_name), "serverless"@);
            &&& begins_object(text)
            &&& begins_object(under(text, "datacenters"@))
            &&& begins_object(under(under(text, "datacenters"@), datacenter_name))
            &&& begins_object(settings)
            &&& name != "datacenters"@ ==> json_member(text, name) is None
            &&& name != datacenter_name ==> json_member(under(text, "datacenters"@), name) is None
            &&& name != "serverless"@ ==> json_member(
                under(under(text, "datacenters"@), datacenter_name),
                name,
            ) is None
            &&& name != "url"@ && name != "max_runners"@ && name != "slots_per_runner"@ && name != "request_lifespan"@
                ==> json_member(settings, name) is None
            &&& json_string(under(settings, "url"@)) == Some(public_url)
            &&& under(settings, "max_runners"@) == decimal(config.max_runners as nat)
            &&& under(settings, "slots_per_runner"@) == decimal(config.slots_per_runner as nat)
            &&& under(settings, "request_lifespan"@) == decimal(config.request_lifespan as nat)
        }),
{
    law_config_body_is_read_back(text, config, public_url, datacenter_name);
    let (datacenters, datacenter, serverless, url) = choose|
        datacenters: Seq<char>,
        datacenter: Seq<char>,
        serverless: Seq<char>,
        url: Seq<char>,
    |
        {
            &&& #[trigger] is_object_of(text, only_member("datacenters"@, datacenters))
            &&& #[trigger] is_object_of(datacenters, only_member(datacenter_name, datacenter))
            &&& #[trigger] is_object_of(datacenter, only_member("serverless"@, serverless))
            &&& #[trigger] is_object_of(serverless, serverless_members(config, url))
            &&& json_string(url) == Some(public_url)
        };
    lemma_last_named(only_member("datacenters"@, datacenters), "datacenters"@, 0);
    lemma_last_named(only_member(datacenter_name, datacenter), datacenter_name, 0);
    lemma_last_named(only_member("serverless"@, serverless), "serverless"@, 0);
    lemma_last_named(only_member("datacenters"@, datacenters), name, 0);
    lemma_last_named(only_member(datacenter_name, datacenter), name, 0);
    lemma_last_named(only_member("serverless"@, serverless), name, 0);
    lemma_last_named(serverless_members(config, url), name, 0);
    assert(json_member(text, "datacenters"@) == Some(datacenters));
    assert(json_member(datacenters, datacenter_name) == Some(datacenter));
    assert(json_member(datacenter, "serverless"@) == Some(serverless));
    assert(json_member(text, name) == last_named(only_member("datacenters"@, datacenters), name));
    assert(json_member(datacenters, name) == last_named(only_member(datacenter_name, datacenter), name));
    assert(json_member(datacenter, name) == last_named(only_member("serverless"@, serverless), name));
    assert(json_member(serverless, name) == last_named(serverless_members(config, url), name));
}

/// What a serverless runner says of itself is an object and can be read back: the name and version of the runtime,
/// every announced actor name with its metadata and no other, and the version of the runner.
pub proof fn law_metadata_is_read_back(text: Seq<char>, config: RunnerConfigView, name: Seq<char>)
    requires
        is_metadata_body(text, config),
        config.prepopulate_actor_names.valid(),
    ensures
        ({
            let announced = config.prepopulate_actor_names.map;
            let actor_names = under(text, "actorNames"@);
            &&& begins_object(text)
            &&& begins_object(actor_names)
            &&& begins_object(under(text, "runner"@))
            &&& json_string(under(text, "runtime"@)) == Some("rivetkit"@)
            &&& json_string(under(text, "version"@)) == Some("1"@)
            &&& announced.dom().contains(name) ==> json_member(actor_names, name) == Some(announced[name])
            &&& !announced.dom().contains(name) ==> json_member(actor_names, name) is None
            &&& json_member(under(text, "runner"@), "version"@) == Some(decimal(config.version as nat))
            &&& name != "version"@ ==> json_member(under(text, "runner"@), name) is None
            &&& name != "runtime"@ && name != "version"@ && name != "actorNames"@ && name != "runner"@ ==> json_member(
                text,
                name,
            ) is None
        }),
{
    let (runtime, version, actor_names, runner) = choose|
        runtime: Seq<char>,
        version: Seq<char>,
        actor_names: Seq<char>,
        runner: Seq<char>,
    |
        {
            &&& #[trigger] is_object_of(text, metadata_members(runtime, version, actor_names, runner))
            &&& json_string(runtime) == Some("rivetkit"@)
            &&& json_string(version) == Some("1"@)
            &&& is_object_of(actor_names, config.prepopulate_actor_names.listed())
            &&& is_object_of(runner, only_member("version"@, decimal(config.version as nat)))
        };
    let members = metadata_members(runtime, version, actor_names, runner);
    reveal_strlit("runtime");
    reveal_strlit("version");
    reveal_strlit("actorNames");
    reveal_strlit("runner");
    assert("runtime"@.len() == 7 && "version"@.len() == 7 && "actorNames"@.len() == 10 && "runner"@.len() == 6);
    assert("runtime"@[0] == 'r' && "version"@[0] == 'v');
    assert(members[0].0 == "runtime"@ && members[1].0 == "version"@);
    assert(members[2].0 == "actorNames"@ && members[3].0 == "runner"@);
    lemma_last_named(members, "runtime"@, 0);
    lemma_last_named(members, "version"@, 1);
    lemma_last_named(members, "actorNames"@, 2);
    lemma_last_named(members, "runner"@, 3);
    lemma_last_named(members, name, 0);
    assert(json_member(text, "runtime"@) == Some(runtime));
    assert(json_member(text, "version"@) == Some(version));
    assert(json_member(text, "actorNames"@) == Some(actor_names));
    assert(json_member(text, "runner"@) == Some(runner));
    assert(json_member(text, name) == last_named(members, name));
    let names = config.prepopulate_actor_names;
    law_listing_is_complete(names);
    assert(names.map.contains_key(name) <==> names.order.contains(name));
    assert(json_member(actor_names, name) == last_named(names.listed(), name));
    if names.order.contains(name) {
        let place = names.order.index_of(name);
        lemma_last_named(names.listed(), name, place);
    } else {
        assert forall|i: int| 0 <= i < names.listed().len() implies (#[trigger] names.listed()[i]).0 != name by {
            assert(names.order.contains(names.order[i]));
        }
        lemma_last_named(names.listed(), name, 0);
    }
    let only = only_member("version"@, decimal(config.version as nat));
    lemma_last_named(only, "version"@, 0);
    lemma_last_named(only, name, 0);
    assert(json_member(runner, "version"@) == last_named(only, "version"@));
    assert(json_member(runner, name) == last_named(only, name));
}

} // verus!
