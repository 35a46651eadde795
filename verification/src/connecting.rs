//! What a connection to a provider is made of.

use vstd::prelude::*;
use crate::connection::{
    accepted_efforts, acted, all_accepted, authentication_menu, before_models, checked,
    codex_ids, credential_choices, efforts, fresh_flow, has_key, is_provider_name, is_variable,
    keyless, levels_menu, listed, models_menu, polled, provider_menu, review_menu, ConnectNews,
    FlowModel, WorkModel,
};
use crate::picker::action::{
    ActionModel, ConnectEditField, ConnectStep, ConnectionActivation, CredentialModel,
    DefinitionModel, ProviderModel,
};
use crate::picker::models::ListedEntry;
use crate::text::starts;

verus! {

broadcast use vstd::string::group_string_axioms;

/// The flow after a step of the user.
pub open spec fn after(flow: FlowModel, action: ActionModel) -> FlowModel {
    acted(flow, action, None).flow->0
}

/// The flow after a value was typed.
pub open spec fn after_typing(
    flow: FlowModel,
    field: ConnectEditField,
    value: Seq<char>,
) -> FlowModel {
    after(flow, ActionModel::ApplyConnect { field, value })
}

/// A connection is saved as it was entered: the provider that was chosen, the
/// address and the key that were typed, the model that was picked from those
/// that the provider has, and the levels that were left checked.
pub proof fn connections_are_saved_as_entered(
    catalog: Seq<DefinitionModel>,
    from_settings: bool,
    name: Seq<char>,
    url: Seq<char>,
    key: Seq<char>,
    models: Seq<Seq<char>>,
    i: int,
    off: usize,
    activation: ConnectionActivation,
)
    requires
        is_provider_name(name),
        starts(url, "http://"@) || starts(url, "https://"@),
        key.len() > 0,
        0 <= i < models.len(),
        off < 7,
    ensures
        ({
            let start = fresh_flow(catalog, from_settings);
            let named = after_typing(
                after(start, ActionModel::ConnectChooseProvider(ProviderModel::Other)),
                ConnectEditField::ProviderName,
                name,
            );
            let addressed = after_typing(named, ConnectEditField::Endpoint, url);
            let asked = acted(
                addressed,
                ActionModel::ApplyConnect { field: ConnectEditField::Secret, value: key },
                None,
            );
            let found = polled(asked.flow->0, ConnectNews::Discovered(models))->0.flow;
            let picked = after(found, ActionModel::ConnectChooseModel(models[i]));
            let unchecked = after(picked, ActionModel::ConnectToggleReasoning(off));
            let review = after(unchecked, ActionModel::ConnectConfirmReasoning);
            let done = acted(review, ActionModel::ConnectActivation(activation), None);
            let provider = ProviderModel::Compatible(name);
            &&& asked.work == (WorkModel::Discover {
                provider,
                endpoint: url,
                credential: CredentialModel::Literal(key),
            })
            &&& done.closes && done.flow is None
            &&& done.action is Some && done.action->0 is ApplyConnectionPlan
            &&& {
                let plan = done.action->0->ApplyConnectionPlan_0;
                &&& plan.provider == provider && plan.endpoint == Some(url)
                &&& plan.credential == CredentialModel::Literal(key)
                &&& plan.model == name + ":"@ + models[i]
                &&& plan.activation == activation
                &&& plan.efforts == accepted_efforts(all_accepted().update(off as int, false), 7)
            }
        }),
{
    reveal(acted);
    reveal(polled);
    reveal(crate::connection::chosen_provider);
    reveal(crate::connection::edited);
}

/// Whether a level is one of the first ones and is checked.
pub open spec fn is_checked(accepted: Seq<bool>, n: nat, level: Seq<char>) -> bool {
    exists|i: int| 0 <= i < n && accepted[i] && #[trigger] efforts()[i] == level
}

proof fn levels_up_to(accepted: Seq<bool>, n: nat)
    requires
        n <= 7,
        accepted.len() == 7,
    ensures
        forall|i: int|
            0 <= i < n && accepted[i] ==> accepted_efforts(accepted, n).contains(
                #[trigger] efforts()[i],
            ),
        forall|k: int|
            0 <= k < accepted_efforts(accepted, n).len() ==> is_checked(
                accepted,
                n,
                #[trigger] accepted_efforts(accepted, n)[k],
            ),
    decreases n,
{
    if n > 0 {
        levels_up_to(accepted, (n - 1) as nat);
        let before = accepted_efforts(accepted, (n - 1) as nat);
        let now = accepted_efforts(accepted, n);
        assert forall|i: int| 0 <= i < n && accepted[i] implies now.contains(
            #[trigger] efforts()[i],
        ) by {
            if i < n - 1 {
                let k = choose|k: int| 0 <= k < before.len() && before[k] == efforts()[i];
                assert(now[k] == efforts()[i]);
            } else {
                assert(now[now.len() - 1] == efforts()[i]);
            }
        }
        assert forall|k: int| 0 <= k < now.len() implies is_checked(accepted, n, #[trigger] now[k]) by {
            if k < before.len() {
                assert(now[k] == before[k]);
                let i = choose|i: int|
                    0 <= i < n - 1 && accepted[i] && #[trigger] efforts()[i] == before[k];
                assert(efforts()[i] == now[k]);
            } else {
                assert(efforts()[n - 1] == now[k]);
            }
        }
    }
}

/// The levels of a connection are those that are checked, and all of them.
pub proof fn checked_levels_are_saved(accepted: Seq<bool>)
    requires
        accepted.len() == 7,
    ensures
        forall|i: int|
            0 <= i < 7 && accepted[i] ==> accepted_efforts(accepted, 7).contains(
                #[trigger] efforts()[i],
            ),
        forall|k: int|
            0 <= k < accepted_efforts(accepted, 7).len() ==> is_checked(
                accepted,
                7,
                #[trigger] accepted_efforts(accepted, 7)[k],
            ),
{
    levels_up_to(accepted, 7);
}

/// A provider of the catalog is asked for its address, which is proposed as the
/// catalog has it; Codex needs none, but a login where there is no session.
pub proof fn providers_are_asked_for_their_address(
    flow: FlowModel,
    i: int,
    models: Seq<Seq<char>>,
)
    requires
        0 <= i < flow.catalog.len(),
        forall|k: int| 0 <= k < i ==> (#[trigger] flow.catalog[k]).id != flow.catalog[i].id,
        !(flow.catalog[i].id is Other),
    ensures
        ({
            let id = flow.catalog[i].id;
            let action = ActionModel::ConnectChooseProvider(id);
            &&& !(id is Codex) ==> after(flow, action).step == ConnectStep::Endpoint && after(
                flow,
                action,
            ).endpoint == flow.catalog[i].endpoint && after(flow, action).provider == Some(id)
            &&& id is Codex ==> acted(flow, action, None).work == WorkModel::Login
            &&& id is Codex ==> acted(flow, action, Some(models)).work == WorkModel::Nothing
                && acted(flow, action, Some(models)).flow->0.models == models
        }),
{
    reveal(acted);
    reveal(crate::connection::chosen_provider);
    listed_is_first(flow.catalog, i);
}

proof fn listed_is_first(catalog: Seq<DefinitionModel>, i: int)
    requires
        0 <= i < catalog.len(),
        forall|k: int| 0 <= k < i ==> (#[trigger] catalog[k]).id != catalog[i].id,
    ensures
        listed(catalog, catalog[i].id) == Some(catalog[i]),
    decreases catalog.len(),
{
    if i > 0 {
        assert(catalog[0].id != catalog[i].id);
        let rest = catalog.skip(1);
        assert forall|k: int| 0 <= k < i - 1 implies (#[trigger] rest[k]).id != rest[i - 1].id by {
            assert(rest[k] == catalog[k + 1]);
        }
        listed_is_first(rest, i - 1);
    }
}

/// The lists offer what there is, in its order, and choosing a line takes that
/// provider or that model.
pub proof fn lists_offer_what_there_is(
    flow: FlowModel,
    parent: Option<ActionModel>,
    i: int,
    k: int,
)
    requires
        0 <= i < flow.catalog.len(),
        0 <= k < flow.models.len(),
    ensures
        provider_menu(flow.catalog, parent).items.len() == flow.catalog.len(),
        provider_menu(flow.catalog, parent).items[i].action == ActionModel::ConnectChooseProvider(
            flow.catalog[i].id,
        ),
        provider_menu(flow.catalog, parent).items[i].label == flow.catalog[i].label,
        models_menu(flow).items.len() == flow.models.len() + 1,
        models_menu(flow).items[k].action == ActionModel::ConnectChooseModel(flow.models[k]),
        models_menu(flow).items[k].label == flow.models[k],
        review_menu(flow).items.len() == 3,
        review_menu(flow).items[0].action == ActionModel::ConnectActivation(
            ConnectionActivation::Default,
        ),
        review_menu(flow).items[1].action == ActionModel::ConnectActivation(
            ConnectionActivation::Session,
        ),
        review_menu(flow).items[2].action == ActionModel::ConnectActivation(
            ConnectionActivation::ConnectionOnly,
        ),
        forall|n: int|
            0 <= n < 7 ==> (#[trigger] levels_menu(flow, 0).items[n]).action
                == ActionModel::ConnectToggleReasoning(n as usize),
{
    reveal(provider_menu);
    reveal(models_menu);
    reveal(review_menu);
    reveal(levels_menu);
}

/// A key can be kept where there is one, and left out where the provider needs
/// none; it can always be typed or named.
pub proof fn keys_are_kept_or_left_out(flow: FlowModel)
    ensures
        ({
            let items = credential_choices(flow);
            let offers = |action: ActionModel|
                exists|i: int| 0 <= i < items.len() && (#[trigger] items[i]).action == action;
            &&& offers(ActionModel::ConnectCredential(CredentialModel::Keep)) <==> has_key(flow)
            &&& offers(ActionModel::ConnectCredential(CredentialModel::Nothing)) <==> keyless(flow)
            &&& exists|i: int|
                0 <= i < items.len() && #[trigger] items[i].action == (ActionModel::EditConnect {
                    field: ConnectEditField::Secret,
                    initial: ""@,
                    secret: true,
                })
        }),
{
    let items = credential_choices(flow);
    let n = items.len() as int;
    let at: int = if has_key(flow) {
        1
    } else {
        0
    };
    assert(items[at].action is EditConnect);
    assert(items[at + 1].action is EditConnect);
    if has_key(flow) {
        assert(items[0].action == ActionModel::ConnectCredential(CredentialModel::Keep));
    }
    if keyless(flow) {
        assert(items[n - 1].action == ActionModel::ConnectCredential(CredentialModel::Nothing));
    }
}

/// What became of the work in the background: models that were found are
/// offered; where none were found or a login failed, the user can try again,
/// and trying again does the same work. Nothing is left running.
pub proof fn background_work_is_answered(flow: FlowModel, models: Seq<Seq<char>>)
    requires
        flow.job is Some,
        flow.provider is Some,
    ensures
        ({
            let found = polled(flow, ConnectNews::Discovered(models));
            let logged = polled(flow, ConnectNews::LoggedIn(models));
            let failed = polled(flow, ConnectNews::Undiscovered);
            let refused = polled(flow, ConnectNews::LoginFailed);
            &&& models.len() > 0 ==> found is Some && found->0.flow.models == models
                && found->0.flow.step == ConnectStep::Models && found->0.flow.job is None
            &&& models.len() == 0 ==> found is Some && found->0.flow.step == ConnectStep::Recovery
                && found->0.flow.job is None
            &&& logged is Some && logged->0.flow.models == models && logged->0.flow.job is None
            &&& failed is Some && failed->0.flow.step == ConnectStep::Recovery
                && failed->0.flow.job is None
            &&& refused is Some && refused->0.flow.step == ConnectStep::Recovery
                && refused->0.flow.job is None
            &&& polled(flow, ConnectNews::Quiet) is None
            &&& flow.provider == Some(ProviderModel::Codex) ==> acted(
                flow,
                ActionModel::ConnectRetry,
                None,
            ).work == WorkModel::Login
            &&& flow.provider != Some(ProviderModel::Codex) ==> acted(
                flow,
                ActionModel::ConnectRetry,
                None,
            ).work == (WorkModel::Discover {
                provider: flow.provider->0,
                endpoint: flow.endpoint,
                credential: flow.credential,
            })
        }),
{
    reveal(polled);
    reveal(acted);
}

/// A variable of the environment is named without its dollar sign, and nothing
/// else than a name is taken; a name of a provider holds no blank.
pub proof fn names_are_checked(flow: FlowModel, value: Seq<char>)
    requires
        flow.provider is Some,
    ensures
        is_variable(value) && !crate::text::whitespace(value[0]) && !crate::text::whitespace(
            value.last(),
        ) && value[0] != '$' ==> after_typing(flow, ConnectEditField::Environment, value).credential
            == CredentialModel::Environment(value),
        !is_provider_name(value) ==> after_typing(flow, ConnectEditField::ProviderName, value)
            == flow,
        value.len() == 0 ==> after_typing(flow, ConnectEditField::Secret, value) == flow
            && after_typing(flow, ConnectEditField::Model, value) == flow,
        value.len() > 0 ==> after_typing(flow, ConnectEditField::Model, value).model == value,
{
    reveal(acted);
    reveal(crate::connection::edited);
    if is_variable(value) && !crate::text::whitespace(value[0]) && !crate::text::whitespace(
        value.last(),
    ) && value[0] != '$' {
        crate::text::trimmed_text_stays(value);
    }
}

/// Going back shows the step before with what was entered in it.
pub proof fn going_back_keeps_what_was_entered(flow: FlowModel, step: ConnectStep)
    ensures
        after(flow, ActionModel::ConnectBack(step)) == (FlowModel { step, ..flow }),
        step == ConnectStep::Authentication ==> acted(
            flow,
            ActionModel::ConnectBack(step),
            None,
        ).picker == Some(authentication_menu(FlowModel { step, ..flow })),
        step == ConnectStep::Models ==> acted(flow, ActionModel::ConnectBack(step), None).picker
            == Some(models_menu(FlowModel { step, ..flow })),
        step == ConnectStep::Provider ==> acted(flow, ActionModel::ConnectBack(step), None).picker
            == Some(provider_menu(flow.catalog, flow.root_parent)),
        before_models(flow) == ConnectStep::Provider <==> flow.provider == Some(
            ProviderModel::Codex,
        ),
{
    reveal(acted);
}

/// The models of Codex are those that are listed under its prefix, without it.
pub proof fn codex_models_are_listed_without_prefix(
    list: Seq<ListedEntry>,
    id: Seq<char>,
    entry: ListedEntry,
)
    ensures
        entry.id == "openai-codex:"@ + id ==> codex_ids(list.push(entry)) == codex_ids(list).push(
            id,
        ),
        !starts(entry.id, "openai-codex:"@) ==> codex_ids(list.push(entry)) == codex_ids(list),
{
    assert(list.push(entry).drop_last() =~= list);
    let prefix = "openai-codex:"@;
    assert((prefix + id).take(prefix.len() as int) =~= prefix);
    assert((prefix + id).skip(prefix.len() as int) =~= id);
}

} // verus!
