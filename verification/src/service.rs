use vstd::prelude::*;

use crate::client::{is_domain_of, HaEntity};
use crate::json::{fields_map, keys_unique, object_fields, set_field, JsonValue};

verus! {

/// The key under which a service request names its target entity.
pub open spec fn entity_id_key() -> Seq<char> {
    "entity_id"@
}

/// A switching operation on an entity.
#[derive(Debug, Clone, Copy, PartialEq, Eq)]
pub enum SwitchAction {
    TurnOn,
    TurnOff,
    Toggle,
}

/// The name of the service that carries out `action`.
pub open spec fn service_name_of(action: SwitchAction) -> Seq<char> {
    match action {
        SwitchAction::TurnOn => "turn_on"@,
        SwitchAction::TurnOff => "turn_off"@,
        SwitchAction::Toggle => "toggle"@,
    }
}

/// The state that confirms `action`, where one does.
pub open spec fn awaited_state_of(action: SwitchAction) -> Option<Seq<char>> {
    match action {
        SwitchAction::TurnOn => Some("on"@),
        SwitchAction::TurnOff => Some("off"@),
        SwitchAction::Toggle => None,
    }
}

impl SwitchAction {
    /// The name of the service that carries out this action.
    pub fn service_name(&self) -> (name: String)
        ensures
            name@ == service_name_of(*self),
            *self == SwitchAction::TurnOn ==> name@ == "turn_on"@,
            *self == SwitchAction::TurnOff ==> name@ == "turn_off"@,
            *self == SwitchAction::Toggle ==> name@ == "toggle"@,
    {
        match self {
            SwitchAction::TurnOn => String::from_str("turn_on"),
            SwitchAction::TurnOff => String::from_str("turn_off"),
            SwitchAction::Toggle => String::from_str("toggle"),
        }
    }

    /// The state that the entity reports once this action took effect, where
    /// the action names one.
    pub fn awaited_state(&self) -> (state: Option<String>)
        ensures
            state is Some <==> awaited_state_of(*self) is Some,
            state matches Some(s) ==> awaited_state_of(*self) == Some(s@),
            *self == SwitchAction::TurnOn ==> (state matches Some(s) && s@ == "on"@),
            *self == SwitchAction::TurnOff ==> (state matches Some(s) && s@ == "off"@),
            *self == SwitchAction::Toggle ==> state is None,
    {
        match self {
            SwitchAction::TurnOn => Some(String::from_str("on")),
            SwitchAction::TurnOff => Some(String::from_str("off")),
            SwitchAction::Toggle => None,
        }
    }
}

/// Switching on calls `turn_on` and is confirmed by `on`; switching off
/// calls `turn_off` and is confirmed by `off`; toggling calls `toggle` and
/// awaits nothing.
pub proof fn lemma_switch_services()
    ensures
        service_name_of(SwitchAction::TurnOn) == "turn_on"@,
        service_name_of(SwitchAction::TurnOff) == "turn_off"@,
        service_name_of(SwitchAction::Toggle) == "toggle"@,
        awaited_state_of(SwitchAction::TurnOn) == Some("on"@),
        awaited_state_of(SwitchAction::TurnOff) == Some("off"@),
        awaited_state_of(SwitchAction::Toggle) is None,
{
}

/// A call of the service `domain`.`service` of a Home Assistant instance,
/// with the fields of its JSON body.
#[derive(Debug)]
pub struct ServiceCall {
    pub ha_url: String,
    pub ha_token: String,
    pub domain: String,
    pub service: String,
    pub payload: Vec<(String, JsonValue)>,
    pub return_response: bool,
}

/// The body of every request about `entity`: its id under `entity_id`.
pub open spec fn entity_payload(entity: HaEntity) -> Map<Seq<char>, JsonValue> {
    map![entity_id_key() => JsonValue::Str(entity.entity_id_value())]
}

/// The body of a service call about `entity` with the extra data `data`:
/// the entity's id, then each member of `data` when it is an object, in
/// order, a member replacing what came before under its key.
pub open spec fn service_payload(entity: HaEntity, data: JsonValue) -> Map<Seq<char>, JsonValue> {
    entity_payload(entity).union_prefer_right(fields_map(object_fields(data)))
}

/// `call` carries out `action` on `entity`: on the entity's connection, the
/// service of that name in the entity's own domain, with the entity's id as
/// the whole body.
pub open spec fn is_switch_request(entity: HaEntity, action: SwitchAction, call: ServiceCall) -> bool {
    &&& call.ha_url@ == entity@.url
    &&& call.ha_token@ == entity@.token
    &&& is_domain_of(call.domain@, entity@.entity_id)
    &&& call.service@ == service_name_of(action)
    &&& keys_unique(call.payload@)
    &&& fields_map(call.payload@) == entity_payload(entity)
    &&& !call.return_response
}

/// How far an operation that switches an entity and waits for the outcome
/// has come.
#[derive(Debug, Clone, Copy, PartialEq, Eq)]
pub enum SwitchPhase {
    /// Nothing done yet.
    Start,
    /// The switching request was sent and answered.
    Sent,
    /// The wait for the awaited state ended, with either outcome.
    Waited,
}

/// The next move of an operation that switches an entity and waits.
#[derive(Debug)]
pub enum SwitchStep {
    /// Send this request.
    Send(ServiceCall),
    /// Wait for the entity to report this state.
    WaitFor(String),
    /// The operation is over and succeeded.
    Finish,
}

/// Fills `fields` with the entity's id under `entity_id`.
fn entity_fields(entity: &HaEntity) -> (fields: Vec<(String, JsonValue)>)
    ensures
        keys_unique(fields@),
        fields_map(fields@) == entity_payload(*entity),
{
    let mut fields: Vec<(String, JsonValue)> = Vec::new();
    let key = String::from_str("entity_id");
    let id = entity.entity_id_string();
    let item = (key, JsonValue::Str(id));
    let ghost g = item;
    fields.push(item);
    proof {
        assert(fields@.drop_last() =~= Seq::<(String, JsonValue)>::empty());
        assert(fields@.last() == g);
        assert(g.0@ == entity_id_key());
        assert(fields_map(Seq::<(String, JsonValue)>::empty()) == Map::<Seq<char>, JsonValue>::empty());
        assert(fields_map(fields@) == fields_map(fields@.drop_last()).insert(g.0@, g.1));
        assert(fields_map(fields@) =~= entity_payload(*entity));
    }
    fields
}

impl HaEntity {
    /// The request that carries out `action` on this entity: the service of
    /// that name in the entity's own domain, with the entity's id as body.
    pub fn switch_request(&self, action: SwitchAction) -> (call: ServiceCall)
        ensures
            is_switch_request(*self, action, call),
    {
        ServiceCall {
            ha_url: self.ha_url().to_owned(),
            ha_token: self.ha_token().to_owned(),
            domain: self.get_domain(),
            service: action.service_name(),
            payload: entity_fields(self),
            return_response: false,
        }
    }

    /// The next move of switching this entity by `action` and waiting for
    /// the outcome: first send the switching request; once it is answered,
    /// wait for the state that confirms the action, if the action names one;
    /// then finish with success, whether or not the wait saw that state.
    pub fn switch_and_wait_step(&self, action: SwitchAction, phase: SwitchPhase) -> (step:
        SwitchStep)
        ensures
            phase == SwitchPhase::Start ==> (step matches SwitchStep::Send(call)
                && is_switch_request(*self, action, call)),
            phase == SwitchPhase::Sent && awaited_state_of(action) is Some ==> (step matches
                SwitchStep::WaitFor(state) && awaited_state_of(action) == Some(state@)),
            phase == SwitchPhase::Sent && awaited_state_of(action) is None ==> step is Finish,
            phase == SwitchPhase::Waited ==> step is Finish,
    {
        match phase {
            SwitchPhase::Start => SwitchStep::Send(self.switch_request(action)),
            SwitchPhase::Sent => match action.awaited_state() {
                Some(state) => SwitchStep::WaitFor(state),
                None => SwitchStep::Finish,
            },
            SwitchPhase::Waited => SwitchStep::Finish,
        }
    }

    /// The request that calls `domain`.`service` for this entity, with the
    /// members of `data` (when it is an object) added to the body beside
    /// the entity's id, which a member of the same key replaces.
    pub fn service_request(&self, domain: &str, service: &str, data: JsonValue) -> (call:
        ServiceCall)
        ensures
            call.ha_url@ == self@.url,
            call.ha_token@ == self@.token,
            call.domain@ == domain@,
            call.service@ == service@,
            keys_unique(call.payload@),
            fields_map(call.payload@) == service_payload(*self, data),
            data is Object ==> fields_map(call.payload@) == entity_payload(*self).union_prefer_right(
                fields_map(data->Object_0@),
            ),
            !(data is Object) ==> fields_map(call.payload@) == entity_payload(*self),
            !call.return_response,
    {
        let ghost data_value = data;
        let mut payload = entity_fields(self);
        let mut extra: Vec<(String, JsonValue)> = match data {
            JsonValue::Object(fields) => fields,
            _ => Vec::new(),
        };
        let ghost all = extra@;
        assert(all == object_fields(data_value));
        let n = extra.len();
        let mut i: usize = 0;
        assert(all.take(0) =~= Seq::<(String, JsonValue)>::empty());
        assert(entity_payload(*self).union_prefer_right(fields_map(all.take(0)))
            =~= entity_payload(*self));
        while i < n
            invariant
                n == all.len(),
                i <= n,
                extra@ == all.skip(i as int),
                keys_unique(payload@),
                fields_map(payload@) == entity_payload(*self).union_prefer_right(
                    fields_map(all.take(i as int)),
                ),
            decreases n - i,
        {
            let (key, value) = extra.remove(0);
            assert(all[i as int] == (key, value)) by {
                assert(all.skip(i as int)[0] == all[i as int]);
            }
            let ghost before = fields_map(payload@);
            set_field(&mut payload, key, value);
            proof {
                assert(all.take(i + 1).drop_last() =~= all.take(i as int));
                assert(all.take(i + 1).last() == all[i as int]);
                assert(fields_map(payload@) =~= entity_payload(*self).union_prefer_right(
                    fields_map(all.take(i + 1)),
                ));
                assert(extra@ =~= all.skip(i + 1));
            }
            i = i + 1;
        }
        assert(all.take(n as int) =~= all);
        ServiceCall {
            ha_url: self.ha_url().to_owned(),
            ha_token: self.ha_token().to_owned(),
            domain: domain.to_owned(),
            service: service.to_owned(),
            payload,
            return_response: false,
        }
    }
}

/// Switching an entity is calling the switching service of its own domain
/// with no extra data: when `data` holds no members, the body of
/// `service_request` is the body of `switch_request`.
pub proof fn lemma_switch_is_plain_service_call(entity: HaEntity, data: JsonValue)
    requires
        object_fields(data).len() == 0,
    ensures
        service_payload(entity, data) == entity_payload(entity),
{
    assert(fields_map(object_fields(data)) =~= Map::<Seq<char>, JsonValue>::empty());
    assert(service_payload(entity, data) =~= entity_payload(entity));
}

} // verus!

verus! {

/// Every service request names its entity: the body always has the key
/// `entity_id`, and unless the extra data sets that key itself, it holds
/// the entity's id.
pub proof fn lemma_payload_names_entity(entity: HaEntity, data: JsonValue)
    ensures
        entity_id_key() == "entity_id"@,
        entity_payload(entity).dom() == set![entity_id_key()],
        entity_payload(entity)[entity_id_key()] matches JsonValue::Str(id) && id@ == entity@.entity_id,
        service_payload(entity, data).contains_key(entity_id_key()),
        !fields_map(object_fields(data)).contains_key(entity_id_key()) ==> service_payload(
            entity,
            data,
        )[entity_id_key()] == JsonValue::Str(entity.entity_id_value()),
        fields_map(object_fields(data)).contains_key(entity_id_key()) ==> service_payload(
            entity,
            data,
        )[entity_id_key()] == fields_map(object_fields(data))[entity_id_key()],
{
    entity.lemma_entity_id_value();
    assert(entity_payload(entity).dom() =~= set![entity_id_key()]);
}

} // verus!
