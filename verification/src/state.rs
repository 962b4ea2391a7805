use vstd::prelude::*;

use crate::client::HaEntity;
use crate::json::JsonValue;

verus! {

/// The attributes that Home Assistant reports with an entity's state.
#[derive(Debug)]
pub struct EntityAttributes {
    pub friendly_name: Option<String>,
    pub editable: Option<bool>,
    pub id: Option<String>,
    pub source: Option<String>,
    pub user_id: Option<String>,
    pub icon: Option<String>,
    /// Every other attribute, as a JSON object.
    pub other_fields: JsonValue,
}

/// The context of the last change of an entity's state.
#[derive(Debug)]
pub struct StateContext {
    pub id: String,
    pub parent_id: Option<String>,
    pub user_id: Option<String>,
}

/// The full state of an entity, as `/api/states` reports it.
#[derive(Debug)]
pub struct EntityState {
    pub entity_id: Option<String>,
    pub state: String,
    pub attributes: Option<EntityAttributes>,
    pub last_changed: Option<String>,
    pub last_reported: Option<String>,
    pub last_updated: Option<String>,
    pub context: Option<StateContext>,
}

/// The errors of the client's own making.
#[derive(Debug)]
pub enum HaError {
    /// The instance reported no state for the entity with this id.
    EntityNotFound(String),
}

/// The text of the error that no state of the entity `id` was found.
pub open spec fn not_found_text(id: Seq<char>) -> Seq<char> {
    "未找到实体: "@ + id
}

impl HaError {
    /// The message of the error.
    pub fn message(&self) -> (text: String)
        ensures
            match self {
                HaError::EntityNotFound(id) => text@ == not_found_text(id@) && text@ == "未找到实体: "@
                    + id@,
            },
    {
        match self {
            HaError::EntityNotFound(id) => String::from_str("未找到实体: ").concat(id.as_str()),
        }
    }
}

/// The observed state `observed` is `expected`.
pub open spec fn observed_is(observed: Option<String>, expected: Seq<char>) -> bool {
    match observed {
        Some(s) => s@ == expected,
        None => false,
    }
}

/// Whether a state query succeeded with the state `expected`; `None` stands
/// for a failed query.
pub fn state_matches(observed: &Option<String>, expected: &str) -> (matched: bool)
    ensures
        matched == observed_is(*observed, expected@),
        matched <==> (*observed matches Some(s) && s@ == expected@),
{
    match observed {
        Some(s) => *s == String::from_str(expected),
        None => false,
    }
}

/// A state check is exact equality of the whole state text: no prefix,
/// suffix or other near match counts.
pub proof fn lemma_state_check_is_exact(observed: Option<String>, expected: Seq<char>)
    ensures
        observed_is(observed, expected) <==> (observed matches Some(s) && s@ == expected),
        observed_is(observed, expected) ==> observed->0@.len() == expected.len(),
{
}

/// No query result counts as both `on` and `off`.
pub proof fn lemma_on_off_exclusive(observed: Option<String>)
    ensures
        !(observed_is(observed, "on"@) && observed_is(observed, "off"@)),
{
    lemma_state_check_is_exact(observed, "on"@);
    lemma_state_check_is_exact(observed, "off"@);
    reveal_strlit("on");
    reveal_strlit("off");
    assert("on"@.len() != "off"@.len());
}

/// Whether a state query succeeded with the state `on`.
pub fn is_on_state(observed: &Option<String>) -> (on: bool)
    ensures
        on == observed_is(*observed, "on"@),
        on <==> (*observed matches Some(s) && s@ == "on"@),
{
    state_matches(observed, "on")
}

/// Whether a state query succeeded with the state `off`.
pub fn is_off_state(observed: &Option<String>) -> (off: bool)
    ensures
        off == observed_is(*observed, "off"@),
        off <==> (*observed matches Some(s) && s@ == "off"@),
{
    state_matches(observed, "off")
}

/// The friendly name of the entity, where its attributes carry one.
pub open spec fn friendly_name_of(state: EntityState) -> Option<Seq<char>> {
    match state.attributes {
        Some(attributes) => match attributes.friendly_name {
            Some(name) => Some(name@),
            None => None,
        },
        None => None,
    }
}

/// The friendly name of the entity, or `N/A` where its attributes carry none.
pub fn friendly_name_text(state: &EntityState) -> (name: String)
    ensures
        name@ == match friendly_name_of(*state) {
            Some(n) => n,
            None => "N/A"@,
        },
        (state.attributes is Some && state.attributes->0.friendly_name is Some) ==> name@
            == state.attributes->0.friendly_name->0@,
        !(state.attributes is Some && state.attributes->0.friendly_name is Some) ==> name@ == "N/A"@,
{
    match &state.attributes {
        Some(attributes) => match &attributes.friendly_name {
            Some(name) => name.clone(),
            None => String::from_str("N/A"),
        },
        None => String::from_str("N/A"),
    }
}

/// The time of the last update of the entity, or `None` where the state
/// carries none.
pub open spec fn last_updated_of(state: EntityState) -> Seq<char> {
    match state.last_updated {
        Some(t) => t@,
        None => "None"@,
    }
}

/// The time of the last update of the entity, or `None` where the state
/// carries none.
pub fn last_updated_text(state: &EntityState) -> (text: String)
    ensures
        text@ == last_updated_of(*state),
        state.last_updated matches Some(t) ==> text@ == t@,
        state.last_updated is None ==> text@ == "None"@,
{
    match &state.last_updated {
        Some(t) => t.clone(),
        None => String::from_str("None"),
    }
}

/// The lines that report the state `state` of `entity`.
pub open spec fn info_lines_of(entity_id: Seq<char>, state: EntityState) -> Seq<Seq<char>> {
    seq![
        "实体信息:"@,
        "  ID: "@ + entity_id,
        "  友好名称: "@ + match friendly_name_of(state) {
            Some(n) => n,
            None => "N/A"@,
        },
        "  状态: "@ + state.state@,
        "  最后更新: "@ + last_updated_of(state),
    ]
}

/// The report shows each part whole: the entity's id, its friendly name
/// as the attributes carry it (`N/A` without one), the state text, and the
/// update time as the state carries it (`None` without one), each after its
/// label.
pub proof fn lemma_info_lines_whole(entity_id: Seq<char>, state: EntityState)
    ensures
        info_lines_of(entity_id, state).len() == 5,
        info_lines_of(entity_id, state)[1] == "  ID: "@ + entity_id,
        (state.attributes is Some && state.attributes->0.friendly_name is Some) ==> info_lines_of(
            entity_id,
            state,
        )[2] == "  友好名称: "@ + state.attributes->0.friendly_name->0@,
        !(state.attributes is Some && state.attributes->0.friendly_name is Some)
            ==> info_lines_of(entity_id, state)[2] == "  友好名称: "@ + "N/A"@,
        info_lines_of(entity_id, state)[3] == "  状态: "@ + state.state@,
        state.last_updated matches Some(t) ==> info_lines_of(entity_id, state)[4]
            == "  最后更新: "@ + t@,
        state.last_updated is None ==> info_lines_of(entity_id, state)[4] == "  最后更新: "@
            + "None"@,
{
}

/// A friendly name that the attributes carry is reported whole.
pub proof fn lemma_friendly_name_whole(state: EntityState)
    ensures
        (state.attributes is Some && state.attributes->0.friendly_name is Some) ==> friendly_name_of(state) == Some(
            state.attributes->0.friendly_name->0@,
        ),
        !(state.attributes is Some && state.attributes->0.friendly_name is Some) ==> friendly_name_of(state)
            is None,
{
}

impl HaEntity {
    /// Answers a state query from the responses it got: the state of the
    /// first response, or `EntityNotFound` with this entity's id when there
    /// is none.
    pub fn state_from_responses(&self, states: Vec<EntityState>) -> (res: Result<String, HaError>)
        ensures
            states@.len() > 0 ==> res == Ok::<String, HaError>(states@[0].state),
            states@.len() == 0 ==> (res matches Err(HaError::EntityNotFound(id)) && id@
                == self@.entity_id),
    {
        match self.full_state_from_responses(states) {
            Ok(first) => Ok(first.state),
            Err(e) => Err(e),
        }
    }

    /// Answers a full state query from the responses it got: the first
    /// response, or `EntityNotFound` with this entity's id when there is none.
    pub fn full_state_from_responses(&self, states: Vec<EntityState>) -> (res: Result<
        EntityState,
        HaError,
    >)
        ensures
            states@.len() > 0 ==> res == Ok::<EntityState, HaError>(states@[0]),
            states@.len() == 0 ==> (res matches Err(HaError::EntityNotFound(id)) && id@
                == self@.entity_id),
    {
        let mut states = states;
        if states.len() == 0 {
            Err(HaError::EntityNotFound(self.entity_id_string()))
        } else {
            Ok(states.remove(0))
        }
    }

    /// The lines that report the state `state` of this entity: its id, its
    /// friendly name (or `N/A`), its state and the time of its last update
    /// (or `None`).
    pub fn info_lines(&self, state: &EntityState) -> (lines: Vec<String>)
        ensures
            lines@.len() == 5,
            forall|i: int| 0 <= i < 5 ==> #[trigger] lines@[i]@ == info_lines_of(
                self@.entity_id,
                *state,
            )[i],
            lines@[0]@ == "实体信息:"@,
            lines@[1]@ == "  ID: "@ + self@.entity_id,
            (state.attributes is Some && state.attributes->0.friendly_name is Some) ==> lines@[2]@
                == "  友好名称: "@ + state.attributes->0.friendly_name->0@,
            !(state.attributes is Some && state.attributes->0.friendly_name is Some) ==> lines@[2]@
                == "  友好名称: "@ + "N/A"@,
            lines@[3]@ == "  状态: "@ + state.state@,
            state.last_updated matches Some(t) ==> lines@[4]@ == "  最后更新: "@ + t@,
            state.last_updated is None ==> lines@[4]@ == "  最后更新: "@ + "None"@,
    {
        let mut lines: Vec<String> = Vec::new();
        lines.push(String::from_str("实体信息:"));
        lines.push(String::from_str("  ID: ").concat(self.entity_id()));
        let name = friendly_name_text(state);
        lines.push(String::from_str("  友好名称: ").concat(name.as_str()));
        lines.push(String::from_str("  状态: ").concat(state.state.as_str()));
        let updated = last_updated_text(state);
        lines.push(String::from_str("  最后更新: ").concat(updated.as_str()));
        lines
    }
}

} // verus!
