//! A small, typed client for the Home Assistant REST API.
//!
//! The library holds the decisions the client makes: which entity and
//! connection a controller talks to, which service request each operation
//! sends, how a list of state responses answers a state query, when waiting
//! for a state stops, and what an entity report prints. The transport (HTTP
//! through `homeassistant_rs`, timers through `tokio`) runs around it.

mod client;
mod json;
mod service;
mod state;
mod wait;

pub use client::{
    is_domain_of, lemma_domain_of_dotted, lemma_domain_unique, HaClient, HaClientView, HaEntity,
    HaEntityView,
};
pub use json::{
    fields_map, has_key, keys_unique, lemma_fields_map_last_wins, lemma_object_fields_are_members,
    object_fields, set_field, JsonValue,
};
pub use service::{
    awaited_state_of, entity_id_key, entity_payload, is_switch_request, lemma_payload_names_entity,
    lemma_switch_is_plain_service_call, lemma_switch_services, service_name_of, service_payload, ServiceCall, SwitchAction,
    SwitchPhase, SwitchStep,
};
pub use state::{
    friendly_name_of, friendly_name_text, info_lines_of, is_off_state, is_on_state,
    last_updated_of, last_updated_text, lemma_friendly_name_whole, lemma_info_lines_whole,
    lemma_on_off_exclusive, lemma_state_check_is_exact, not_found_text, observed_is,
    state_matches, EntityAttributes, EntityState, HaError, StateContext,
};
pub use wait::{
    lemma_wait_deadline, lemma_wait_reached_iff_observed, lemma_wait_retries_only_in_time, lemma_wait_timeout_is_final,
    wait_step, wait_step_of, WaitStep, POLL_INTERVAL_MS,
};
