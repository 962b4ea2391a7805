use vstd::prelude::*;

verus! {

/// What a client is: the base URL of a Home Assistant instance and a
/// long-lived access token.
pub struct HaClientView {
    pub url: Seq<char>,
    pub token: Seq<char>,
}

/// What an entity controller is: the entity it controls and the connection
/// it uses.
pub struct HaEntityView {
    pub entity_id: Seq<char>,
    pub url: Seq<char>,
    pub token: Seq<char>,
}

/// The client of one Home Assistant instance.
#[derive(Debug, Clone)]
pub struct HaClient {
    ha_url: String,
    ha_token: String,
}

/// The controller of one entity of a Home Assistant instance.
#[derive(Debug, Clone)]
pub struct HaEntity {
    entity_id: String,
    ha_url: String,
    ha_token: String,
}

impl View for HaClient {
    type V = HaClientView;

    closed spec fn view(&self) -> HaClientView {
        HaClientView { url: self.ha_url@, token: self.ha_token@ }
    }
}

impl View for HaEntity {
    type V = HaEntityView;

    closed spec fn view(&self) -> HaEntityView {
        HaEntityView { entity_id: self.entity_id@, url: self.ha_url@, token: self.ha_token@ }
    }
}

/// `domain` is the domain of the entity id `id`: the longest prefix of `id`
/// that holds no `.` (all of `id` when it holds none).
pub open spec fn is_domain_of(domain: Seq<char>, id: Seq<char>) -> bool {
    &&& domain.len() <= id.len()
    &&& domain == id.take(domain.len() as int)
    &&& forall|i: int| 0 <= i < domain.len() ==> domain[i] != '.'
    &&& (domain.len() == id.len() || id[domain.len() as int] == '.')
}

/// An entity id has one domain: two prefixes that both meet
/// `is_domain_of` are the same.
pub proof fn lemma_domain_unique(d1: Seq<char>, d2: Seq<char>, id: Seq<char>)
    requires
        is_domain_of(d1, id),
        is_domain_of(d2, id),
    ensures
        d1 == d2,
{
    if d1.len() < d2.len() {
        assert(d2[d1.len() as int] == id[d1.len() as int]);
    } else if d2.len() < d1.len() {
        assert(d1[d2.len() as int] == id[d2.len() as int]);
    }
}

/// The domain of `domain.rest` is `domain`, when `domain` holds no `.`.
pub proof fn lemma_domain_of_dotted(domain: Seq<char>, rest: Seq<char>)
    requires
        forall|i: int| 0 <= i < domain.len() ==> domain[i] != '.',
    ensures
        is_domain_of(domain, domain + seq!['.'] + rest),
{
    let id = domain + seq!['.'] + rest;
    assert(id.take(domain.len() as int) =~= domain);
    assert(id[domain.len() as int] == '.');
}

impl HaEntity {
    /// The entity id as the string that the controller holds.
    pub closed spec fn entity_id_value(&self) -> String {
        self.entity_id
    }

    /// The entity id that the controller holds is the one its view names.
    pub proof fn lemma_entity_id_value(&self)
        ensures
            self.entity_id_value()@ == self@.entity_id,
    {
    }
}

impl HaClient {
    /// Creates a client for the instance at `ha_url`, authenticated by `ha_token`.
    pub fn new(ha_url: &str, ha_token: &str) -> (client: Self)
        ensures
            client@.url == ha_url@,
            client@.token == ha_token@,
    {
        HaClient { ha_url: ha_url.to_owned(), ha_token: ha_token.to_owned() }
    }

    /// Returns the controller of the entity `entity_id`, on this client's connection.
    pub fn entity(&self, entity_id: &str) -> (entity: HaEntity)
        ensures
            entity@.entity_id == entity_id@,
            entity@.url == self@.url,
            entity@.token == self@.token,
    {
        HaEntity::new(entity_id, self.ha_url.as_str(), self.ha_token.as_str())
    }

    /// The base URL of the instance.
    pub fn ha_url(&self) -> (url: &str)
        ensures
            url@ == self@.url,
    {
        self.ha_url.as_str()
    }

    /// The access token.
    pub fn ha_token(&self) -> (token: &str)
        ensures
            token@ == self@.token,
    {
        self.ha_token.as_str()
    }
}

impl HaEntity {
    /// Creates the controller of `entity_id` on the connection `ha_url`, `ha_token`.
    pub fn new(entity_id: &str, ha_url: &str, ha_token: &str) -> (entity: Self)
        ensures
            entity@.entity_id == entity_id@,
            entity@.url == ha_url@,
            entity@.token == ha_token@,
    {
        HaEntity {
            entity_id: entity_id.to_owned(),
            ha_url: ha_url.to_owned(),
            ha_token: ha_token.to_owned(),
        }
    }

    /// The id of the entity, such as `switch.example`.
    pub fn entity_id(&self) -> (id: &str)
        ensures
            id@ == self@.entity_id,
    {
        self.entity_id.as_str()
    }

    /// A copy of the entity id.
    pub fn entity_id_string(&self) -> (id: String)
        ensures
            id == self.entity_id_value(),
            id@ == self@.entity_id,
    {
        self.entity_id.clone()
    }

    /// The base URL of the instance.
    pub fn ha_url(&self) -> (url: &str)
        ensures
            url@ == self@.url,
    {
        self.ha_url.as_str()
    }

    /// The access token.
    pub fn ha_token(&self) -> (token: &str)
        ensures
            token@ == self@.token,
    {
        self.ha_token.as_str()
    }

    /// The domain of the entity: the part of its id before the first `.`,
    /// so `switch.ce_shi_usb_1` has the domain `switch`.
    pub fn get_domain(&self) -> (domain: String)
        ensures
            is_domain_of(domain@, self@.entity_id),
    {
        let id = self.entity_id.as_str();
        let n = id.unicode_len();
        let mut i: usize = 0;
        while i < n && id.get_char(i) != '.'
            invariant
                n == id@.len(),
                i <= n,
                forall|j: int| 0 <= j < i ==> id@[j] != '.',
            decreases n - i,
        {
            i = i + 1;
        }
        let domain = id.substring_char(0, i).to_owned();
        assert(domain@ == id@.take(i as int));
        domain
    }
}

} // verus!
