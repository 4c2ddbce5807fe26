use vstd::prelude::*;
use vstd::string::*;
use crate::error::{EsiError, EsiErrorView};
use crate::esi::processor::{job_views, Job, JobView};
use crate::esi::EsiClient;
use crate::http::{document_of, read_document, HttpReply};
use crate::json;
use crate::json::{json_view, json_views, read_array, read_integer, read_text, Json};
use crate::models::{
    Entity, EntityKind, EntityView, Killmail, KillmailStatus, KillmailView, SENTINEL_ID,
};

verus! {

/// What a killmail says of one side of a fight, victim or attacker: the
/// identifiers it gives, each of which may be missing.
#[derive(Clone, Copy, Debug, PartialEq, Eq, Structural)]
pub struct Participant {
    pub character_id: Option<i64>,
    pub corporation_id: Option<i64>,
    pub alliance_id: Option<i64>,
    pub weapon_type_id: Option<i64>,
    pub ship_type_id: Option<i64>,
}

/// The part of a killmail detail document that entity extraction reads.
#[derive(Debug, PartialEq, Eq)]
pub struct KillmailDetail {
    pub solar_system_id: Option<i64>,
    pub victim: Option<Participant>,
    pub attackers: Vec<Participant>,
}

pub struct KillmailDetailView {
    pub solar_system_id: Option<i64>,
    pub victim: Option<Participant>,
    pub attackers: Seq<Participant>,
}

impl View for KillmailDetail {
    type V = KillmailDetailView;

    open spec fn view(&self) -> KillmailDetailView {
        KillmailDetailView {
            solar_system_id: self.solar_system_id,
            victim: self.victim,
            attackers: self.attackers@,
        }
    }
}

/// The participant that a JSON value describes. A value that is no object
/// describes the participant of whom nothing is known.
pub open spec fn participant_of(value: Json) -> Participant {
    Participant {
        character_id: value.integer("character_id"@),
        corporation_id: value.integer("corporation_id"@),
        alliance_id: value.integer("alliance_id"@),
        weapon_type_id: value.integer("weapon_type_id"@),
        ship_type_id: value.integer("ship_type_id"@),
    }
}

/// The attackers that a document lists: the elements of its `attackers`
/// member where that is an array, none otherwise.
pub open spec fn attackers_of(doc: Json) -> Seq<Participant> {
    match doc.array("attackers"@) {
        Some(items) => items.map_values(|item: Json| participant_of(item)),
        None => Seq::empty(),
    }
}

/// What a killmail detail document says, as far as extraction reads it.
pub open spec fn killmail_of(doc: Json) -> KillmailDetailView {
    KillmailDetailView {
        solar_system_id: doc.integer("solar_system_id"@),
        victim: match doc.member("victim"@) {
            Some(v) => Some(participant_of(v)),
            None => None,
        },
        attackers: attackers_of(doc),
    }
}

/// No entity for a missing identifier, one unnamed entity for a present one.
pub open spec fn reference(id: Option<i64>, kind: EntityKind) -> Seq<EntityView> {
    match id {
        Some(i) => seq![Entity::unnamed(i as int, kind)],
        None => Seq::empty(),
    }
}

/// The entities of a victim, in the order character, corporation, alliance,
/// weapon type, ship type.
pub open spec fn victim_entities(p: Participant) -> Seq<EntityView> {
    reference(p.character_id, EntityKind::Character)
        + reference(p.corporation_id, EntityKind::Corporation)
        + reference(p.alliance_id, EntityKind::Alliance)
        + reference(p.weapon_type_id, EntityKind::WeaponType)
        + reference(p.ship_type_id, EntityKind::ShipType)
}

/// The entities of one attacker, in the order character, corporation,
/// alliance, ship type. An attacker's weapon is not referenced.
pub open spec fn attacker_entities(p: Participant) -> Seq<EntityView> {
    reference(p.character_id, EntityKind::Character)
        + reference(p.corporation_id, EntityKind::Corporation)
        + reference(p.alliance_id, EntityKind::Alliance)
        + reference(p.ship_type_id, EntityKind::ShipType)
}

/// The entities of a list of attackers, attacker by attacker in list order.
pub open spec fn attackers_entities(attackers: Seq<Participant>) -> Seq<EntityView>
    decreases attackers.len(),
{
    if attackers.len() == 0 {
        Seq::empty()
    } else {
        attackers_entities(attackers.drop_last()) + attacker_entities(attackers.last())
    }
}

/// The solar system of a killmail; the sentinel identifier stands in where
/// the document names none.
pub open spec fn system_entity(solar_system_id: Option<i64>) -> EntityView {
    match solar_system_id {
        Some(i) => Entity::unnamed(i as int, EntityKind::SolarSystem),
        None => Entity::unnamed(SENTINEL_ID as int, EntityKind::SolarSystem),
    }
}

/// Every entity candidate of a killmail: the solar system first, then the
/// victim's, then the attackers'. Nothing is removed, neither repetitions nor
/// the sentinel.
pub open spec fn killmail_entities(detail: KillmailDetailView) -> Seq<EntityView> {
    seq![system_entity(detail.solar_system_id)]
        + (match detail.victim {
            Some(v) => victim_entities(v),
            None => Seq::empty(),
        })
        + attackers_entities(detail.attackers)
}

/// The views of a list of entities.
pub open spec fn entity_views(entities: Seq<Entity>) -> Seq<EntityView> {
    entities.map_values(|e: Entity| e@)
}

impl Participant {
    /// Reads a participant out of a JSON value.
    pub fn read(value: &serde_json::Value) -> (r: Participant)
        ensures
            r == participant_of(json_view(*value)),
    {
        Participant {
            character_id: read_integer(value, "character_id"),
            corporation_id: read_integer(value, "corporation_id"),
            alliance_id: read_integer(value, "alliance_id"),
            weapon_type_id: read_integer(value, "weapon_type_id"),
            ship_type_id: read_integer(value, "ship_type_id"),
        }
    }
}

/// Appends the reference for `id`, if there is one.
fn push_reference(out: &mut Vec<Entity>, id: Option<i64>, kind: EntityKind)
    ensures
        entity_views(final(out)@) == entity_views(old(out)@) + reference(id, kind),
{
    match id {
        Some(i) => {
            out.push(Entity::new(i, kind));
            assert(entity_views(out@) =~= entity_views(old(out)@) + reference(id, kind));
        },
        None => {
            assert(entity_views(out@) =~= entity_views(old(out)@) + reference(id, kind));
        },
    }
}

/// Appends the references of a victim.
fn push_victim(out: &mut Vec<Entity>, victim: Participant)
    ensures
        entity_views(final(out)@) == entity_views(old(out)@) + victim_entities(victim),
{
    let ghost before = entity_views(out@);
    push_reference(out, victim.character_id, EntityKind::Character);
    push_reference(out, victim.corporation_id, EntityKind::Corporation);
    push_reference(out, victim.alliance_id, EntityKind::Alliance);
    push_reference(out, victim.weapon_type_id, EntityKind::WeaponType);
    push_reference(out, victim.ship_type_id, EntityKind::ShipType);
    assert(entity_views(out@) =~= before + victim_entities(victim));
}

/// Appends the references of one attacker.
fn push_attacker(out: &mut Vec<Entity>, attacker: Participant)
    ensures
        entity_views(final(out)@) == entity_views(old(out)@) + attacker_entities(attacker),
{
    let ghost before = entity_views(out@);
    push_reference(out, attacker.character_id, EntityKind::Character);
    push_reference(out, attacker.corporation_id, EntityKind::Corporation);
    push_reference(out, attacker.alliance_id, EntityKind::Alliance);
    push_reference(out, attacker.ship_type_id, EntityKind::ShipType);
    assert(entity_views(out@) =~= before + attacker_entities(attacker));
}

impl KillmailDetail {
    /// Reads out of a killmail detail document what extraction needs. Every
    /// field may be missing or of another type: it is then read as absent.
    pub fn read(doc: &serde_json::Value) -> (r: KillmailDetail)
        ensures
            r@ == killmail_of(json_view(*doc)),
    {
        let solar_system_id = read_integer(doc, "solar_system_id");
        let victim = match json::member(doc, "victim") {
            Some(v) => Some(Participant::read(v)),
            None => None,
        };
        let mut attackers: Vec<Participant> = Vec::new();
        if let Some(items) = read_array(doc, "attackers") {
            let mut i: usize = 0;
            while i < items.len()
                invariant
                    i <= items.len(),
                    attackers@ == json_views(items@).take(i as int).map_values(
                        |item: Json| participant_of(item),
                    ),
                decreases items.len() - i,
            {
                attackers.push(Participant::read(&items[i]));
                i += 1;
                assert(attackers@ =~= json_views(items@).take(i as int).map_values(
                    |item: Json| participant_of(item),
                ));
            }
            assert(json_views(items@).take(i as int) =~= json_views(items@));
        }
        KillmailDetail { solar_system_id, victim, attackers }
    }

    /// Extracts the entity candidates of a killmail, in order: the solar
    /// system, the victim's references, then each attacker's.
    pub fn entities(&self) -> (r: Vec<Entity>)
        ensures
            entity_views(r@) == killmail_entities(self@),
    {
        let mut out: Vec<Entity> = Vec::new();
        let system = match self.solar_system_id {
            Some(i) => Entity::new(i, EntityKind::SolarSystem),
            None => Entity::new(SENTINEL_ID, EntityKind::SolarSystem),
        };
        out.push(system);
        assert(entity_views(out@) =~= seq![system_entity(self.solar_system_id)]);
        match self.victim {
            Some(v) => {
                push_victim(&mut out, v);
            },
            None => {
                assert(entity_views(out@) =~= seq![system_entity(self.solar_system_id)]
                    + Seq::<EntityView>::empty());
            },
        }
        let ghost head = entity_views(out@);
        let mut i: usize = 0;
        assert(entity_views(out@) =~= head + attackers_entities(self.attackers@.take(0)));
        while i < self.attackers.len()
            invariant
                i <= self.attackers.len(),
                entity_views(out@) == head + attackers_entities(self.attackers@.take(i as int)),
            decreases self.attackers.len() - i,
        {
            let a = self.attackers[i];
            let ghost before = entity_views(out@);
            push_attacker(&mut out, a);
            proof {
                let next = self.attackers@.take(i + 1);
                assert(next.drop_last() =~= self.attackers@.take(i as int));
                assert(next.last() == a);
                assert(entity_views(out@) =~= head + attackers_entities(next));
            }
            i += 1;
        }
        assert(self.attackers@.take(i as int) =~= self.attackers@);
        out
    }
}

/// The entities that are stored: all but those with the sentinel identifier.
pub open spec fn is_stored() -> spec_fn(EntityView) -> bool {
    |e: EntityView| e.id != SENTINEL_ID
}

/// The candidates that are handed on to be saved.
pub open spec fn storable(entities: Seq<EntityView>) -> Seq<EntityView> {
    entities.filter(is_stored())
}

/// One save job for each candidate that is stored, in the candidates' order.
pub open spec fn save_entity_jobs(entities: Seq<EntityView>) -> Seq<JobView> {
    storable(entities).map_values(|e: EntityView| JobView::SaveEntity(e))
}

/// The entity candidates in what the detail endpoint sent back.
pub open spec fn resolution_of(fetched: Result<HttpReply, String>) -> Result<
    Seq<EntityView>,
    EsiErrorView,
> {
    match document_of(fetched) {
        Err(e) => Err(e),
        Ok(doc) => Ok(killmail_entities(killmail_of(doc))),
    }
}

/// The save jobs that a batch of detail replies gives rise to: those of each
/// reply that could be read, in the order of the replies. A reply that
/// failed adds nothing and takes nothing away.
pub open spec fn resolved_jobs(replies: Seq<Result<HttpReply, String>>) -> Seq<JobView>
    decreases replies.len(),
{
    if replies.len() == 0 {
        Seq::empty()
    } else {
        resolved_jobs(replies.drop_last()) + (match resolution_of(replies.last()) {
            Ok(entities) => save_entity_jobs(entities),
            Err(_) => Seq::empty(),
        })
    }
}

/// The killmail reference that one item of a listing gives: its identifier
/// and hash, marked as new.
pub open spec fn reference_of(item: Json) -> Option<KillmailView> {
    match (item.integer("killmail_id"@), item.text("killmail_hash"@)) {
        (Some(id), Some(hash)) => Some(
            KillmailView { killmail_id: id as int, killmail_hash: hash, status: KillmailStatus::New },
        ),
        _ => None,
    }
}

/// The references of a list of items, where every item gives one.
pub open spec fn references_of(items: Seq<Json>) -> Option<Seq<KillmailView>>
    decreases items.len(),
{
    if items.len() == 0 {
        Some(Seq::empty())
    } else {
        match (references_of(items.drop_last()), reference_of(items.last())) {
            (Some(head), Some(last)) => Some(head.push(last)),
            _ => None,
        }
    }
}

/// The killmail references in what the listing endpoint sent back: the
/// reply must be a JSON array whose every item holds an identifier and a
/// hash.
pub open spec fn listing_of(fetched: Result<HttpReply, String>) -> Result<
    Seq<KillmailView>,
    EsiErrorView,
> {
    match document_of(fetched) {
        Err(e) => Err(e),
        Ok(doc) => match doc.as_array() {
            None => Err(EsiErrorView::Decode),
            Some(items) => match references_of(items) {
                None => Err(EsiErrorView::Decode),
                Some(references) => Ok(references),
            },
        },
    }
}

/// One save job for each reference.
pub open spec fn save_killmail_jobs(references: Seq<KillmailView>) -> Seq<JobView> {
    references.map_values(|k: KillmailView| JobView::SaveKillmail(k))
}

/// The save jobs that a batch of listing replies gives rise to: those of
/// each reply that could be read, in the order of the replies.
pub open spec fn listed_jobs(replies: Seq<Result<HttpReply, String>>) -> Seq<JobView>
    decreases replies.len(),
{
    if replies.len() == 0 {
        Seq::empty()
    } else {
        listed_jobs(replies.drop_last()) + (match listing_of(replies.last()) {
            Ok(references) => save_killmail_jobs(references),
            Err(_) => Seq::empty(),
        })
    }
}

/// What one killmail detail gave: every entity candidate, and the jobs that
/// save those among them that are stored.
#[derive(Debug, PartialEq, Eq)]
pub struct Resolution {
    pub entities: Vec<Entity>,
    pub jobs: Vec<Job>,
}

/// Makes the save jobs for a list of candidates, leaving out the sentinel.
pub fn entity_jobs(entities: &Vec<Entity>) -> (r: Vec<Job>)
    ensures
        job_views(r@) == save_entity_jobs(entity_views(entities@)),
{
    let mut jobs: Vec<Job> = Vec::new();
    let mut i: usize = 0;
    proof {
        reveal(Seq::filter);
        assert(entity_views(entities@.take(0)) =~= Seq::<EntityView>::empty());
        assert(job_views(jobs@) =~= save_entity_jobs(entity_views(entities@.take(0))));
    }
    while i < entities.len()
        invariant
            i <= entities.len(),
            job_views(jobs@) == save_entity_jobs(entity_views(entities@.take(i as int))),
        decreases entities.len() - i,
    {
        let ghost seen = entity_views(entities@.take(i as int));
        let ghost before = job_views(jobs@);
        proof {
            assert(entity_views(entities@.take(i + 1)) =~= seen.push(entities@[i as int]@));
            seen.lemma_filter_push(entities@[i as int]@, is_stored());
        }
        if entities[i].id != SENTINEL_ID {
            jobs.push(Job::SaveEntity(entities[i].clone()));
            assert(job_views(jobs@) =~= before.push(JobView::SaveEntity(entities@[i as int]@)));
            assert(job_views(jobs@) =~= save_entity_jobs(seen.push(entities@[i as int]@)));
        }
        i += 1;
    }
    assert(entities@.take(i as int) =~= entities@);
    jobs
}

/// Reads the references out of the items of a listing.
fn read_references(items: &Vec<serde_json::Value>) -> (r: Option<Vec<Job>>)
    ensures
        match references_of(json_views(items@)) {
            Some(references) => r is Some && job_views(r->Some_0@) == save_killmail_jobs(
                references,
            ),
            None => r is None,
        },
{
    let mut jobs: Vec<Job> = Vec::new();
    let ghost mut seen: Seq<KillmailView> = Seq::empty();
    let mut i: usize = 0;
    assert(job_views(jobs@) =~= save_killmail_jobs(seen));
    while i < items.len()
        invariant
            i <= items.len(),
            references_of(json_views(items@).take(i as int)) == Some(seen),
            job_views(jobs@) == save_killmail_jobs(seen),
        decreases items.len() - i,
    {
        proof {
            assert(json_views(items@).take(i + 1).drop_last() =~= json_views(items@).take(
                i as int,
            ));
        }
        let id = read_integer(&items[i], "killmail_id");
        let hash = read_text(&items[i], "killmail_hash");
        match (id, hash) {
            (Some(id), Some(hash)) => {
                let ghost before = job_views(jobs@);
                let killmail = Killmail {
                    killmail_id: id,
                    killmail_hash: String::from_str(hash),
                    status: KillmailStatus::New,
                };
                proof {
                    seen = seen.push(killmail@);
                }
                jobs.push(Job::SaveKillmail(killmail));
                assert(job_views(jobs@) =~= before.push(JobView::SaveKillmail(seen.last())));
                assert(job_views(jobs@) =~= save_killmail_jobs(seen));
            },
            _ => {
                proof {
                    lemma_references_prefix_fails(json_views(items@), i + 1);
                }
                return None;
            },
        }
        i += 1;
    }
    assert(json_views(items@).take(i as int) =~= json_views(items@));
    Some(jobs)
}

/// Where a prefix of a listing holds an item that gives no reference, so
/// does the listing.
pub proof fn lemma_references_prefix_fails(items: Seq<Json>, n: int)
    requires
        0 <= n <= items.len(),
        references_of(items.take(n)) is None,
    ensures
        references_of(items) is None,
    decreases items.len() - n,
{
    if n < items.len() {
        assert(items.take(n + 1).drop_last() =~= items.take(n));
        lemma_references_prefix_fails(items, n + 1);
    } else {
        assert(items.take(n) =~= items);
    }
}

impl EsiClient {
    /// Reads what the detail endpoint sent back for one killmail: extracts
    /// the entity candidates and makes a save job for each that is stored.
    pub fn get_killmail_data(&self, fetched: &Result<HttpReply, String>) -> (r: Result<
        Resolution,
        EsiError,
    >)
        ensures
            match resolution_of(*fetched) {
                Ok(entities) => r is Ok && entity_views(r->Ok_0.entities@) == entities
                    && job_views(r->Ok_0.jobs@) == save_entity_jobs(entities),
                Err(e) => r is Err && r->Err_0@ == e,
            },
    {
        let doc = match read_document(fetched) {
            Ok(doc) => doc,
            Err(e) => {
                return Err(e);
            },
        };
        let entities = KillmailDetail::read(&doc).entities();
        let jobs = entity_jobs(&entities);
        Ok(Resolution { entities, jobs })
    }

    /// Reads the replies of a batch of detail requests. Each reply is taken
    /// by itself: one that failed leaves the others as they are.
    pub fn resolve_killmails(&self, replies: &Vec<Result<HttpReply, String>>) -> (r: Vec<Job>)
        ensures
            job_views(r@) == resolved_jobs(replies@),
    {
        let mut jobs: Vec<Job> = Vec::new();
        let mut i: usize = 0;
        assert(job_views(jobs@) =~= resolved_jobs(replies@.take(0)));
        while i < replies.len()
            invariant
                i <= replies.len(),
                job_views(jobs@) == resolved_jobs(replies@.take(i as int)),
            decreases replies.len() - i,
        {
            let ghost before = job_views(jobs@);
            proof {
                assert(replies@.take(i + 1).drop_last() =~= replies@.take(i as int));
            }
            match self.get_killmail_data(&replies[i]) {
                Ok(resolution) => {
                    let mut more = resolution.jobs;
                    let ghost added = job_views(more@);
                    jobs.append(&mut more);
                    assert(job_views(jobs@) =~= before + added);
                },
                Err(_) => {
                    assert(job_views(jobs@) =~= before + Seq::<JobView>::empty());
                },
            }
            i += 1;
        }
        assert(replies@.take(i as int) =~= replies@);
        jobs
    }

    /// Reads what the listing endpoint sent back for one account and makes a
    /// save job, with status new, for each killmail reference in it.
    pub fn get_personal_killmails(&self, fetched: &Result<HttpReply, String>) -> (r: Result<
        Vec<Job>,
        EsiError,
    >)
        ensures
            match listing_of(*fetched) {
                Ok(references) => r is Ok && job_views(r->Ok_0@) == save_killmail_jobs(
                    references,
                ),
                Err(e) => r is Err && r->Err_0@ == e,
            },
    {
        let doc = match read_document(fetched) {
            Ok(doc) => doc,
            Err(e) => {
                return Err(e);
            },
        };
        let items = match json::as_array(&doc) {
            Some(items) => items,
            None => {
                return Err(EsiError::Decode);
            },
        };
        match read_references(items) {
            Some(jobs) => Ok(jobs),
            None => Err(EsiError::Decode),
        }
    }

    /// Reads the replies of a batch of listing requests, one per account.
    /// Each reply is taken by itself: one that failed leaves the others as
    /// they are.
    pub fn get_killmails(&self, replies: &Vec<Result<HttpReply, String>>) -> (r: Vec<Job>)
        ensures
            job_views(r@) == listed_jobs(replies@),
    {
        let mut jobs: Vec<Job> = Vec::new();
        let mut i: usize = 0;
        assert(job_views(jobs@) =~= listed_jobs(replies@.take(0)));
        while i < replies.len()
            invariant
                i <= replies.len(),
                job_views(jobs@) == listed_jobs(replies@.take(i as int)),
            decreases replies.len() - i,
        {
            let ghost before = job_views(jobs@);
            proof {
                assert(replies@.take(i + 1).drop_last() =~= replies@.take(i as int));
            }
            match self.get_personal_killmails(&replies[i]) {
                Ok(found) => {
                    let mut more = found;
                    let ghost added = job_views(more@);
                    jobs.append(&mut more);
                    assert(job_views(jobs@) =~= before + added);
                },
                Err(_) => {
                    assert(job_views(jobs@) =~= before + Seq::<JobView>::empty());
                },
            }
            i += 1;
        }
        assert(replies@.take(i as int) =~= replies@);
        jobs
    }
}

/// No job that comes out of a killmail saves the sentinel: every job is the
/// save of a candidate whose identifier is another.
pub proof fn lemma_sentinel_is_never_saved(entities: Seq<EntityView>)
    ensures
        forall|i: int|
            0 <= i < save_entity_jobs(entities).len() ==> {
                &&& (#[trigger] save_entity_jobs(entities)[i]) matches JobView::SaveEntity(e)
                &&& e.id != SENTINEL_ID
                &&& entities.contains(e)
            },
{
    assert forall|i: int| 0 <= i < save_entity_jobs(entities).len() implies {
        &&& (#[trigger] save_entity_jobs(entities)[i]) matches JobView::SaveEntity(e)
        &&& e.id != SENTINEL_ID
        &&& entities.contains(e)
    } by {
        entities.lemma_filter_pred(is_stored(), i);
        entities.lemma_filter_contains_rev(is_stored(), storable(entities)[i]);
    }
}

/// A victim without an alliance gives no alliance entity.
pub proof fn lemma_victim_without_alliance(victim: Participant)
    requires
        victim.alliance_id is None,
    ensures
        forall|i: int|
            0 <= i < victim_entities(victim).len() ==> (#[trigger] victim_entities(victim)[i]).kind
                != EntityKind::Alliance,
{
}

/// An attacker without an alliance gives no alliance entity.
pub proof fn lemma_attacker_without_alliance(attacker: Participant)
    requires
        attacker.alliance_id is None,
    ensures
        forall|i: int|
            0 <= i < attacker_entities(attacker).len() ==> (#[trigger] attacker_entities(
                attacker,
            )[i]).kind != EntityKind::Alliance,
{
}

} // verus!
