use mkb::config::Config;
use mkb::error::EsiError;
use mkb::esi::killmail::{entity_jobs, KillmailDetail, Participant};
use mkb::esi::processor::Job;
use mkb::esi::EsiClient;
use mkb::http::HttpReply;
use mkb::json::{read_array, read_integer, read_text};
use mkb::models::{Entity, EntityKind, Killmail, KillmailStatus};

fn client() -> EsiClient {
    EsiClient::from_config(Config {
        application_id: "test-app".to_string(),
        application_secret: "hush".to_string(),
        redirect_uri: "http://localhost:3000/auth/callback".to_string(),
        database_uri: "postgres://localhost/mkb".to_string(),
    })
}

fn ok(body: &str) -> Result<HttpReply, String> {
    Ok(HttpReply { status: 200, body: body.to_string() })
}

fn entity(id: i64, kind: EntityKind) -> Entity {
    Entity { id, name: String::new(), type_: kind }
}

fn nobody() -> Participant {
    Participant {
        character_id: None,
        corporation_id: None,
        alliance_id: None,
        weapon_type_id: None,
        ship_type_id: None,
    }
}

const SCENARIO: &str = "{\"killmail_id\": 100, \"killmail_hash\": \"abc\", \
    \"solar_system_id\": 30000142, \
    \"victim\": {\"character_id\": 1, \"corporation_id\": 10}, \
    \"attackers\": [{\"character_id\": 2, \"ship_type_id\": 600}]}";

#[test]
fn killmail_resolves_to_five_entities_in_order() {
    let resolution = client().get_killmail_data(&ok(SCENARIO)).unwrap();
    let expected = vec![
        entity(30000142, EntityKind::SolarSystem),
        entity(1, EntityKind::Character),
        entity(10, EntityKind::Corporation),
        entity(2, EntityKind::Character),
        entity(600, EntityKind::ShipType),
    ];
    assert_eq!(resolution.entities, expected);
    let jobs: Vec<Job> = expected.into_iter().map(Job::SaveEntity).collect();
    assert_eq!(resolution.jobs, jobs);
}

#[test]
fn detail_is_read_field_by_field() {
    let doc: serde_json::Value = serde_json::from_str(SCENARIO).unwrap();
    let detail = KillmailDetail::read(&doc);
    assert_eq!(
        detail,
        KillmailDetail {
            solar_system_id: Some(30000142),
            victim: Some(Participant {
                character_id: Some(1),
                corporation_id: Some(10),
                ..nobody()
            }),
            attackers: vec![Participant {
                character_id: Some(2),
                ship_type_id: Some(600),
                ..nobody()
            }],
        }
    );
}

#[test]
fn extraction_works_on_plain_values() {
    let detail = KillmailDetail {
        solar_system_id: Some(30000142),
        victim: Some(Participant { character_id: Some(1), corporation_id: Some(10), ..nobody() }),
        attackers: vec![Participant {
            character_id: Some(2),
            ship_type_id: Some(600),
            ..nobody()
        }],
    };
    assert_eq!(
        detail.entities(),
        vec![
            entity(30000142, EntityKind::SolarSystem),
            entity(1, EntityKind::Character),
            entity(10, EntityKind::Corporation),
            entity(2, EntityKind::Character),
            entity(600, EntityKind::ShipType),
        ]
    );
}

#[test]
fn victim_fields_come_in_fixed_order() {
    let detail = KillmailDetail {
        solar_system_id: Some(7),
        victim: Some(Participant {
            character_id: Some(1),
            corporation_id: Some(2),
            alliance_id: Some(3),
            weapon_type_id: Some(4),
            ship_type_id: Some(5),
        }),
        attackers: vec![],
    };
    assert_eq!(
        detail.entities(),
        vec![
            entity(7, EntityKind::SolarSystem),
            entity(1, EntityKind::Character),
            entity(2, EntityKind::Corporation),
            entity(3, EntityKind::Alliance),
            entity(4, EntityKind::WeaponType),
            entity(5, EntityKind::ShipType),
        ]
    );
}

#[test]
fn attackers_come_in_array_order_without_their_weapons() {
    let detail = KillmailDetail {
        solar_system_id: Some(7),
        victim: None,
        attackers: vec![
            Participant {
                character_id: Some(1),
                corporation_id: Some(2),
                alliance_id: Some(3),
                weapon_type_id: Some(4),
                ship_type_id: Some(5),
            },
            Participant { corporation_id: Some(20), ..nobody() },
            Participant { character_id: Some(1), ship_type_id: Some(5), ..nobody() },
        ],
    };
    assert_eq!(
        detail.entities(),
        vec![
            entity(7, EntityKind::SolarSystem),
            entity(1, EntityKind::Character),
            entity(2, EntityKind::Corporation),
            entity(3, EntityKind::Alliance),
            entity(5, EntityKind::ShipType),
            entity(20, EntityKind::Corporation),
            entity(1, EntityKind::Character),
            entity(5, EntityKind::ShipType),
        ]
    );
}

#[test]
fn victim_without_alliance_gives_no_alliance_entity() {
    let body = "{\"solar_system_id\": 5, \"victim\": {\"character_id\": 1, \
        \"corporation_id\": 10, \"ship_type_id\": 9}, \"attackers\": []}";
    let resolution = client().get_killmail_data(&ok(body)).unwrap();
    assert!(resolution.entities.iter().all(|e| e.type_ != EntityKind::Alliance));
    assert_eq!(resolution.entities.len(), 4);
}

#[test]
fn missing_solar_system_gives_the_sentinel_and_no_job_for_it() {
    let body = "{\"victim\": {\"character_id\": 1}}";
    let resolution = client().get_killmail_data(&ok(body)).unwrap();
    assert_eq!(
        resolution.entities,
        vec![entity(0, EntityKind::SolarSystem), entity(1, EntityKind::Character)]
    );
    assert_eq!(resolution.jobs, vec![Job::SaveEntity(entity(1, EntityKind::Character))]);
}

#[test]
fn identifier_zero_is_never_saved() {
    let body = "{\"solar_system_id\": 0, \"victim\": {\"character_id\": 0, \
        \"corporation_id\": 3}, \"attackers\": [{\"character_id\": 0}, {\"ship_type_id\": 0}]}";
    let resolution = client().get_killmail_data(&ok(body)).unwrap();
    assert_eq!(resolution.entities.len(), 5);
    assert_eq!(resolution.jobs, vec![Job::SaveEntity(entity(3, EntityKind::Corporation))]);
    for job in &resolution.jobs {
        match job {
            Job::SaveEntity(e) => assert_ne!(e.id, 0),
            _ => panic!("a job that saves no entity"),
        }
    }
}

#[test]
fn entity_jobs_keep_order_and_drop_the_sentinel() {
    let entities = vec![
        entity(0, EntityKind::SolarSystem),
        entity(4, EntityKind::Character),
        entity(0, EntityKind::Alliance),
        entity(4, EntityKind::Character),
    ];
    assert_eq!(
        entity_jobs(&entities),
        vec![
            Job::SaveEntity(entity(4, EntityKind::Character)),
            Job::SaveEntity(entity(4, EntityKind::Character)),
        ]
    );
    assert_eq!(entity_jobs(&vec![]), vec![]);
}

#[test]
fn fields_of_the_wrong_type_are_read_as_absent() {
    let body = "{\"solar_system_id\": \"30000142\", \"victim\": [1, 2], \
        \"attackers\": {\"character_id\": 2}}";
    let doc: serde_json::Value = serde_json::from_str(body).unwrap();
    let detail = KillmailDetail::read(&doc);
    assert_eq!(
        detail,
        KillmailDetail { solar_system_id: None, victim: Some(nobody()), attackers: vec![] }
    );
    assert_eq!(detail.entities(), vec![entity(0, EntityKind::SolarSystem)]);
}

#[test]
fn numbers_that_are_no_i64_are_read_as_absent() {
    let body = "{\"solar_system_id\": 1.5, \"victim\": {\"character_id\": 18446744073709551615, \
        \"corporation_id\": -4}}";
    let doc: serde_json::Value = serde_json::from_str(body).unwrap();
    let detail = KillmailDetail::read(&doc);
    assert_eq!(detail.solar_system_id, None);
    assert_eq!(detail.victim, Some(Participant { corporation_id: Some(-4), ..nobody() }));
}

#[test]
fn detail_reply_failures_are_told_apart() {
    let c = client();
    assert_eq!(
        c.get_killmail_data(&Err("connection refused".to_string())),
        Err(EsiError::Network("connection refused".to_string()))
    );
    assert_eq!(
        c.get_killmail_data(&Ok(HttpReply { status: 404, body: "not found".to_string() })),
        Err(EsiError::Http { status: 404, body: "not found".to_string() })
    );
    assert_eq!(
        c.get_killmail_data(&Ok(HttpReply { status: 199, body: "{}".to_string() })),
        Err(EsiError::Http { status: 199, body: "{}".to_string() })
    );
    assert_eq!(
        c.get_killmail_data(&Ok(HttpReply { status: 300, body: "{}".to_string() })),
        Err(EsiError::Http { status: 300, body: "{}".to_string() })
    );
    assert_eq!(c.get_killmail_data(&ok("{\"solar_system_id\": ")), Err(EsiError::Decode));
    assert!(c.get_killmail_data(&Ok(HttpReply { status: 299, body: "{}".to_string() })).is_ok());
}

#[test]
fn one_failed_detail_does_not_touch_the_others() {
    let replies = vec![
        ok("{\"solar_system_id\": 1}"),
        Err("timed out".to_string()),
        Ok(HttpReply { status: 500, body: "oops".to_string() }),
        ok("not json"),
        ok("{\"solar_system_id\": 2, \"victim\": {\"alliance_id\": 3}}"),
    ];
    assert_eq!(
        client().resolve_killmails(&replies),
        vec![
            Job::SaveEntity(entity(1, EntityKind::SolarSystem)),
            Job::SaveEntity(entity(2, EntityKind::SolarSystem)),
            Job::SaveEntity(entity(3, EntityKind::Alliance)),
        ]
    );
    assert_eq!(client().resolve_killmails(&vec![]), vec![]);
}

fn reference(id: i64, hash: &str) -> Job {
    Job::SaveKillmail(Killmail {
        killmail_id: id,
        killmail_hash: hash.to_string(),
        status: KillmailStatus::New,
    })
}

#[test]
fn listing_gives_one_new_reference_per_item() {
    let body = "[{\"killmail_hash\": \"aa\", \"killmail_id\": 5}, \
        {\"killmail_id\": 3, \"killmail_hash\": \"bb\", \"extra\": true}]";
    assert_eq!(
        client().get_personal_killmails(&ok(body)),
        Ok(vec![reference(5, "aa"), reference(3, "bb")])
    );
    assert_eq!(client().get_personal_killmails(&ok("[]")), Ok(vec![]));
}

#[test]
fn listing_with_a_broken_item_is_a_decode_error() {
    let c = client();
    assert_eq!(
        c.get_personal_killmails(&ok("[{\"killmail_id\": 5}]")),
        Err(EsiError::Decode)
    );
    assert_eq!(
        c.get_personal_killmails(&ok(
            "[{\"killmail_id\": 5, \"killmail_hash\": \"aa\"}, {\"killmail_id\": \"6\", \
             \"killmail_hash\": \"bb\"}]"
        )),
        Err(EsiError::Decode)
    );
    assert_eq!(c.get_personal_killmails(&ok("{\"killmail_id\": 5}")), Err(EsiError::Decode));
    assert_eq!(c.get_personal_killmails(&ok("[")), Err(EsiError::Decode));
    assert_eq!(
        c.get_personal_killmails(&Ok(HttpReply { status: 304, body: String::new() })),
        Err(EsiError::Http { status: 304, body: String::new() })
    );
    assert_eq!(
        c.get_personal_killmails(&Err("dns".to_string())),
        Err(EsiError::Network("dns".to_string()))
    );
}

#[test]
fn one_failed_listing_does_not_touch_the_others() {
    let replies = vec![
        ok("[{\"killmail_id\": 1, \"killmail_hash\": \"a\"}]"),
        Ok(HttpReply { status: 403, body: "forbidden".to_string() }),
        ok("[{\"killmail_id\": 2, \"killmail_hash\": \"b\"}, \
            {\"killmail_id\": 1, \"killmail_hash\": \"a\"}]"),
        ok("[{\"killmail_id\": 9}]"),
    ];
    assert_eq!(
        client().get_killmails(&replies),
        vec![reference(1, "a"), reference(2, "b"), reference(1, "a")]
    );
}

#[test]
fn json_readers_tell_members_apart() {
    let doc: serde_json::Value =
        serde_json::from_str("{\"a\": 7, \"b\": \"seven\", \"c\": [1, \"x\"], \"d\": null}")
            .unwrap();
    assert_eq!(read_integer(&doc, "a"), Some(7));
    assert_eq!(read_integer(&doc, "b"), None);
    assert_eq!(read_integer(&doc, "z"), None);
    assert_eq!(read_text(&doc, "b"), Some("seven"));
    assert_eq!(read_text(&doc, "a"), None);
    assert_eq!(read_array(&doc, "c").map(|a| a.len()), Some(2));
    assert_eq!(read_array(&doc, "d"), None);
    let list: serde_json::Value = serde_json::from_str("[1]").unwrap();
    assert_eq!(read_integer(&list, "a"), None);
}

#[test]
fn kinds_and_statuses_have_their_tags() {
    assert_eq!(EntityKind::SolarSystem.as_str(), "solar_system");
    assert_eq!(EntityKind::Character.as_str(), "character");
    assert_eq!(EntityKind::Corporation.as_str(), "corporation");
    assert_eq!(EntityKind::Alliance.as_str(), "alliance");
    assert_eq!(EntityKind::ShipType.as_str(), "ship_type");
    assert_eq!(EntityKind::WeaponType.as_str(), "weapon_type");
    assert_eq!(KillmailStatus::New.as_str(), "new");
    assert_eq!(KillmailStatus::Resolved.as_str(), "resolved");
    assert_eq!(KillmailStatus::Failed.as_str(), "failed");
    assert_eq!(Entity::new(4, EntityKind::Alliance), entity(4, EntityKind::Alliance));
}

#[test]
fn tags_are_read_back() {
    for kind in [
        EntityKind::SolarSystem,
        EntityKind::Character,
        EntityKind::Corporation,
        EntityKind::Alliance,
        EntityKind::ShipType,
        EntityKind::WeaponType,
    ] {
        assert_eq!(EntityKind::parse(kind.as_str()), Some(kind));
    }
    for status in [KillmailStatus::New, KillmailStatus::Resolved, KillmailStatus::Failed] {
        assert_eq!(KillmailStatus::parse(status.as_str()), Some(status));
    }
    assert_eq!(EntityKind::parse("ship"), None);
    assert_eq!(EntityKind::parse("Character"), None);
    assert_eq!(EntityKind::parse(""), None);
    assert_eq!(KillmailStatus::parse("new "), None);
    assert_eq!(KillmailStatus::parse("character"), None);
}
