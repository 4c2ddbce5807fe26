use mkb::config::Config;
use mkb::esi::processor::{
    accounts_to_refresh, dispatch, Action, Enqueue, Job, JobQueue, Processor, QueueFull, Step,
    REFRESH_WINDOW,
};
use mkb::esi::EsiClient;
use mkb::models::{Entity, EntityKind, Killmail, KillmailStatus, User};

fn client() -> EsiClient {
    EsiClient::from_config(Config {
        application_id: "test-app".to_string(),
        application_secret: "hush".to_string(),
        redirect_uri: "http://localhost:3000/auth/callback".to_string(),
        database_uri: "postgres://localhost/mkb".to_string(),
    })
}

fn user(character_id: i64, expires_at: i64) -> User {
    User {
        character_id,
        access_token: "access".to_string(),
        refresh_token: "refresh".to_string(),
        expires_at,
        created_at: 0,
        updated_at: 0,
        last_fetched: None,
    }
}

#[test]
fn full_queue_rejects_without_blocking_and_keeps_its_length() {
    let mut queue = JobQueue::new(3);
    assert_eq!(queue.try_send(Job::Refresh), Ok(()));
    assert_eq!(queue.try_send(Job::Killmails), Ok(()));
    assert_eq!(queue.try_send(Job::ResolveKillmails), Ok(()));
    assert!(queue.is_full());
    assert_eq!(queue.len(), 3);
    assert_eq!(queue.try_send(Job::Stop), Err(QueueFull(Job::Stop)));
    assert_eq!(queue.len(), 3);
    assert_eq!(queue.recv(), Some(Job::Refresh));
    assert_eq!(queue.recv(), Some(Job::Killmails));
    assert_eq!(queue.recv(), Some(Job::ResolveKillmails));
    assert_eq!(queue.recv(), None);
}

#[test]
fn blocking_enqueue_waits_until_a_job_was_taken_out() {
    let mut queue = JobQueue::new(2);
    assert_eq!(queue.send(Job::Refresh), Enqueue::Accepted);
    assert_eq!(queue.send(Job::Killmails), Enqueue::Accepted);
    let mut waiting = Job::ResolveKillmails;
    for _ in 0..5 {
        match queue.send(waiting) {
            Enqueue::Wait(job) => waiting = job,
            Enqueue::Accepted => panic!("accepted by a full queue"),
        }
        assert_eq!(queue.len(), 2);
    }
    assert_eq!(waiting, Job::ResolveKillmails);
    assert_eq!(queue.recv(), Some(Job::Refresh));
    assert_eq!(queue.send(waiting), Enqueue::Accepted);
    assert_eq!(queue.len(), 2);
    assert_eq!(queue.recv(), Some(Job::Killmails));
    assert_eq!(queue.recv(), Some(Job::ResolveKillmails));
}

#[test]
fn queue_is_first_in_first_out_with_payloads() {
    let mut queue = JobQueue::new(10);
    let jobs = vec![
        Job::SaveCharacter(user(1, 10)),
        Job::SaveKillmail(Killmail {
            killmail_id: 5,
            killmail_hash: "aa".to_string(),
            status: KillmailStatus::New,
        }),
        Job::SaveEntity(Entity { id: 3, name: String::new(), type_: EntityKind::ShipType }),
        Job::Refresh,
    ];
    for job in &jobs {
        assert_eq!(queue.try_send(job.clone()), Ok(()));
    }
    assert_eq!(queue.len(), 4);
    assert_eq!(queue.capacity(), 10);
    assert!(!queue.is_empty());
    for job in jobs {
        assert_eq!(queue.recv(), Some(job));
    }
    assert!(queue.is_empty());
}

#[test]
fn queue_without_room_takes_nothing() {
    let mut queue = JobQueue::new(0);
    assert!(queue.is_full());
    assert_eq!(queue.try_send(Job::Refresh), Err(QueueFull(Job::Refresh)));
    assert_eq!(queue.send(Job::Refresh), Enqueue::Wait(Job::Refresh));
    assert_eq!(queue.recv(), None);
    assert_eq!(queue.len(), 0);
}

#[test]
fn clear_drops_what_waits_and_keeps_the_capacity() {
    let mut queue = JobQueue::new(2);
    assert_eq!(queue.try_send(Job::Refresh), Ok(()));
    assert_eq!(queue.try_send(Job::Refresh), Ok(()));
    queue.clear();
    assert_eq!(queue.len(), 0);
    assert_eq!(queue.capacity(), 2);
    assert_eq!(queue.try_send(Job::Killmails), Ok(()));
}

#[test]
fn processor_runs_jobs_in_order_and_idles_on_an_empty_queue() {
    let mut queue = JobQueue::new(8);
    let mut processor = Processor::new(&client());
    assert_eq!(processor.client(), &client());
    assert_eq!(processor.next(&mut queue), Step::Idle);
    assert_eq!(queue.try_send(Job::Killmails), Ok(()));
    assert_eq!(queue.try_send(Job::SaveCharacter(user(7, 1))), Ok(()));
    assert_eq!(queue.try_send(Job::Refresh), Ok(()));
    assert_eq!(processor.next(&mut queue), Step::Run(Action::FetchKillmails));
    assert_eq!(processor.next(&mut queue), Step::Run(Action::UpsertAccount(user(7, 1))));
    assert_eq!(queue.try_send(Job::ResolveKillmails), Ok(()));
    assert_eq!(processor.next(&mut queue), Step::Run(Action::RefreshAccounts));
    assert_eq!(processor.next(&mut queue), Step::Run(Action::ResolveKillmails));
    assert_eq!(processor.next(&mut queue), Step::Idle);
    assert!(!processor.is_stopped());
}

#[test]
fn stop_ends_the_processor_and_drops_the_rest() {
    let mut queue = JobQueue::new(8);
    let mut processor = Processor::new(&client());
    assert_eq!(queue.try_send(Job::Refresh), Ok(()));
    assert_eq!(queue.try_send(Job::Stop), Ok(()));
    assert_eq!(queue.try_send(Job::Killmails), Ok(()));
    assert_eq!(processor.next(&mut queue), Step::Run(Action::RefreshAccounts));
    assert_eq!(processor.next(&mut queue), Step::Halt);
    assert!(processor.is_stopped());
    assert!(queue.is_empty());
    assert_eq!(queue.try_send(Job::Killmails), Ok(()));
    assert_eq!(processor.next(&mut queue), Step::Halt);
    assert_eq!(queue.len(), 1);
}

#[test]
fn every_kind_of_job_has_its_work() {
    let killmail = Killmail {
        killmail_id: 5,
        killmail_hash: "aa".to_string(),
        status: KillmailStatus::New,
    };
    let entity = Entity { id: 3, name: String::new(), type_: EntityKind::ShipType };
    assert_eq!(dispatch(Job::Refresh), Some(Action::RefreshAccounts));
    assert_eq!(dispatch(Job::Killmails), Some(Action::FetchKillmails));
    assert_eq!(dispatch(Job::ResolveKillmails), Some(Action::ResolveKillmails));
    assert_eq!(
        dispatch(Job::SaveCharacter(user(7, 1))),
        Some(Action::UpsertAccount(user(7, 1)))
    );
    assert_eq!(
        dispatch(Job::SaveKillmail(killmail.clone())),
        Some(Action::InsertKillmail(killmail))
    );
    assert_eq!(dispatch(Job::SaveEntity(entity.clone())), Some(Action::InsertEntity(entity)));
    assert_eq!(dispatch(Job::Stop), None);
}

#[test]
fn refresh_picks_accounts_within_the_window() {
    let now = 1_000_000;
    let users = vec![
        user(1, now + 600),
        user(2, now - REFRESH_WINDOW),
        user(3, now - REFRESH_WINDOW + 1),
        user(4, now - 100_000),
        user(5, now),
    ];
    assert_eq!(REFRESH_WINDOW, 1200);
    assert_eq!(
        accounts_to_refresh(&users, now, Some(REFRESH_WINDOW)),
        vec![user(1, now + 600), user(3, now - REFRESH_WINDOW + 1), user(5, now)]
    );
    assert_eq!(accounts_to_refresh(&users, now, None), users);
    assert_eq!(accounts_to_refresh(&users, now, Some(0)), vec![user(1, now + 600)]);
}

#[test]
fn refresh_window_does_not_overflow() {
    let users = vec![user(1, i64::MIN), user(2, i64::MAX), user(3, 0)];
    assert_eq!(
        accounts_to_refresh(&users, i64::MIN, Some(i64::MAX)),
        vec![user(1, i64::MIN), user(2, i64::MAX), user(3, 0)]
    );
    assert_eq!(accounts_to_refresh(&users, i64::MAX, Some(i64::MIN)), vec![]);
}
