use jitome::gacha::{DailyAction, DailyOutcome, GachaService, SagaPhase, REWARD_END, REWARD_MIN};
use jitome::model::{ErrorKind, GachaEvent, GachaType, ServiceError, User};
use jitome::time::{UnixTime, JST_OFFSET};

const JST_MIDNIGHT: u64 = 1577890800;

fn error(kind: ErrorKind, message: &str) -> ServiceError {
    ServiceError::new(kind, message.to_string())
}

fn event_at(seconds: u64) -> GachaEvent {
    GachaEvent {
        id: "e0".to_string(),
        user_id: "u1".to_string(),
        gacha_type: GachaType::Daily,
        created_at: UnixTime::new(seconds),
    }
}

/// An in-memory pair of stores whose writes can be made to fail.
struct Stores {
    point: u64,
    events: Vec<GachaEvent>,
    fail_save_at: Vec<usize>,
    fail_create: bool,
    saves: usize,
}

impl Stores {
    fn new(point: u64) -> Stores {
        Stores { point, events: Vec::new(), fail_save_at: Vec::new(), fail_create: false, saves: 0 }
    }

    fn latest(&self) -> Result<GachaEvent, ServiceError> {
        match self.events.last() {
            Some(e) => Ok(e.duplicate()),
            None => Err(error(ErrorKind::NotFound, "no event")),
        }
    }

    /// Runs one daily draw to its end and returns what the caller is told.
    fn try_daily(&mut self, service: &GachaService, now: u64, draw: u64) -> (Result<u64, ServiceError>, bool) {
        let found = self.latest();
        let id = format!("e{}", self.events.len() + 1);
        let mut saga = match service.try_daily("u1".to_string(), self.point, found, UnixTime::new(now), draw, id) {
            Ok(s) => s,
            Err(e) => return (Err(e), false),
        };
        let mut action = saga.first_action();
        loop {
            let outcome = match action {
                DailyAction::SavePoint(v) => {
                    self.saves += 1;
                    if self.fail_save_at.contains(&self.saves) {
                        Err(error(ErrorKind::Internal, "save failed"))
                    } else {
                        self.point = v;
                        Ok(())
                    }
                },
                DailyAction::CreateEvent => {
                    if self.fail_create {
                        Err(error(ErrorKind::Internal, "append failed"))
                    } else {
                        self.events.push(saga.event.duplicate());
                        Ok(())
                    }
                },
                DailyAction::Finish(outcome) => {
                    assert_eq!(saga.phase, SagaPhase::Finished);
                    let flagged = outcome.is_inconsistent();
                    return (outcome.into_result(), flagged);
                },
            };
            action = saga.step(outcome);
        }
    }
}

#[test]
fn reward_stays_in_range_for_every_draw() {
    let service = GachaService::new(JST_OFFSET);
    let mut seen = Vec::new();
    for draw in (0..2000u64).chain([u64::MAX, u64::MAX - 1, 1 << 40]) {
        let saga = service
            .try_daily("u1".to_string(), 0, Err(error(ErrorKind::NotFound, "none")), UnixTime::new(0), draw, "e".to_string())
            .ok()
            .unwrap();
        assert!(saga.obtained >= REWARD_MIN && saga.obtained < REWARD_END);
        assert_eq!(saga.updated_point, saga.obtained);
        if !seen.contains(&saga.obtained) {
            seen.push(saga.obtained);
        }
    }
    seen.sort();
    assert_eq!(seen, (5..16).collect::<Vec<u64>>());
}

#[test]
fn reward_follows_the_draw() {
    let service = GachaService::new(JST_OFFSET);
    let saga = service
        .try_daily("u1".to_string(), 100, Err(error(ErrorKind::NotFound, "none")), UnixTime::new(7), 24, "e9".to_string())
        .ok()
        .unwrap();
    assert_eq!(saga.obtained, 7);
    assert_eq!(saga.original_point, 100);
    assert_eq!(saga.updated_point, 107);
    assert_eq!(saga.event.id, "e9");
    assert_eq!(saga.event.user_id, "u1");
    assert_eq!(saga.event.created_at, UnixTime::new(7));
    assert!(matches!(saga.first_action(), DailyAction::SavePoint(107)));
}

#[test]
fn first_draw_succeeds_and_second_is_rate_limited() {
    let service = GachaService::new(JST_OFFSET);
    let mut stores = Stores::new(10);
    let (r, flagged) = stores.try_daily(&service, JST_MIDNIGHT + 60, 3);
    assert_eq!(r.ok(), Some(8));
    assert!(!flagged);
    assert_eq!(stores.point, 18);
    assert_eq!(stores.events.len(), 1);
    assert_eq!(stores.events[0].created_at, UnixTime::new(JST_MIDNIGHT + 60));

    let (r, _) = stores.try_daily(&service, JST_MIDNIGHT + 86399, 4);
    assert_eq!(r.err().unwrap().kind, ErrorKind::RateLimited);
    assert_eq!(stores.point, 18);
    assert_eq!(stores.events.len(), 1);
}

#[test]
fn draw_on_the_next_zone_day_succeeds() {
    let service = GachaService::new(JST_OFFSET);
    let mut stores = Stores::new(0);
    assert_eq!(stores.try_daily(&service, JST_MIDNIGHT - 1, 0).0.ok(), Some(5));
    assert_eq!(stores.try_daily(&service, JST_MIDNIGHT, 10).0.ok(), Some(15));
    assert_eq!(stores.point, 20);
    assert_eq!(stores.events.len(), 2);
}

#[test]
fn rate_limit_message() {
    let service = GachaService::new(JST_OFFSET);
    let r = service.try_daily("u1".to_string(), 0, Ok(event_at(JST_MIDNIGHT)), UnixTime::new(JST_MIDNIGHT + 5), 0, "e".to_string());
    let e = r.err().unwrap();
    assert_eq!(e.kind, ErrorKind::RateLimited);
    assert_eq!(e.message, "Daily Gacha Rate Limit Exceeded");
}

#[test]
fn failed_append_is_rolled_back() {
    let service = GachaService::new(JST_OFFSET);
    let mut stores = Stores::new(42);
    stores.fail_create = true;
    let (r, flagged) = stores.try_daily(&service, JST_MIDNIGHT, 1);
    let e = r.err().unwrap();
    assert_eq!(e.kind, ErrorKind::Internal);
    assert_eq!(e.message, "append failed");
    assert!(!flagged);
    assert_eq!(stores.point, 42);
    assert!(stores.events.is_empty());
}

#[test]
fn failed_rollback_is_flagged() {
    let service = GachaService::new(JST_OFFSET);
    let mut stores = Stores::new(42);
    stores.fail_create = true;
    stores.fail_save_at = vec![2];
    let (r, flagged) = stores.try_daily(&service, JST_MIDNIGHT, 1);
    let e = r.err().unwrap();
    assert_eq!(e.kind, ErrorKind::Internal);
    assert_eq!(e.message, "operation failed");
    assert!(flagged);
    assert_eq!(stores.point, 48);
    assert!(stores.events.is_empty());
}

#[test]
fn failed_first_write_changes_nothing() {
    let service = GachaService::new(JST_OFFSET);
    let mut stores = Stores::new(42);
    stores.fail_save_at = vec![1];
    let (r, flagged) = stores.try_daily(&service, JST_MIDNIGHT, 1);
    assert_eq!(r.err().unwrap().message, "save failed");
    assert!(!flagged);
    assert_eq!(stores.point, 42);
    assert!(stores.events.is_empty());
}

#[test]
fn lookup_failure_is_passed_on() {
    let service = GachaService::new(JST_OFFSET);
    let r = service.try_daily("u1".to_string(), 0, Err(error(ErrorKind::Internal, "db down")), UnixTime::new(0), 0, "e".to_string());
    let e = r.err().unwrap();
    assert_eq!(e.kind, ErrorKind::Internal);
    assert_eq!(e.message, "db down");
}

#[test]
fn balance_overflow_is_refused() {
    let service = GachaService::new(JST_OFFSET);
    let r = service.try_daily("u1".to_string(), u64::MAX - 4, Err(error(ErrorKind::NotFound, "none")), UnixTime::new(0), 0, "e".to_string());
    assert_eq!(r.err().unwrap().kind, ErrorKind::Internal);
    let r = service.try_daily("u1".to_string(), u64::MAX - 5, Err(error(ErrorKind::NotFound, "none")), UnixTime::new(0), 0, "e".to_string());
    assert_eq!(r.ok().unwrap().updated_point, u64::MAX);
}

#[test]
fn latest_event_lookup() {
    let service = GachaService::new(JST_OFFSET);
    assert!(service.get_latest_daily_event(Err(error(ErrorKind::NotFound, "none"))).ok().unwrap().is_none());
    let e = service.get_latest_daily_event(Ok(event_at(3))).ok().unwrap().unwrap();
    assert_eq!(e.created_at, UnixTime::new(3));
    let err = service.get_latest_daily_event(Err(error(ErrorKind::Unauthenticated, "who"))).err().unwrap();
    assert_eq!(err.kind, ErrorKind::Unauthenticated);
}

#[test]
fn daily_record_without_event() {
    let service = GachaService::new(JST_OFFSET);
    let rec = service.get_daily_gacha_record(Err(error(ErrorKind::NotFound, "none")), UnixTime::new(99)).ok().unwrap();
    assert!(rec.latest.is_none());
    assert!(rec.is_available);
    assert_eq!(rec.next_gacha_time, UnixTime::new(99));
}

#[test]
fn daily_record_with_event() {
    let service = GachaService::new(JST_OFFSET);
    let rec = service.get_daily_gacha_record(Ok(event_at(JST_MIDNIGHT + 100)), UnixTime::new(JST_MIDNIGHT + 200)).ok().unwrap();
    assert!(!rec.is_available);
    assert_eq!(rec.next_gacha_time, UnixTime::new(JST_MIDNIGHT + 86400));
    assert_eq!(rec.latest.unwrap().created_at, UnixTime::new(JST_MIDNIGHT + 100));
    let rec = service.get_daily_gacha_record(Ok(event_at(JST_MIDNIGHT - 100)), UnixTime::new(JST_MIDNIGHT)).ok().unwrap();
    assert!(rec.is_available);
    let err = service.get_daily_gacha_record(Err(error(ErrorKind::Internal, "x")), UnixTime::new(0)).err().unwrap();
    assert_eq!(err.kind, ErrorKind::Internal);
}

#[test]
fn outcome_results() {
    assert_eq!(DailyOutcome::Granted(9).into_result().ok(), Some(9));
    assert_eq!(DailyOutcome::Rejected(error(ErrorKind::NotFound, "a")).into_result().err().unwrap().kind, ErrorKind::NotFound);
    assert_eq!(DailyOutcome::RolledBack(error(ErrorKind::Internal, "b")).into_result().err().unwrap().message, "b");
    assert_eq!(DailyOutcome::Inconsistent(error(ErrorKind::Internal, "c")).into_result().err().unwrap().message, "operation failed");
}

#[test]
fn new_user_starts_at_zero() {
    let u = User::new("u1".to_string(), "sub".to_string(), Some("s".to_string()), "Disp".to_string(), UnixTime::new(5));
    assert_eq!(u.point, 0);
    assert_eq!(u.subject, "sub");
    assert_eq!(u.id, "u1");
    let d = u.duplicate();
    assert_eq!(d.screen_name, Some("s".to_string()));
    assert_eq!(d.display_name, "Disp");
}
